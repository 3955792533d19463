use flick_scan::ast::{read_ast, Value};

fn text(v: &Vec<char>) -> String {
    v.iter().collect()
}

#[test]
fn read_ast_builds_the_tree_the_json_describes() {
    let json = r#"{"type":"Program","start":0,"end":15,"body":[{"type":"ExpressionStatement","start":0,"end":6,"expression":{"type":"Identifier","start":0,"end":5,"name":"a\u0062c","optional":false}}],"sourceType":"module","hashbang":null}"#;
    let ast = read_ast(json);
    assert_eq!(ast.nodes.len(), 3);
    let root = &ast.nodes[0];
    assert_eq!(text(&root.kind), "Program");
    assert_eq!((root.start, root.end, root.parent), (0, 15, 0));
    assert_eq!(root.children, vec![1]);
    let stmt = &ast.nodes[1];
    assert_eq!(text(&stmt.kind), "ExpressionStatement");
    assert_eq!((stmt.parent, text(&stmt.key), stmt.pos), (0, "body".to_string(), 0));
    assert_eq!(stmt.children, vec![2]);
    let id = &ast.nodes[2];
    assert_eq!(text(&id.kind), "Identifier");
    assert_eq!((id.start, id.end, id.parent), (0, 5, 1));
    assert_eq!(text(&id.key), "expression");
    let names: Vec<(String, String)> = id
        .scalars
        .iter()
        .map(|(k, v)| {
            let shown = match v {
                Value::Str(s) => text(s),
                Value::Bool(b) => b.to_string(),
                Value::Num(n) => text(n),
                Value::Null => "null".to_string(),
            };
            (text(k), shown)
        })
        .collect();
    assert!(names.contains(&("name".to_string(), "abc".to_string())));
    assert!(names.contains(&("optional".to_string(), "false".to_string())));
}

#[test]
fn read_ast_of_non_object_is_empty() {
    assert_eq!(read_ast("").nodes.len(), 0);
    assert_eq!(read_ast("[1,2]").nodes.len(), 0);
    assert_eq!(read_ast("  null").nodes.len(), 0);
}
