//! React Native rules: inline styles and callbacks, list rendering, raw
//! text, blocking alerts, literal image URIs and list keys.
use vstd::prelude::*;

use crate::ast::Ast;
use crate::engine::{
    any_node, any_node_exec, first_where, first_where_exec, gated, opt_diag, reports, scan_nodes, views, DiagView,
    LintContext,
};
use crate::estree::{string_value, unparen, unparen_exec};
use crate::lint::{LintDiagnostic, Severity};
use crate::project::ProjectInfo;
use crate::rules::react::helpers::{
    attr_expression, attr_expression_exec, attr_is, attr_is_exec, callee_static_name, callee_static_name_exec,
    one_of, opening_name, opening_name_exec,
};
use crate::rules::react::performance::{
    attr_any_name, attr_any_name_exec, has_attr, has_attr_exec, map_call_within_cx, map_call_within_exec,
};
use crate::rules::react::styles::{key_name, key_name_exec};
use crate::text::{chars_of, eq_str, trim, trim_chars};

verus! {

/// The React Native rules run in React Native and Expo projects.
pub open spec fn native_project(p: ProjectInfo) -> bool {
    p.has_react_native || p.has_expo
}

/// Expression `e` is a function (through parentheses).
pub open spec fn function_expression(ast: Ast, e: int) -> bool {
    let u = unparen(ast, e);
    ast.is(u, "ArrowFunctionExpression"@) || ast.is(u, "FunctionExpression"@)
}

fn function_expression_exec(ast: &Ast, e: usize) -> (b: bool)
    requires
        ast.wf(),
        e < ast.nodes@.len(),
    ensures
        b == function_expression(*ast, e as int),
{
    let u = unparen_exec(ast, e);
    ast.is_kind(u, "ArrowFunctionExpression") || ast.is_kind(u, "FunctionExpression")
}

/// Attribute `a` holds a function expression.
pub open spec fn function_attr(ast: Ast, a: int) -> bool {
    match attr_expression(ast, a) {
        Some(e) => function_expression(ast, e),
        None => false,
    }
}

fn function_attr_exec(ast: &Ast, a: usize) -> (b: bool)
    requires
        ast.wf(),
        a < ast.nodes@.len(),
    ensures
        b == function_attr(*ast, a as int),
{
    match attr_expression_exec(ast, a) {
        Some(e) => function_expression_exec(ast, e),
        None => false,
    }
}

/// The React Native rules, told apart by what each inspects.
#[derive(Debug, Clone, Copy, PartialEq, Eq, Structural)]
pub enum NativeRule {
    InlineStyles,
    InlineCallbacks,
    AnonymousListRender,
    ScrollViewList,
    RawText,
    Alert,
    ImageUriLiteral,
    KeyExtractor,
}

/// The press and change handlers whose inline definitions are flagged.
pub open spec fn handler_props() -> Seq<Seq<char>> {
    seq!["onPress"@, "onLongPress"@, "onPressIn"@, "onPressOut"@, "onChangeText"@, "onEndReached"@]
}

/// The containers that may not hold raw text.
pub open spec fn text_free_containers() -> Seq<Seq<char>> {
    seq![
        "View"@,
        "Pressable"@,
        "TouchableOpacity"@,
        "TouchableHighlight"@,
        "TouchableWithoutFeedback"@,
        "ScrollView"@,
    ]
}

fn raw_text_exec(cx: &LintContext, c: usize) -> (b: bool)
    requires
        c < cx.ast.nodes@.len(),
    ensures
        b == raw_text_cx(cx, c),
{
    cx.ast.is_kind(c, "JSXText") && match cx.ast.text_of(c, "value") {
        Some(t) => trim_chars(t).len() > 0,
        None => false,
    }
}

fn is_handler_prop(n: &Vec<char>) -> (b: bool)
    ensures
        b == handler_props().contains(n@),
{
    let props = ["onPress", "onLongPress", "onPressIn", "onPressOut", "onChangeText", "onEndReached"];
    let r = one_of(n, &props);
    assert(props@.map_values(|n: &str| n@) =~= handler_props());
    r
}

fn is_text_free_container(n: &Vec<char>) -> (b: bool)
    ensures
        b == text_free_containers().contains(n@),
{
    let names = ["View", "Pressable", "TouchableOpacity", "TouchableHighlight", "TouchableWithoutFeedback", "ScrollView"];
    let r = one_of(n, &names);
    assert(names@.map_values(|n: &str| n@) =~= text_free_containers());
    r
}

/// Opening element `o` opens a `FlatList` or `SectionList`.
pub open spec fn list_opening(ast: Ast, o: int) -> bool {
    ast.is(o, "JSXOpeningElement"@) && (opening_name(ast, o) == Some("FlatList"@) || opening_name(ast, o) == Some(
        "SectionList"@,
    ))
}

fn list_opening_exec(ast: &Ast, o: usize) -> (b: bool)
    requires
        ast.wf(),
        o < ast.nodes@.len(),
    ensures
        b == list_opening(*ast, o as int),
{
    ast.is_kind(o, "JSXOpeningElement") && match opening_name_exec(ast, o) {
        Some(n) => eq_str(&n, "FlatList") || eq_str(&n, "SectionList"),
        None => false,
    }
}

/// Attribute `a` is an inline `renderItem` function.
pub open spec fn inline_render_item_cx(cx: &LintContext, a: usize) -> bool {
    attr_is(cx.ast, a as int, "renderItem"@) && function_attr(cx.ast, a as int)
}

/// Child `c` is non-blank JSX text.
pub open spec fn raw_text_cx(cx: &LintContext, c: usize) -> bool {
    cx.ast.is(c as int, "JSXText"@) && match cx.ast.text(c as int, "value"@) {
        Some(t) => trim(t).len() > 0,
        None => false,
    }
}

/// Property `p` is `uri: '<literal>'`.
#[verifier::opaque]
pub open spec fn literal_uri_property(ast: Ast, p: int) -> bool {
    &&& ast.is(p, "Property"@)
    &&& match ast.child(p, "key"@) {
        Some(k) => key_name(ast, k, ast.flag(p, "computed"@)) == Some("uri"@),
        None => false,
    }
    &&& match ast.child(p, "value"@) {
        Some(v) => {
            let u = unparen(ast, v);
            string_value(ast, u) is Some || (ast.is(u, "TemplateLiteral"@) && ast.field_children(
                u,
                "expressions"@,
            ).len() == 0)
        },
        None => false,
    }
}

/// Object `o` has a `uri: '<literal>'` property.
pub open spec fn literal_uri_object(ast: Ast, o: int) -> bool {
    exists|k: int|
        0 <= k < ast.field_children(o, "properties"@).len() && #[trigger] literal_uri_property(
            ast,
            ast.field_children(o, "properties"@)[k] as int,
        )
}

/// Attribute `a` is `source={{ uri: '<literal>' }}`.
pub open spec fn literal_source_cx(cx: &LintContext, a: usize) -> bool {
    attr_is(cx.ast, a as int, "source"@) && match attr_expression(cx.ast, a as int) {
        Some(e) => {
            let o = unparen(cx.ast, e);
            cx.ast.is(o, "ObjectExpression"@) && literal_uri_object(cx.ast, o)
        },
        None => false,
    }
}

fn literal_uri_object_exec(ast: &Ast, o: usize) -> (b: bool)
    requires
        ast.wf(),
        o < ast.nodes@.len(),
    ensures
        b == literal_uri_object(*ast, o as int),
{
    let props = ast.children_in(o, "properties");
    let mut k: usize = 0;
    while k < props.len()
        invariant
            ast.wf(),
            props@ == ast.field_children(o as int, "properties"@),
            forall|q: int| 0 <= q < props@.len() ==> #[trigger] props@[q] < ast.nodes@.len(),
            k <= props@.len(),
            forall|q: int| 0 <= q < k ==> !#[trigger] literal_uri_property(*ast, props@[q] as int),
        decreases props@.len() - k,
    {
        if literal_uri_property_exec(ast, props[k]) {
            assert(literal_uri_property(*ast, props@[k as int] as int));
            return true;
        }
        k = k + 1;
    }
    false
}

fn literal_uri_property_exec(ast: &Ast, p: usize) -> (b: bool)
    requires
        ast.wf(),
        p < ast.nodes@.len(),
    ensures
        b == literal_uri_property(*ast, p as int),
{
    reveal(literal_uri_property);
    if !ast.is_kind(p, "Property") {
        return false;
    }
    let keyed = match ast.child_of(p, "key") {
        Some(k) => match key_name_exec(ast, k, ast.flag_of(p, "computed")) {
            Some(n) => eq_str(&n, "uri"),
            None => false,
        },
        None => false,
    };
    keyed && match ast.child_of(p, "value") {
        Some(v) => {
            let u = unparen_exec(ast, v);
            crate::estree::string_value_exec(ast, u).is_some() || (ast.is_kind(u, "TemplateLiteral")
                && ast.children_in(u, "expressions").len() == 0)
        },
        None => false,
    }
}

fn literal_source_exec(cx: &LintContext, a: usize) -> (b: bool)
    requires
        cx.wf(),
        a < cx.ast.nodes@.len(),
    ensures
        b == literal_source_cx(cx, a),
{
    if !attr_is_exec(&cx.ast, a, "source") {
        return false;
    }
    let e = match attr_expression_exec(&cx.ast, a) {
        Some(e) => e,
        None => {
            return false;
        },
    };
    let o = unparen_exec(&cx.ast, e);
    cx.ast.is_kind(o, "ObjectExpression") && literal_uri_object_exec(&cx.ast, o)
}

/// The node `InlineStyles` reports at node `i`.
pub open spec fn t_inline_styles(cx: &LintContext, i: int) -> Option<int> {
    let ast = cx.ast;
    if attr_is(ast, i, "style"@) && match attr_expression(ast, i) {
        Some(e) => ast.is(unparen(ast, e), "ObjectExpression"@),
        None => false,
    } {
        Some(i)
    } else {
        None
    }
}

/// The node `InlineCallbacks` reports at node `i`.
pub open spec fn t_inline_callbacks(cx: &LintContext, i: int) -> Option<int> {
    let ast = cx.ast;
    if (match attr_any_name(ast, i) {
        Some(n) => handler_props().contains(n),
        None => false,
    }) && function_attr(ast, i) {
        Some(i)
    } else {
        None
    }
}

/// The node `AnonymousListRender` reports at node `i`.
pub open spec fn t_anonymous_list_render(cx: &LintContext, i: int) -> Option<int> {
    let ast = cx.ast;
    if list_opening(ast, i) {
        match first_where(ast.field_children(i, "attributes"@), |a: usize| inline_render_item_cx(cx, a)) {
            Some(a) => Some(a as int),
            None => None,
        }
    } else {
        None
    }
}

/// The node `ScrollViewList` reports at node `i`.
pub open spec fn t_scroll_view_list(cx: &LintContext, i: int) -> Option<int> {
    let ast = cx.ast;
    if ast.is(i, "JSXElement"@) {
        match ast.child(i, "openingElement"@) {
            Some(o) => if opening_name(ast, o) == Some("ScrollView"@) && any_node(
                ast.nodes@.len() as int,
                |k: int| map_call_within_cx(cx, i, k),
            ) {
                Some(o)
            } else {
                None
            },
            None => None,
        }
    } else {
        None
    }
}

/// The node `RawText` reports at node `i`.
pub open spec fn t_raw_text(cx: &LintContext, i: int) -> Option<int> {
    let ast = cx.ast;
    if ast.is(i, "JSXElement"@) {
        match ast.child(i, "openingElement"@) {
            Some(o) => match opening_name(ast, o) {
                Some(n) => if text_free_containers().contains(n) {
                    match first_where(ast.field_children(i, "children"@), |c: usize| raw_text_cx(cx, c)) {
                        Some(c) => Some(c as int),
                        None => None,
                    }
                } else {
                    None
                },
                None => None,
            },
            None => None,
        }
    } else {
        None
    }
}

/// The node `Alert` reports at node `i`.
pub open spec fn t_alert(cx: &LintContext, i: int) -> Option<int> {
    let ast = cx.ast;
    if ast.is(i, "CallExpression"@) && match ast.child(i, "callee"@) {
        Some(c) => callee_static_name(ast, c) == Some("alert"@) || callee_static_name(ast, c) == Some(
            "Alert.alert"@,
        ),
        None => false,
    } {
        Some(i)
    } else {
        None
    }
}

/// The node `ImageUriLiteral` reports at node `i`.
pub open spec fn t_image_uri_literal(cx: &LintContext, i: int) -> Option<int> {
    let ast = cx.ast;
    if ast.is(i, "JSXOpeningElement"@) && opening_name(ast, i) == Some(
        "Image"@,
    ) {
        match first_where(ast.field_children(i, "attributes"@), |a: usize| literal_source_cx(cx, a)) {
            Some(a) => Some(a as int),
            None => None,
        }
    } else {
        None
    }
}

/// The node `KeyExtractor` reports at node `i`.
pub open spec fn t_key_extractor(cx: &LintContext, i: int) -> Option<int> {
    let ast = cx.ast;
    if list_opening(ast, i) && !has_attr(ast, i, "keyExtractor"@) {
        Some(i)
    } else {
        None
    }
}

fn t_inline_styles_exec(cx: &LintContext, i: usize) -> (r: Option<usize>)
    requires
        cx.wf(),
        i < cx.ast.nodes@.len(),
    ensures
        match r {
            Some(t) => t < cx.ast.nodes@.len() && t_inline_styles(cx, i as int) == Some(t as int),
            None => t_inline_styles(cx, i as int) is None,
        },
{
    let ast = &cx.ast;
    let hit = attr_is_exec(ast, i, "style") && match attr_expression_exec(ast, i) {
        Some(e) => ast.is_kind(unparen_exec(ast, e), "ObjectExpression"),
        None => false,
    };
    if hit {
        Some(i)
    } else {
        None
    }
}

fn t_inline_callbacks_exec(cx: &LintContext, i: usize) -> (r: Option<usize>)
    requires
        cx.wf(),
        i < cx.ast.nodes@.len(),
    ensures
        match r {
            Some(t) => t < cx.ast.nodes@.len() && t_inline_callbacks(cx, i as int) == Some(t as int),
            None => t_inline_callbacks(cx, i as int) is None,
        },
{
    let ast = &cx.ast;
    let named = match attr_any_name_exec(ast, i) {
        Some(n) => is_handler_prop(&n),
        None => false,
    };
    if named && function_attr_exec(ast, i) {
        Some(i)
    } else {
        None
    }
}

fn t_anonymous_list_render_exec(cx: &LintContext, i: usize) -> (r: Option<usize>)
    requires
        cx.wf(),
        i < cx.ast.nodes@.len(),
    ensures
        match r {
            Some(t) => t < cx.ast.nodes@.len() && t_anonymous_list_render(cx, i as int) == Some(t as int),
            None => t_anonymous_list_render(cx, i as int) is None,
        },
{
    let ast = &cx.ast;
    if !list_opening_exec(ast, i) {
        return None;
    }
    let attrs = ast.children_in(i, "attributes");
    let test = |a: usize| -> (b: bool)
        requires
            cx.wf(),
            a < cx.ast.nodes@.len(),
        ensures
            b == inline_render_item_cx(cx, a),
    { attr_is_exec(&cx.ast, a, "renderItem") && function_attr_exec(&cx.ast, a) };
    let r = first_where_exec(&attrs, test, Ghost(|a: usize| inline_render_item_cx(cx, a)));
    proof {
        crate::engine::lemma_first_where_in(attrs@, |a: usize| inline_render_item_cx(cx, a));
    }
    r
}

fn t_scroll_view_list_exec(cx: &LintContext, i: usize) -> (r: Option<usize>)
    requires
        cx.wf(),
        i < cx.ast.nodes@.len(),
    ensures
        match r {
            Some(t) => t < cx.ast.nodes@.len() && t_scroll_view_list(cx, i as int) == Some(t as int),
            None => t_scroll_view_list(cx, i as int) is None,
        },
{
    let ast = &cx.ast;
    if !ast.is_kind(i, "JSXElement") {
        return None;
    }
    let o = match ast.child_of(i, "openingElement") {
        Some(o) => o,
        None => {
            return None;
        },
    };
    let named = match opening_name_exec(ast, o) {
        Some(n) => eq_str(&n, "ScrollView"),
        None => false,
    };
    if !named {
        return None;
    }
    let test = |k: usize| -> (b: bool)
        requires
            cx.wf(),
            i < cx.ast.nodes@.len(),
            k < cx.ast.nodes@.len(),
        ensures
            b == map_call_within_cx(cx, i as int, k as int),
    { map_call_within_exec(&cx.ast, i, k) };
    if any_node_exec(ast.nodes.len(), test, Ghost(|k: int| map_call_within_cx(cx, i as int, k))) {
        Some(o)
    } else {
        None
    }
}

fn t_raw_text_exec(cx: &LintContext, i: usize) -> (r: Option<usize>)
    requires
        cx.wf(),
        i < cx.ast.nodes@.len(),
    ensures
        match r {
            Some(t) => t < cx.ast.nodes@.len() && t_raw_text(cx, i as int) == Some(t as int),
            None => t_raw_text(cx, i as int) is None,
        },
{
    let ast = &cx.ast;
    if !ast.is_kind(i, "JSXElement") {
        return None;
    }
    let o = match ast.child_of(i, "openingElement") {
        Some(o) => o,
        None => {
            return None;
        },
    };
    let contained = match opening_name_exec(ast, o) {
        Some(n) => is_text_free_container(&n),
        None => false,
    };
    if !contained {
        return None;
    }
    let kids = ast.children_in(i, "children");
    let test = |c: usize| -> (b: bool)
        requires
            cx.wf(),
            c < cx.ast.nodes@.len(),
        ensures
            b == raw_text_cx(cx, c),
    { raw_text_exec(cx, c) };
    let r = first_where_exec(&kids, test, Ghost(|c: usize| raw_text_cx(cx, c)));
    proof {
        crate::engine::lemma_first_where_in(kids@, |c: usize| raw_text_cx(cx, c));
    }
    r
}

fn t_alert_exec(cx: &LintContext, i: usize) -> (r: Option<usize>)
    requires
        cx.wf(),
        i < cx.ast.nodes@.len(),
    ensures
        match r {
            Some(t) => t < cx.ast.nodes@.len() && t_alert(cx, i as int) == Some(t as int),
            None => t_alert(cx, i as int) is None,
        },
{
    let ast = &cx.ast;
    if !ast.is_kind(i, "CallExpression") {
        return None;
    }
    let hit = match ast.child_of(i, "callee") {
        Some(c) => match callee_static_name_exec(ast, c) {
            Some(n) => eq_str(&n, "alert") || eq_str(&n, "Alert.alert"),
            None => false,
        },
        None => false,
    };
    if hit {
        Some(i)
    } else {
        None
    }
}

fn t_image_uri_literal_exec(cx: &LintContext, i: usize) -> (r: Option<usize>)
    requires
        cx.wf(),
        i < cx.ast.nodes@.len(),
    ensures
        match r {
            Some(t) => t < cx.ast.nodes@.len() && t_image_uri_literal(cx, i as int) == Some(t as int),
            None => t_image_uri_literal(cx, i as int) is None,
        },
{
    let ast = &cx.ast;
    let image = ast.is_kind(i, "JSXOpeningElement") && match opening_name_exec(ast, i) {
        Some(n) => eq_str(&n, "Image"),
        None => false,
    };
    if !image {
        return None;
    }
    let attrs = ast.children_in(i, "attributes");
    let test = |a: usize| -> (b: bool)
        requires
            cx.wf(),
            a < cx.ast.nodes@.len(),
        ensures
            b == literal_source_cx(cx, a),
    { literal_source_exec(cx, a) };
    let r = first_where_exec(&attrs, test, Ghost(|a: usize| literal_source_cx(cx, a)));
    proof {
        crate::engine::lemma_first_where_in(attrs@, |a: usize| literal_source_cx(cx, a));
    }
    r
}

fn t_key_extractor_exec(cx: &LintContext, i: usize) -> (r: Option<usize>)
    requires
        cx.wf(),
        i < cx.ast.nodes@.len(),
    ensures
        match r {
            Some(t) => t < cx.ast.nodes@.len() && t_key_extractor(cx, i as int) == Some(t as int),
            None => t_key_extractor(cx, i as int) is None,
        },
{
    let ast = &cx.ast;
    if list_opening_exec(ast, i) && !has_attr_exec(ast, i, "keyExtractor") {
        Some(i)
    } else {
        None
    }
}

impl NativeRule {
    pub open spec fn rule(self) -> Seq<char> {
        match self {
            NativeRule::InlineStyles => "react-native/no-inline-styles"@,
            NativeRule::InlineCallbacks => "react-native/no-inline-callbacks"@,
            NativeRule::AnonymousListRender => "react-native/no-anonymous-list-render"@,
            NativeRule::ScrollViewList => "react-native/no-scrollview-list"@,
            NativeRule::RawText => "react-native/no-raw-text"@,
            NativeRule::Alert => "react-native/no-alert"@,
            NativeRule::ImageUriLiteral => "react-native/no-image-uri-literal"@,
            NativeRule::KeyExtractor => "react-native/require-key-extractor"@,
        }
    }

    pub open spec fn message(self) -> Seq<char> {
        match self {
            NativeRule::InlineStyles => "Avoid inline style objects in React Native components"@,
            NativeRule::InlineCallbacks => "Avoid recreating inline callbacks on React Native surfaces"@,
            NativeRule::AnonymousListRender => "Avoid inline `renderItem` functions on React Native lists"@,
            NativeRule::ScrollViewList => "Prefer `FlatList` or `SectionList` over mapping large collections in `ScrollView`"@,
            NativeRule::RawText => "Wrap raw text in a `<Text>` component in React Native"@,
            NativeRule::Alert => "Avoid blocking alert APIs in React Native UI flows"@,
            NativeRule::ImageUriLiteral => "Avoid hardcoded remote image URIs inside React Native components"@,
            NativeRule::KeyExtractor => "Add `keyExtractor` to React Native list components"@,
        }
    }

    /// The rule's name.
    pub fn name(&self) -> (r: &'static str)
        ensures
            r@ == self.rule(),
    {
        match self {
            NativeRule::InlineStyles => "react-native/no-inline-styles",
            NativeRule::InlineCallbacks => "react-native/no-inline-callbacks",
            NativeRule::AnonymousListRender => "react-native/no-anonymous-list-render",
            NativeRule::ScrollViewList => "react-native/no-scrollview-list",
            NativeRule::RawText => "react-native/no-raw-text",
            NativeRule::Alert => "react-native/no-alert",
            NativeRule::ImageUriLiteral => "react-native/no-image-uri-literal",
            NativeRule::KeyExtractor => "react-native/require-key-extractor",
        }
    }

    fn message_exec(&self) -> (r: &'static str)
        ensures
            r@ == self.message(),
    {
        match self {
            NativeRule::InlineStyles => "Avoid inline style objects in React Native components",
            NativeRule::InlineCallbacks => "Avoid recreating inline callbacks on React Native surfaces",
            NativeRule::AnonymousListRender => "Avoid inline `renderItem` functions on React Native lists",
            NativeRule::ScrollViewList => "Prefer `FlatList` or `SectionList` over mapping large collections in `ScrollView`",
            NativeRule::RawText => "Wrap raw text in a `<Text>` component in React Native",
            NativeRule::Alert => "Avoid blocking alert APIs in React Native UI flows",
            NativeRule::ImageUriLiteral => "Avoid hardcoded remote image URIs inside React Native components",
            NativeRule::KeyExtractor => "Add `keyExtractor` to React Native list components",
        }
    }

    /// The node the rule reports at node `i`, if any.
    pub open spec fn target(self, cx: &LintContext, i: int) -> Option<int> {
        match self {
            NativeRule::InlineStyles => t_inline_styles(cx, i),
            NativeRule::InlineCallbacks => t_inline_callbacks(cx, i),
            NativeRule::AnonymousListRender => t_anonymous_list_render(cx, i),
            NativeRule::ScrollViewList => t_scroll_view_list(cx, i),
            NativeRule::RawText => t_raw_text(cx, i),
            NativeRule::Alert => t_alert(cx, i),
            NativeRule::ImageUriLiteral => t_image_uri_literal(cx, i),
            NativeRule::KeyExtractor => t_key_extractor(cx, i),
        }
    }

    /// What the rule reports at node `i`.
    pub open spec fn report(self, cx: &LintContext, i: int) -> Option<DiagView> {
        match self.target(cx, i) {
            Some(t) => Some(cx.at_node(self.rule(), self.message(), t, Severity::Warning)),
            None => None,
        }
    }

    pub open spec fn reports_fn(self, cx: &LintContext) -> spec_fn(int) -> Option<DiagView> {
        |i: int| self.report(cx, i)
    }

    fn target_exec(&self, cx: &LintContext, i: usize) -> (r: Option<usize>)
        requires
            cx.wf(),
            i < cx.ast.nodes@.len(),
        ensures
            match r {
                Some(t) => t < cx.ast.nodes@.len() && self.target(cx, i as int) == Some(t as int),
                None => self.target(cx, i as int) is None,
            },
    {
        match self {
            NativeRule::InlineStyles => t_inline_styles_exec(cx, i),
            NativeRule::InlineCallbacks => t_inline_callbacks_exec(cx, i),
            NativeRule::AnonymousListRender => t_anonymous_list_render_exec(cx, i),
            NativeRule::ScrollViewList => t_scroll_view_list_exec(cx, i),
            NativeRule::RawText => t_raw_text_exec(cx, i),
            NativeRule::Alert => t_alert_exec(cx, i),
            NativeRule::ImageUriLiteral => t_image_uri_literal_exec(cx, i),
            NativeRule::KeyExtractor => t_key_extractor_exec(cx, i),
        }
    }

    /// In a React Native or Expo project, one warning per node the rule flags, in node order.
    pub fn run(&self, cx: &LintContext, project: &ProjectInfo) -> (r: Vec<LintDiagnostic>)
        requires
            cx.wf(),
        ensures
            views(r@) == gated(native_project(*project), reports(cx.ast.nodes@.len() as int, self.reports_fn(cx))),
    {
        if !(project.has_react_native || project.has_expo) {
            return Vec::new();
        }
        let check = |i: usize| -> (d: Option<LintDiagnostic>)
            requires
                cx.wf(),
                i < cx.ast.nodes@.len(),
            ensures
                opt_diag(d) == self.report(cx, i as int),
        {
            match self.target_exec(cx, i) {
                Some(t) => Some(cx.node_diagnostic(self.name(), &chars_of(self.message_exec()), t, Severity::Warning)),
                None => None,
            }
        };
        scan_nodes(cx, check, Ghost(self.reports_fn(cx)))
    }
}

} // verus!
