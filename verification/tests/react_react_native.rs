use flick_scan::lint::LintResult;
use flick_scan::project::ProjectInfo;
use flick_scan::pipeline::lint_source_with_project;

fn lint_source_for_test_with_project(path: &str, source: &str, project: &ProjectInfo) -> LintResult {
    lint_source_with_project(path, source, project)
}


fn project() -> ProjectInfo {
    ProjectInfo {
        has_expo: true,
        has_react_native: true,
        ..ProjectInfo::default()
    }
}

fn rule_messages(rule_name: &str, source: &str) -> Vec<String> {
    lint_source_for_test_with_project("App.tsx", source, &project())
        .diagnostics
        .into_iter()
        .filter(|diagnostic| diagnostic.rule_name == rule_name)
        .map(|diagnostic| diagnostic.message)
        .collect()
}

#[test]
fn flags_inline_styles() {
    let messages = rule_messages(
        "react-native/no-inline-styles",
        "export function App() { return <View style={{ padding: 12 }} />; }\n",
    );
    assert_eq!(
        messages,
        vec!["Avoid inline style objects in React Native components"]
    );
}

#[test]
fn flags_inline_callbacks() {
    let messages = rule_messages(
        "react-native/no-inline-callbacks",
        "export function App() { return <Pressable onPress={() => doThing()} />; }\n",
    );
    assert_eq!(
        messages,
        vec!["Avoid recreating inline callbacks on React Native surfaces"]
    );
}

#[test]
fn flags_anonymous_list_render() {
    let messages = rule_messages(
        "react-native/no-anonymous-list-render",
        "export function App() { return <FlatList renderItem={({ item }) => <Item item={item} />} />; }\n",
    );
    assert_eq!(
        messages,
        vec!["Avoid inline `renderItem` functions on React Native lists"]
    );
}

#[test]
fn flags_scrollview_list() {
    let messages = rule_messages(
        "react-native/no-scrollview-list",
        "export function App({ items }) { return <ScrollView>{items.map(item => <Card key={item} />)}</ScrollView>; }\n",
    );
    assert_eq!(
        messages,
        vec![
            "Prefer `FlatList` or `SectionList` over mapping large collections in `ScrollView`"
        ]
    );
}

#[test]
fn flags_raw_text() {
    let messages = rule_messages(
        "react-native/no-raw-text",
        "export function App() { return <View>Hello</View>; }\n",
    );
    assert_eq!(
        messages,
        vec!["Wrap raw text in a `<Text>` component in React Native"]
    );
}

#[test]
fn flags_alert() {
    let messages = rule_messages(
        "react-native/no-alert",
        "export function App() { Alert.alert('Hi'); return null; }\n",
    );
    assert_eq!(
        messages,
        vec!["Avoid blocking alert APIs in React Native UI flows"]
    );
}

#[test]
fn flags_image_uri_literal() {
    let messages = rule_messages(
        "react-native/no-image-uri-literal",
        "export function App() { return <Image source={{ uri: 'https://cdn.example.com/a.png' }} />; }\n",
    );
    assert_eq!(
        messages,
        vec!["Avoid hardcoded remote image URIs inside React Native components"]
    );
}

#[test]
fn flags_missing_key_extractor() {
    let messages = rule_messages(
        "react-native/require-key-extractor",
        "export function App() { return <FlatList data={items} />; }\n",
    );
    assert_eq!(
        messages,
        vec!["Add `keyExtractor` to React Native list components"]
    );
}
