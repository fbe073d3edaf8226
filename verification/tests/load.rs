use concatter::load::{
    build_component_filepath, get_component_js_paths, paths_from_script, paths_of_document,
    request_component_js_paths, script_value_of, JSPathCollection, ScriptValue,
};

fn paths(text: &str) -> Option<Vec<String>> {
    get_component_js_paths(&String::from(text))
}

fn list(items: &[&str]) -> Vec<String> {
    items.iter().map(|item| String::from(*item)).collect()
}

#[test]
fn file_url_joins_server_component_version_and_file() {
    assert_eq!(
        build_component_filepath("host:8383", "cart", "1.2.3", "diversity.json"),
        "http://host:8383/components/cart/1.2.3/files/diversity.json"
    );
}

#[test]
fn file_url_keeps_a_nested_path() {
    assert_eq!(
        build_component_filepath("h", "c", "^1", "dist/main.js"),
        "http://h/components/c/^1/files/dist/main.js"
    );
}

#[test]
fn single_string_is_a_list_of_one() {
    assert_eq!(paths("{\"script\":\"x.js\"}"), Some(list(&["x.js"])));
}

#[test]
fn single_string_and_one_element_list_agree() {
    assert_eq!(paths("{\"script\":\"x.js\"}"), paths("{\"script\":[\"x.js\"]}"));
    assert_eq!(paths("{\"script\":[\"x.js\"]}"), Some(list(&["x.js"])));
}

#[test]
fn list_keeps_its_order() {
    assert_eq!(
        paths("{\"name\":\"c\",\"script\":[\"b.js\",\"a.js\",\"c.js\"]}"),
        Some(list(&["b.js", "a.js", "c.js"]))
    );
}

#[test]
fn elements_that_are_no_strings_are_skipped() {
    assert_eq!(
        paths("{\"script\":[1,\"a.js\",null,{\"x\":1},\"b.js\",[\"c.js\"],true]}"),
        Some(list(&["a.js", "b.js"]))
    );
}

#[test]
fn list_without_strings_gives_nothing() {
    assert_eq!(paths("{\"script\":[]}"), None);
    assert_eq!(paths("{\"script\":[1,2,null]}"), None);
}

#[test]
fn missing_script_gives_nothing() {
    assert_eq!(paths("{\"style\":\"x.css\"}"), None);
    assert_eq!(paths("[\"script\"]"), None);
    assert_eq!(paths("\"script\""), None);
}

#[test]
fn script_of_another_kind_gives_nothing() {
    assert_eq!(paths("{\"script\":5}"), None);
    assert_eq!(paths("{\"script\":null}"), None);
    assert_eq!(paths("{\"script\":{\"main\":\"x.js\"}}"), None);
}

#[test]
fn text_that_is_no_json_gives_nothing() {
    assert_eq!(paths(""), None);
    assert_eq!(paths("{\"script\":\"x.js\""), None);
    assert_eq!(paths("script: x.js"), None);
}

#[test]
fn escapes_in_a_path_are_decoded() {
    assert_eq!(paths("{\"script\":\"a\\u0041\\/b.js\"}"), Some(list(&["aA/b.js"])));
}

#[test]
fn script_value_of_tells_the_shapes_apart() {
    let text = serde_json::Value::String(String::from("x.js"));
    assert_eq!(script_value_of(&text), ScriptValue::Text(String::from("x.js")));
    let array = serde_json::Value::Array(vec![
        serde_json::Value::String(String::from("a.js")),
        serde_json::Value::Bool(true),
        serde_json::Value::String(String::from("b.js")),
    ]);
    assert_eq!(
        script_value_of(&array),
        ScriptValue::List(vec![Some(String::from("a.js")), None, Some(String::from("b.js"))])
    );
    assert_eq!(script_value_of(&serde_json::Value::Null), ScriptValue::Other);
    assert_eq!(script_value_of(&serde_json::Value::Bool(false)), ScriptValue::Other);
}

#[test]
fn paths_from_script_follows_the_shape() {
    assert_eq!(paths_from_script(ScriptValue::Text(String::from("x.js"))), Some(list(&["x.js"])));
    assert_eq!(
        paths_from_script(ScriptValue::List(vec![Some(String::from("x.js"))])),
        Some(list(&["x.js"]))
    );
    assert_eq!(
        paths_from_script(ScriptValue::List(vec![
            None,
            Some(String::from("a.js")),
            None,
            Some(String::from("b.js")),
        ])),
        Some(list(&["a.js", "b.js"]))
    );
    assert_eq!(paths_from_script(ScriptValue::List(vec![None, None])), None);
    assert_eq!(paths_from_script(ScriptValue::List(vec![])), None);
    assert_eq!(paths_from_script(ScriptValue::Other), None);
    assert_eq!(paths_from_script(ScriptValue::Text(String::new())), Some(list(&[""])));
}

#[test]
fn request_wraps_the_paths_with_name_and_version() {
    let collection = request_component_js_paths(
        &String::from("cart"),
        &String::from("1.0"),
        &String::from("{\"script\":[\"a.js\",\"b.js\"]}"),
    );
    assert_eq!(
        collection,
        Some(JSPathCollection {
            component_name: String::from("cart"),
            component_version: String::from("1.0"),
            paths: list(&["a.js", "b.js"]),
        })
    );
}

#[test]
fn request_without_paths_gives_nothing() {
    let collection = request_component_js_paths(
        &String::from("cart"),
        &String::from("1.0"),
        &String::from("{}"),
    );
    assert_eq!(collection, None);
}

fn object(members: Vec<(&str, serde_json::Value)>) -> serde_json::Value {
    let mut map = serde_json::Map::new();
    for (key, value) in members {
        map.insert(String::from(key), value);
    }
    serde_json::Value::Object(map)
}

#[test]
fn paths_of_document_reads_the_script_member() {
    let text = serde_json::Value::String(String::from("x.js"));
    let array = serde_json::Value::Array(vec![text.clone()]);
    let one = object(vec![("name", serde_json::Value::Null), ("script", text.clone())]);
    let many = object(vec![("script", array.clone()), ("style", text.clone())]);
    assert_eq!(paths_of_document(&one), Some(list(&["x.js"])));
    assert_eq!(paths_of_document(&many), Some(list(&["x.js"])));
    assert_eq!(paths_of_document(&object(vec![("scripts", text.clone())])), None);
    assert_eq!(paths_of_document(&object(vec![])), None);
    assert_eq!(paths_of_document(&array), None);
    assert_eq!(paths_of_document(&text), None);
}

#[test]
fn last_of_two_script_members_counts() {
    assert_eq!(paths("{\"script\":\"a.js\",\"script\":[\"b.js\",\"c.js\"]}"), Some(list(&["b.js", "c.js"])));
}
