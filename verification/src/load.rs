//! Component manifests: where a component's files live on the metadata
//! service, and which script paths a manifest lists.

use crate::json::{json_document, json_tree, member, parse_document, JsonTree};
use crate::text::optional_text;
use vstd::prelude::*;
use vstd::string::*;

verus! {

/// The ordered script paths of one component, as its manifest lists them.
#[derive(Debug, Clone, PartialEq, Eq)]
pub struct JSPathCollection {
    pub component_name: String,
    pub component_version: String,
    pub paths: Vec<String>,
}

/// What a [`JSPathCollection`] holds, as sequences of characters.
pub struct PathList {
    pub component_name: Seq<char>,
    pub component_version: Seq<char>,
    pub paths: Seq<Seq<char>>,
}

impl View for JSPathCollection {
    type V = PathList;

    open spec fn view(&self) -> PathList {
        PathList {
            component_name: self.component_name@,
            component_version: self.component_version@,
            paths: self.paths.deep_view(),
        }
    }
}

/// The value under a manifest's `script` key, reduced to what decides the
/// path list.
#[derive(Debug, Clone, PartialEq, Eq)]
pub enum ScriptValue {
    /// A single string.
    Text(String),
    /// A list. Each element is its string, or `None` where the element is
    /// not a string.
    List(Vec<Option<String>>),
    /// Anything else.
    Other,
}

/// What a [`ScriptValue`] holds, as sequences of characters.
pub enum ScriptShape {
    Text(Seq<char>),
    List(Seq<Option<Seq<char>>>),
    Other,
}

impl View for ScriptValue {
    type V = ScriptShape;

    open spec fn view(&self) -> ScriptShape {
        match self {
            ScriptValue::Text(s) => ScriptShape::Text(s@),
            ScriptValue::List(entries) => ScriptShape::List(
                Seq::new(entries@.len(), |i: int| optional_text(entries@[i])),
            ),
            ScriptValue::Other => ScriptShape::Other,
        }
    }
}

/// The name of the manifest file of a component.
pub open spec fn manifest_file() -> Seq<char> {
    "diversity.json"@
}

/// The key under which a manifest lists its scripts.
pub open spec fn script_key() -> Seq<char> {
    "script"@
}

/// The URL of one file of a component on the metadata service.
pub open spec fn component_file_url(
    server: Seq<char>,
    component: Seq<char>,
    version: Seq<char>,
    file: Seq<char>,
) -> Seq<char> {
    "http://"@ + server + "/components/"@ + component + "/"@ + version + "/files/"@ + file
}

/// The characters of a JSON string, `None` for any other value.
pub open spec fn text_of(tree: JsonTree) -> Option<Seq<char>> {
    match tree {
        JsonTree::Text(text) => Some(text),
        _ => None,
    }
}

/// The shape of a JSON value that stands under the `script` key: a list
/// where it is an array, a text where it is a string.
pub open spec fn script_shape(tree: JsonTree) -> ScriptShape {
    match tree {
        JsonTree::Array(elements) => ScriptShape::List(
            Seq::new(elements.len(), |i: int| text_of(elements[i])),
        ),
        JsonTree::Text(text) => ScriptShape::Text(text),
        _ => ScriptShape::Other,
    }
}

/// The member of a JSON object under `key`, `None` where there is none or
/// the value is no object.
pub open spec fn member_of(tree: JsonTree, key: Seq<char>) -> Option<JsonTree> {
    match tree {
        JsonTree::Object(members) => if members.contains_key(key) {
            Some(members[key])
        } else {
            None
        },
        _ => None,
    }
}

/// The strings among the elements of a list, in order.
pub open spec fn listed_strings(entries: Seq<Option<Seq<char>>>) -> Seq<Seq<char>> {
    entries.filter_map(|entry: Option<Seq<char>>| entry)
}

/// The path list that a script value stands for. A single string is a list
/// of one path; a list gives its strings in order and skips what is not a
/// string; a list without strings, or any other value, gives no path list.
pub open spec fn script_paths(shape: ScriptShape) -> Option<Seq<Seq<char>>> {
    match shape {
        ScriptShape::Text(path) => Some(seq![path]),
        ScriptShape::List(entries) => if listed_strings(entries).len() > 0 {
            Some(listed_strings(entries))
        } else {
            None
        },
        ScriptShape::Other => None,
    }
}

/// The path list of a manifest document: that of its `script` member,
/// where it is an object and has one.
pub open spec fn document_paths(document: JsonTree) -> Option<Seq<Seq<char>>> {
    match member_of(document, script_key()) {
        Some(script) => script_paths(script_shape(script)),
        None => None,
    }
}

/// The path list of a manifest text: that of the document it is read as,
/// where it is JSON.
pub open spec fn manifest_paths(text: Seq<char>) -> Option<Seq<Seq<char>>> {
    match json_document(text) {
        Some(document) => document_paths(document),
        None => None,
    }
}

/// A manifest whose script is one string and a manifest whose script is a
/// list of that one string list the same: the single path. What else the
/// manifest holds plays no part.
pub proof fn lemma_single_script_forms_agree(
    others: Map<Seq<char>, JsonTree>,
    path: Seq<char>,
)
    ensures
        document_paths(JsonTree::Object(others.insert(script_key(), JsonTree::Text(path))))
            == Some(seq![path]),
        document_paths(
            JsonTree::Object(
                others.insert(script_key(), JsonTree::Array(seq![JsonTree::Text(path)])),
            ),
        ) == Some(seq![path]),
{
    let listed = Seq::new(1, |i: int| text_of(seq![JsonTree::Text(path)][i]));
    assert(listed =~= seq![Some(path)]);
    Seq::lemma_filter_map_singleton(Some(path), |entry: Option<Seq<char>>| entry);
}

/// Builds `http://{server}/components/{component}/{version}/files/{file}`.
pub fn build_component_filepath(
    ds_api_server: &str,
    component: &str,
    version: &str,
    file: &str,
) -> (url: String)
    ensures
        url@ == component_file_url(ds_api_server@, component@, version@, file@),
{
    let mut url = String::from_str("http://");
    url.append(ds_api_server);
    url.append("/components/");
    url.append(component);
    url.append("/");
    url.append(version);
    url.append("/files/");
    url.append(file);
    url
}

/// Reads off a JSON value what decides the path list.
pub fn script_value_of(value: &serde_json::Value) -> (script: ScriptValue)
    ensures
        script@ == script_shape(json_tree(*value)),
{
    match value.as_array() {
        Some(items) => {
            let mut entries: Vec<Option<String>> = Vec::new();
            let mut i: usize = 0;
            while i < items.len()
                invariant
                    i <= items.len(),
                    entries@.len() == i,
                    forall|k: int|
                        0 <= k < i ==> optional_text(#[trigger] entries@[k]) == text_of(
                            json_tree(items@[k]),
                        ),
                decreases items.len() - i,
            {
                match items[i].as_str() {
                    Some(text) => entries.push(Some(String::from_str(text))),
                    None => entries.push(None),
                }
                i += 1;
            }
            let script = ScriptValue::List(entries);
            assert(script@->List_0 =~= script_shape(json_tree(*value))->List_0);
            script
        },
        None => match value.as_str() {
            Some(text) => ScriptValue::Text(String::from_str(text)),
            None => ScriptValue::Other,
        },
    }
}

/// The path list that a script value stands for, see [`script_paths`].
pub fn paths_from_script(script: ScriptValue) -> (paths: Option<Vec<String>>)
    ensures
        match paths {
            Some(list) => script_paths(script@) == Some(list.deep_view()) && list.len() > 0,
            None => script_paths(script@) is None,
        },
{
    match script {
        ScriptValue::Text(path) => {
            let mut list: Vec<String> = Vec::new();
            list.push(path);
            assert(list.deep_view() =~= seq![path@]);
            Some(list)
        },
        ScriptValue::List(entries) => {
            let ghost shape = Seq::new(entries@.len(), |i: int| optional_text(entries@[i]));
            let ghost keep = |entry: Option<Seq<char>>| entry;
            let mut list: Vec<String> = Vec::new();
            let mut i: usize = 0;
            assert(shape.take(0).filter_map(keep) =~= Seq::<Seq<char>>::empty());
            while i < entries.len()
                invariant
                    i <= entries.len(),
                    shape == Seq::new(entries@.len(), |i: int| optional_text(entries@[i])),
                    keep == |entry: Option<Seq<char>>| entry,
                    list.deep_view() == shape.take(i as int).filter_map(keep),
                decreases entries.len() - i,
            {
                proof {
                    shape.lemma_filter_map_take_succ(keep, i as int);
                }
                let ghost before = list.deep_view();
                match &entries[i] {
                    Some(path) => {
                        list.push(path.clone());
                        assert(list.deep_view() =~= before + seq![path@]);
                    },
                    None => {},
                }
                i += 1;
            }
            assert(shape.take(i as int) =~= shape);
            if list.len() > 0 {
                Some(list)
            } else {
                None
            }
        },
        ScriptValue::Other => None,
    }
}

/// The script paths that a manifest document lists, see
/// [`document_paths`].
pub fn paths_of_document(document: &serde_json::Value) -> (paths: Option<Vec<String>>)
    ensures
        match paths {
            Some(list) => document_paths(json_tree(*document)) == Some(list.deep_view())
                && list.len() > 0,
            None => document_paths(json_tree(*document)) is None,
        },
{
    match member(document, "script") {
        Some(script) => paths_from_script(script_value_of(script)),
        None => None,
    }
}

/// The script paths that a manifest text lists, or `None` where the text is
/// no JSON, has no `script` member, or that member stands for no path list.
pub fn get_component_js_paths(diversity_json_string: &String) -> (paths: Option<Vec<String>>)
    ensures
        match paths {
            Some(list) => manifest_paths(diversity_json_string@) == Some(list.deep_view())
                && list.len() > 0,
            None => manifest_paths(diversity_json_string@) is None,
        },
{
    match parse_document(diversity_json_string.as_str()) {
        Ok(document) => paths_of_document(&document),
        Err(_) => None,
    }
}

/// The path collection of a component, from the text that the request for
/// its manifest brought.
pub fn request_component_js_paths(
    component_name: &String,
    component_version: &String,
    manifest: &String,
) -> (collection: Option<JSPathCollection>)
    ensures
        match collection {
            Some(c) => manifest_paths(manifest@) == Some(c@.paths) && c.paths.len() > 0
                && c@.component_name == component_name@ && c@.component_version
                == component_version@,
            None => manifest_paths(manifest@) is None,
        },
{
    match get_component_js_paths(manifest) {
        Some(paths) => Some(
            JSPathCollection {
                component_name: component_name.clone(),
                component_version: component_version.clone(),
                paths,
            },
        ),
        None => None,
    }
}

} // verus!
