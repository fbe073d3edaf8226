//! The component cache: a map shared by every request of the process, from
//! cache key to component code.

use vstd::prelude::*;
use vstd::string::*;

verus! {

/// `chashmap::CHashMap`, a hash map that many threads read and write at
/// once through shared references.
#[verifier::external_type_specification]
#[verifier::external_body]
#[verifier::reject_recursive_types(K)]
#[verifier::reject_recursive_types(V)]
pub struct ExCHashMap<K, V>(chashmap::CHashMap<K, V>);

/// The key under which the code of a component is cached: its name
/// directly followed by its version. Nothing separates the two, so
/// different components can share a key.
pub open spec fn cache_key(name: Seq<char>, version: Seq<char>) -> Seq<char> {
    name + version
}

/// Calls `chashmap::CHashMap::get` and copies the value out of the guard it
/// returns. What is found depends on what any thread has stored so far, so
/// nothing is claimed of the result.
#[verifier::external_body]
fn lookup(cache: &chashmap::CHashMap<String, String>, key: &String) -> (found: Option<String>) {
    match cache.get(key) {
        Some(guard) => Some(String::from(guard.as_str())),
        None => None,
    }
}

/// Calls `chashmap::CHashMap::insert`, which puts the value under the key
/// and replaces what stood there.
#[verifier::external_body]
fn store(cache: &chashmap::CHashMap<String, String>, key: String, code: String) {
    cache.insert(key, code);
}

/// Builds the cache key of a component, see [`cache_key`].
pub fn build_component_cache_key(component_name: &String, component_version: &String) -> (key:
    String)
    ensures
        key@ == cache_key(component_name@, component_version@),
{
    let mut cache_key = String::new();
    cache_key.append(component_name.as_str());
    cache_key.append(component_version.as_str());
    cache_key
}

/// Stores a copy of the code of a component under its cache key. An entry
/// that another request stored under that key in the meantime is replaced.
pub fn cache_loaded_component_code(
    code_cache: &chashmap::CHashMap<String, String>,
    component_name: &String,
    component_version: &String,
    component_code: &String,
) {
    let cache_key = build_component_cache_key(component_name, component_version);
    store(code_cache, cache_key, component_code.clone());
}

/// Looks up the cache key of a component and returns a copy of the code
/// stored under it. The cache is shared: what is found is what some request
/// of this process stored under that key, if any did.
pub fn get_cached_component_code(
    code_cache: &chashmap::CHashMap<String, String>,
    component_name: &String,
    component_version: &String,
) -> (code: Option<String>) {
    let cache_key = build_component_cache_key(component_name, component_version);
    lookup(code_cache, &cache_key)
}

} // verus!
