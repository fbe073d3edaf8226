use concatter::bundle::{assemble_bundle, push_component_code, response_body};
use concatter::resolve::LoadedComponent;

fn component(name: &str, version: &str, code: &str) -> LoadedComponent {
    LoadedComponent {
        name: String::from(name),
        version: String::from(version),
        code: String::from(code),
    }
}

#[test]
fn block_is_appended_to_what_the_bundle_holds() {
    let mut bundle = String::from("before");
    push_component_code(&mut bundle, &component("a", "1", "code();"));
    assert_eq!(bundle, "beforeBEGIN a\ncode();\nEND a\n\n");
}

#[test]
fn two_components_in_request_order() {
    let resolved = vec![Some(component("a", "1", "codeA")), Some(component("b", "2", "codeB"))];
    assert_eq!(assemble_bundle(&resolved), "BEGIN a\ncodeA\nEND a\n\nBEGIN b\ncodeB\nEND b\n\n");
}

#[test]
fn order_follows_position_not_name() {
    let resolved = vec![Some(component("z", "1", "Z")), Some(component("a", "1", "A"))];
    assert_eq!(assemble_bundle(&resolved), "BEGIN z\nZ\nEND z\n\nBEGIN a\nA\nEND a\n\n");
}

#[test]
fn failed_resolution_leaves_no_markers() {
    let resolved = vec![None, Some(component("b", "2", "codeB")), None];
    assert_eq!(assemble_bundle(&resolved), "BEGIN b\ncodeB\nEND b\n\n");
}

#[test]
fn all_failed_gives_the_empty_bundle() {
    assert_eq!(assemble_bundle(&vec![None, None]), "");
    assert_eq!(assemble_bundle(&Vec::new()), "");
}

#[test]
fn empty_code_still_has_its_markers() {
    assert_eq!(assemble_bundle(&vec![Some(component("c", "", ""))]), "BEGIN c\n\nEND c\n\n");
}

#[test]
fn bundle_of_a_joined_list_is_the_joined_bundles() {
    let front = vec![Some(component("a", "1", "A")), None];
    let back = vec![Some(component("b", "1", "B"))];
    let mut all = front.clone();
    all.extend(back.clone());
    assert_eq!(assemble_bundle(&all), assemble_bundle(&front) + &assemble_bundle(&back));
}

#[test]
fn body_without_params_is_no_params() {
    assert_eq!(response_body(&None), "No params");
}

#[test]
fn body_with_params_is_the_bundle() {
    assert_eq!(response_body(&Some(vec![None])), "");
    assert_eq!(
        response_body(&Some(vec![Some(component("a", "1", "x"))])),
        "BEGIN a\nx\nEND a\n\n"
    );
}
