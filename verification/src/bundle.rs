//! The bundle assembler: the code of the resolved components, each between
//! its markers, in the order of the requests.

use crate::resolve::{Component, LoadedComponent};
use vstd::prelude::*;
use vstd::string::*;

verus! {

/// The block of one component in a bundle: its `BEGIN` marker, its code
/// and its `END` marker, each closed by a line feed, and an empty line.
pub open spec fn block(component: Component) -> Seq<char> {
    "BEGIN "@ + component.name + "\n"@ + component.code + "\nEND "@ + component.name + "\n\n"@
}

/// What one request adds to a bundle: the block of its component, or
/// nothing where its resolution failed.
pub open spec fn piece(resolved: Option<Component>) -> Seq<char> {
    match resolved {
        Some(component) => block(component),
        None => Seq::empty(),
    }
}

/// The bundle of a list of resolutions: their pieces one after the other,
/// in the order of the list.
pub open spec fn bundle_text(resolved: Seq<Option<Component>>) -> Seq<char>
    decreases resolved.len(),
{
    if resolved.len() == 0 {
        Seq::empty()
    } else {
        bundle_text(resolved.drop_last()) + piece(resolved.last())
    }
}

/// The body that answers a request: `No params` where it named no
/// component, else the bundle of what was resolved.
pub open spec fn body_text(resolved: Option<Seq<Option<Component>>>) -> Seq<char> {
    match resolved {
        Some(list) => bundle_text(list),
        None => "No params"@,
    }
}

/// The views of a list of resolutions, in order.
pub open spec fn components_of(list: Seq<Option<LoadedComponent>>) -> Seq<Option<Component>> {
    Seq::new(
        list.len(),
        |i: int|
            match list[i] {
                Some(component) => Some(component@),
                None => None,
            },
    )
}

/// The bundle of two lists of resolutions, one behind the other, is the
/// bundle of the first followed by the bundle of the second: the blocks
/// stand in the order of the requests, and a block depends on nothing but
/// its own component.
pub proof fn lemma_bundle_keeps_order(
    front: Seq<Option<Component>>,
    back: Seq<Option<Component>>,
)
    ensures
        bundle_text(front + back) == bundle_text(front) + bundle_text(back),
    decreases back.len(),
{
    if back.len() == 0 {
        assert(front + back =~= front);
        assert(bundle_text(front) + Seq::<char>::empty() =~= bundle_text(front));
    } else {
        assert((front + back).drop_last() =~= front + back.drop_last());
        assert((front + back).last() == back.last());
        lemma_bundle_keeps_order(front, back.drop_last());
        assert((bundle_text(front) + bundle_text(back.drop_last())) + piece(back.last())
            =~= bundle_text(front) + (bundle_text(back.drop_last()) + piece(back.last())));
    }
}

/// A bundle in which every resolution failed is empty.
pub proof fn lemma_bundle_of_failures(resolved: Seq<Option<Component>>)
    requires
        forall|i: int| 0 <= i < resolved.len() ==> resolved[i] is None,
    ensures
        bundle_text(resolved) == Seq::<char>::empty(),
    decreases resolved.len(),
{
    if resolved.len() > 0 {
        lemma_bundle_of_failures(resolved.drop_last());
        assert(Seq::<char>::empty() + Seq::<char>::empty() =~= Seq::<char>::empty());
    }
}

/// Appends the block of a component to a bundle.
pub fn push_component_code(bundle: &mut String, loaded_component: &LoadedComponent)
    ensures
        final(bundle)@ == old(bundle)@ + block(loaded_component@),
{
    bundle.append("BEGIN ");
    bundle.append(loaded_component.name.as_str());
    bundle.append("\n");
    bundle.append(loaded_component.code.as_str());
    bundle.append("\nEND ");
    bundle.append(loaded_component.name.as_str());
    bundle.append("\n\n");
    assert(bundle@ =~= old(bundle)@ + block(loaded_component@));
}

/// Assembles the bundle of a request. `components` holds the resolution of
/// each component at the position at which the request named it; a failed
/// resolution adds nothing, not even markers.
pub fn assemble_bundle(components: &Vec<Option<LoadedComponent>>) -> (bundle: String)
    ensures
        bundle@ == bundle_text(components_of(components@)),
{
    let ghost resolved = components_of(components@);
    let mut bundle = String::new();
    let mut i: usize = 0;
    assert(resolved.take(0) =~= Seq::<Option<Component>>::empty());
    while i < components.len()
        invariant
            i <= components.len(),
            resolved == components_of(components@),
            bundle@ == bundle_text(resolved.take(i as int)),
        decreases components.len() - i,
    {
        assert(resolved.take(i + 1).drop_last() =~= resolved.take(i as int));
        assert(resolved.take(i + 1).last() == resolved[i as int]);
        match &components[i] {
            Some(loaded_component) => {
                push_component_code(&mut bundle, loaded_component);
            },
            None => {
                assert(bundle@ + Seq::<char>::empty() =~= bundle@);
            },
        }
        i += 1;
    }
    assert(resolved.take(i as int) =~= resolved);
    bundle
}

/// The body that answers a request: `No params` where the query named no
/// component (`resolved` is `None`), else the bundle of `resolved`.
pub fn response_body(resolved: &Option<Vec<Option<LoadedComponent>>>) -> (body: String)
    ensures
        body@ == body_text(
            match resolved {
                Some(list) => Some(components_of(list@)),
                None => None,
            },
        ),
{
    match resolved {
        Some(components) => assemble_bundle(components),
        None => String::from_str("No params"),
    }
}

} // verus!
