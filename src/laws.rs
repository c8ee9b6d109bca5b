use vstd::prelude::*;

use crate::any_view::{AnyView, EraseAnyViewState};
use crate::context::{ContextModel, LayoutId, ViewError};
use crate::element::AnyBox;
use crate::view::{view_element_id, EraseViewState, View};
use vstd::view::View as _;

verus! {

/// A copy of a typed view, or a clone of a shared erased view, has the same
/// element id as the view it came from and names the same entity: a state
/// committed through one handle is the state read through the other.
pub proof fn lemma_clone_keeps_identity_and_state(
    v: View,
    w: View,
    a: AnyView,
    b: AnyView,
    cx: ContextModel,
    value: u64,
)
    requires
        w == v,
        b@ == a@,
        cx.holds(v.state),
        cx.holds(a@.state),
    ensures
        view_element_id(w.entity()) == view_element_id(v.entity()),
        view_element_id(b@.entity()) == view_element_id(a@.entity()),
        cx.states.update(v.entity() as int, value)[w.entity() as int] == value,
        cx.states.update(a@.entity() as int, value)[b@.entity() as int] == value,
{
}

/// Erasure never alters identity: a view, its typed adapter, the shared
/// erased view made from it and that one's adapter all have one element id.
pub proof fn lemma_erasure_keeps_identity<P, Q>(
    v: View,
    e: EraseViewState<P>,
    a: AnyView,
    ea: EraseAnyViewState<Q>,
)
    requires
        e.view == v,
        a@ == v,
        ea.view@ == a@,
    ensures
        view_element_id(e.view.entity()) == view_element_id(v.entity()),
        view_element_id(a@.entity()) == view_element_id(v.entity()),
        view_element_id(ea.view@.entity()) == view_element_id(v.entity()),
{
}

/// Element state made by a view's `initialize`, then handed to its `layout`
/// and then its `paint`, is never refused as state of another node.
pub proof fn lemma_in_order_lifecycle_never_mismatches(
    v: View,
    c0: ContextModel,
    c1: ContextModel,
    b1: AnyBox,
    c2: ContextModel,
    b2: AnyBox,
    layout_result: Result<LayoutId, ViewError>,
    c3: ContextModel,
    b3: AnyBox,
    paint_result: Result<(), ViewError>,
)
    requires
        v.initialize_spec(c0, c1, Ok(b1)),
        v.layout_spec(c1, c2, b1, b2, layout_result),
        v.paint_spec(c2, c3, b2, b3, paint_result),
    ensures
        layout_result != Err::<LayoutId, ViewError>(ViewError::StateTypeMismatch),
        paint_result != Err::<(), ViewError>(ViewError::StateTypeMismatch),
{
}

/// Of two clones of one shared erased view, one may initialize and the other
/// lay out: the second accepts the first's element state, lays out the very
/// tree that was rendered, and renders nothing anew.
pub proof fn lemma_clones_share_element_state(
    a: AnyView,
    c: AnyView,
    c0: ContextModel,
    c1: ContextModel,
    b: AnyBox,
    c2: ContextModel,
    b2: AnyBox,
    r: Result<LayoutId, ViewError>,
)
    requires
        c@ == a@,
        a@.initialize_spec(c0, c1, Ok(b)),
        c@.layout_spec(c1, c2, b, b2, r),
    ensures
        r == Ok::<LayoutId, ViewError>(LayoutId(c1.next_layout_id)),
        b2.tag == b.tag,
        b2.element.value == b.element.value,
        c2.states == c1.states,
{
}

/// Layout acts on the tree captured at the last `initialize`, not on a fresh
/// render: whatever the entity's state has become since, the laid-out tree
/// holds the value rendered from the state at `initialize`.
pub proof fn lemma_layout_keeps_captured_tree(
    v: View,
    c0: ContextModel,
    c1: ContextModel,
    b: AnyBox,
    later: ContextModel,
    c2: ContextModel,
    b2: AnyBox,
    r: Result<LayoutId, ViewError>,
)
    requires
        v.initialize_spec(c0, c1, Ok(b)),
        v.layout_spec(later, c2, b, b2, r),
    ensures
        b2.element == (if r is Ok {
            View::laid_out(b, later).element
        } else {
            b.element
        }),
        b2.element.value == v.render.rendered(c0.states[v.entity() as int]).value,
{
}

} // verus!
