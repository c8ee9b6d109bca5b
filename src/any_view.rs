use vstd::prelude::*;

use crate::context::{Bounds, ElementId, Handle, LayoutId, ViewError, WindowContext};
use crate::element::AnyBox;
use crate::view::{view_element_id, View};
use std::marker::PhantomData;
use std::sync::Arc;
use vstd::view::View as _;

verus! {

#[verifier::external_type_specification]
#[verifier::external_body]
pub struct ExRawMutex(parking_lot::RawMutex);

#[verifier::external_type_specification]
#[verifier::external_body]
#[verifier::reject_recursive_types(R)]
#[verifier::reject_recursive_types(T)]
pub struct ExMutex<R, T: ?Sized>(parking_lot::lock_api::Mutex<R, T>);

/// The view that a cell holds. A cell is filled once, by `new_cell`, and
/// nothing in this crate writes through its lock afterwards.
pub uninterp spec fn cell_view(m: parking_lot::Mutex<View>) -> View;

/// Relies on parking_lot::Mutex::new: the new cell holds `v`.
#[verifier::external_body]
fn new_cell(v: View) -> (r: parking_lot::Mutex<View>)
    ensures
        cell_view(r) == v,
{
    parking_lot::Mutex::new(v)
}

/// Relies on parking_lot::Mutex::lock: blocks until the lock is free, then
/// grants access to the held value; the guard is released before returning.
/// No caller holds this lock across the call, so it cannot wait on itself.
#[verifier::external_body]
fn read_cell(m: &parking_lot::Mutex<View>) -> (r: View)
    ensures
        r == cell_view(*m),
{
    *m.lock()
}

/// A shared erased view: a reference-counted, lockable cell holding one view
/// whose state type is no longer known to its users. Clones share the cell.
pub struct AnyView {
    view: Arc<parking_lot::Mutex<View>>,
}

impl vstd::view::View for AnyView {
    type V = View;

    closed spec fn view(&self) -> View {
        cell_view(*self.view)
    }
}

impl Clone for AnyView {
    /// Another handle on the same cell.
    fn clone(&self) -> (r: AnyView)
        ensures
            r@ == self@,
    {
        AnyView { view: Arc::clone(&self.view) }
    }
}

impl View {
    /// Moves this view into a new shared erased view.
    pub fn into_any(self) -> (r: AnyView)
        ensures
            r@ == self,
    {
        AnyView { view: Arc::new(new_cell(self)) }
    }
}

impl AnyView {
    /// The identity-only handle of the erased view's entity; the cell is
    /// locked only while the handle is copied out.
    pub fn entity_handle(&self) -> (r: Handle)
        ensures
            r == self@.state,
    {
        read_cell(&self.view).entity_handle()
    }

    /// Wraps this shared erased view so that it stands in a tree whose state
    /// type is `P`.
    pub fn into_element<P>(self) -> (r: EraseAnyViewState<P>)
        ensures
            r.view@ == self@,
    {
        EraseAnyViewState { view: self, parent_view_state_type: PhantomData }
    }

    /// The erased view's element id, the same as that of the view it holds.
    pub fn id(&self) -> (r: Option<ElementId>)
        ensures
            r == Some(view_element_id(self@.entity())),
    {
        read_cell(&self.view).id()
    }

    /// Erased `initialize` of the held view.
    pub fn initialize(&self, _parent: &mut (), _previous: Option<AnyBox>, cx: &mut WindowContext) -> (r:
        Result<AnyBox, ViewError>)
        requires
            old(cx).wf(),
        ensures
            final(cx).wf(),
            self@.initialize_spec(old(cx)@, final(cx)@, r),
    {
        read_cell(&self.view).initialize_any(cx)
    }

    /// Erased `layout` of the held view.
    pub fn layout(&self, _parent: &mut (), element: &mut AnyBox, cx: &mut WindowContext) -> (r: Result<
        LayoutId,
        ViewError,
    >)
        requires
            old(cx).wf(),
            old(cx)@.next_layout_id < u64::MAX,
        ensures
            final(cx).wf(),
            self@.layout_spec(old(cx)@, final(cx)@, *old(element), *final(element), r),
    {
        read_cell(&self.view).layout_any(element, cx)
    }

    /// Erased `paint` of the held view.
    pub fn paint(&self, bounds: Bounds, _parent: &mut (), element: &mut AnyBox, cx: &mut WindowContext) -> (r:
        Result<(), ViewError>)
        requires
            old(cx).wf(),
        ensures
            final(cx).wf(),
            self@.paint_spec(old(cx)@, final(cx)@, *old(element), *final(element), r),
    {
        read_cell(&self.view).paint_any(bounds, element, cx)
    }
}

/// A shared erased view standing in a tree whose state type is `P`. It holds
/// nothing but the erased view; `P` is a marker only.
pub struct EraseAnyViewState<P> {
    pub view: AnyView,
    pub parent_view_state_type: PhantomData<P>,
}

impl<P> EraseAnyViewState<P> {
    /// The wrapped erased view's element id, unchanged.
    pub fn id(&self) -> (r: Option<ElementId>)
        ensures
            r == Some(view_element_id(self.view@.entity())),
    {
        self.view.id()
    }

    /// Erased `initialize` of the wrapped view; the parent state is not touched.
    pub fn initialize(&self, _parent: &mut P, _previous: Option<AnyBox>, cx: &mut WindowContext) -> (r: Result<
        AnyBox,
        ViewError,
    >)
        requires
            old(cx).wf(),
        ensures
            final(cx).wf(),
            self.view@.initialize_spec(old(cx)@, final(cx)@, r),
    {
        self.view.initialize(&mut (), None, cx)
    }

    /// Erased `layout` of the wrapped view; the parent state is not touched.
    pub fn layout(&self, _parent: &mut P, element: &mut AnyBox, cx: &mut WindowContext) -> (r: Result<
        LayoutId,
        ViewError,
    >)
        requires
            old(cx).wf(),
            old(cx)@.next_layout_id < u64::MAX,
        ensures
            final(cx).wf(),
            self.view@.layout_spec(old(cx)@, final(cx)@, *old(element), *final(element), r),
    {
        self.view.layout(&mut (), element, cx)
    }

    /// Erased `paint` of the wrapped view; the parent state is not touched.
    pub fn paint(&self, bounds: Bounds, _parent: &mut P, element: &mut AnyBox, cx: &mut WindowContext) -> (r:
        Result<(), ViewError>)
        requires
            old(cx).wf(),
        ensures
            final(cx).wf(),
            self.view@.paint_spec(old(cx)@, final(cx)@, *old(element), *final(element), r),
    {
        self.view.paint(bounds, &mut (), element, cx)
    }
}

} // verus!
