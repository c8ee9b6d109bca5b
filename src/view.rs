use vstd::prelude::*;

use crate::context::{Bounds, ContextModel, ElementId, Handle, LayoutId, ViewError, WindowContext};
use crate::element::{AnyBox, AnyElement, Render};
use std::marker::PhantomData;
use vstd::view::View as _;

verus! {

/// A typed view: a handle on entity state bound to the rule that renders it.
/// Copies share the handle, so they address the same entity state.
#[derive(PartialEq, Eq, Structural, Clone, Copy, Debug)]
pub struct View {
    pub state: Handle,
    pub render: Render,
}

/// Binds `state` to `render`.
pub fn view(state: Handle, render: Render) -> (r: View)
    ensures
        r.state == state,
        r.render == render,
{
    View { state, render }
}

/// The element id of the node that views the entity `entity_id`.
pub open spec fn view_element_id(entity_id: u64) -> ElementId {
    ElementId::View(entity_id)
}

impl View {
    /// The entity that this view renders.
    pub open spec fn entity(self) -> u64 {
        self.state.entity_id
    }

    /// Whether `b` may be handed to this view's `layout` / `paint`.
    pub open spec fn accepts(self, b: AnyBox) -> bool {
        b.tag == self.entity()
    }

    /// The element state that `initialize` produces on a context modelled by `cx`.
    pub open spec fn initialized(self, cx: ContextModel) -> AnyBox {
        AnyBox { tag: self.entity(), element: self.render.rendered(cx.states[self.entity() as int]) }
    }

    /// Element state `b` after a layout pass on a context modelled by `cx`.
    pub open spec fn laid_out(b: AnyBox, cx: ContextModel) -> AnyBox {
        AnyBox {
            tag: b.tag,
            element: AnyElement { value: b.element.value, layout_id: Some(LayoutId(cx.next_layout_id)) },
        }
    }

    /// Wraps this view so that it stands in a tree whose state type is `P`.
    pub fn into_element<P>(self) -> (r: EraseViewState<P>)
        ensures
            r.view == self,
    {
        EraseViewState { view: self, parent_view_state_type: PhantomData }
    }

    /// The element id of this view, derived from its entity id.
    pub fn id(&self) -> (r: Option<ElementId>)
        ensures
            r == Some(view_element_id(self.entity())),
    {
        Some(ElementId::View(self.state.entity_id))
    }

    /// The identity-only handle of this view's entity.
    pub fn entity_handle(&self) -> (r: Handle)
        ensures
            r == self.state,
    {
        self.state
    }

    /// Renders the child element tree under a scoped update of the entity and
    /// initializes it. The render rule runs exactly once.
    pub fn initialize(&self, _parent: &mut (), _previous: Option<AnyElement>, cx: &mut WindowContext) -> (r:
        Result<AnyElement, ViewError>)
        requires
            old(cx).wf(),
        ensures
            final(cx).wf(),
            final(cx)@ == old(cx)@,
            match old(cx)@.update_error(self.state) {
                Some(e) => r == Err::<AnyElement, ViewError>(e),
                None => r == Ok::<AnyElement, ViewError>(self.initialized(old(cx)@).element),
            },
    {
        let ghost c0 = cx@;
        let state = match cx.begin_update(self.state) {
            Err(e) => return Err(e),
            Ok(s) => s,
        };
        let mut element = self.render.render(state);
        element.initialize();
        cx.end_update(self.state, state);
        proof {
            assert(cx@.states =~= c0.states);
            assert(cx@.borrowed =~= c0.borrowed);
        }
        Ok(element)
    }

    /// Lays out the child tree captured by the last `initialize`, under a
    /// scoped update of the entity. The tree is not rendered again.
    pub fn layout(&self, _parent: &mut (), element: &mut AnyElement, cx: &mut WindowContext) -> (r: Result<
        LayoutId,
        ViewError,
    >)
        requires
            old(cx).wf(),
            old(cx)@.next_layout_id < u64::MAX,
        ensures
            final(cx).wf(),
            match old(cx)@.update_error(self.state) {
                Some(e) => r == Err::<LayoutId, ViewError>(e) && final(cx)@ == old(cx)@ && *final(element)
                    == *old(element),
                None => {
                    &&& r == Ok::<LayoutId, ViewError>(LayoutId(old(cx)@.next_layout_id))
                    &&& final(cx)@ == old(cx)@.after_layout()
                    &&& *final(element) == (AnyElement {
                        value: old(element).value,
                        layout_id: Some(LayoutId(old(cx)@.next_layout_id)),
                    })
                },
            },
    {
        let ghost c0 = cx@;
        let state = match cx.begin_update(self.state) {
            Err(e) => return Err(e),
            Ok(s) => s,
        };
        let id = element.layout(cx);
        cx.end_update(self.state, state);
        proof {
            assert(cx@.states =~= c0.states);
            assert(cx@.borrowed =~= c0.borrowed);
        }
        Ok(id)
    }

    /// Paints the child tree captured by the last `initialize`, under a scoped
    /// update of the entity.
    pub fn paint(&self, _bounds: Bounds, _parent: &mut (), element: &mut AnyElement, cx: &mut WindowContext) -> (r:
        Result<(), ViewError>)
        requires
            old(cx).wf(),
        ensures
            final(cx).wf(),
            *final(element) == *old(element),
            match old(cx)@.update_error(self.state) {
                Some(e) => r == Err::<(), ViewError>(e) && final(cx)@ == old(cx)@,
                None => {
                    &&& r == Ok::<(), ViewError>(())
                    &&& final(cx)@ == old(cx)@.after_paint(old(cx)@.current_scope(), old(element).value)
                },
            },
    {
        let ghost c0 = cx@;
        let state = match cx.begin_update(self.state) {
            Err(e) => return Err(e),
            Ok(s) => s,
        };
        element.paint(cx);
        cx.end_update(self.state, state);
        proof {
            assert(cx@.states =~= c0.states);
            assert(cx@.borrowed =~= c0.borrowed);
        }
        Ok(())
    }

    /// What erased `initialize` does, from context `c0` to `c1`, returning `r`:
    /// the context is left as it was, and the result is the rendered tree
    /// tagged with the entity, or the scoped update's error.
    pub open spec fn initialize_spec(self, c0: ContextModel, c1: ContextModel, r: Result<AnyBox, ViewError>) -> bool {
        &&& c1 == c0
        &&& match c0.update_error(self.state) {
            Some(e) => r == Err::<AnyBox, ViewError>(e),
            None => r == Ok::<AnyBox, ViewError>(self.initialized(c0)),
        }
    }

    /// What erased `layout` does, from context `c0` and element state `b0` to
    /// `c1` and `b1`, returning `r`: state of another node is refused with
    /// `StateTypeMismatch`, a failed scoped update passes its error on, and
    /// either way nothing changes; otherwise the captured tree gets the next
    /// layout token.
    pub open spec fn layout_spec(
        self,
        c0: ContextModel,
        c1: ContextModel,
        b0: AnyBox,
        b1: AnyBox,
        r: Result<LayoutId, ViewError>,
    ) -> bool {
        if !self.accepts(b0) {
            r == Err::<LayoutId, ViewError>(ViewError::StateTypeMismatch) && c1 == c0 && b1 == b0
        } else {
            match c0.update_error(self.state) {
                Some(e) => r == Err::<LayoutId, ViewError>(e) && c1 == c0 && b1 == b0,
                None => {
                    &&& r == Ok::<LayoutId, ViewError>(LayoutId(c0.next_layout_id))
                    &&& c1 == c0.after_layout()
                    &&& b1 == View::laid_out(b0, c0)
                },
            }
        }
    }

    /// What erased `paint` does, from context `c0` and element state `b0` to
    /// `c1` and `b1`, returning `r`: the element state is kept; state of
    /// another node is refused with `StateTypeMismatch`, a failed scoped
    /// update passes its error on; otherwise the captured tree's leaf is
    /// painted under this view's element id.
    pub open spec fn paint_spec(
        self,
        c0: ContextModel,
        c1: ContextModel,
        b0: AnyBox,
        b1: AnyBox,
        r: Result<(), ViewError>,
    ) -> bool {
        &&& b1 == b0
        &&& if !self.accepts(b0) {
            r == Err::<(), ViewError>(ViewError::StateTypeMismatch) && c1 == c0
        } else {
            match c0.update_error(self.state) {
                Some(e) => r == Err::<(), ViewError>(e) && c1 == c0,
                None => {
                    &&& r == Ok::<(), ViewError>(())
                    &&& c1 == c0.after_paint(Some(view_element_id(self.entity())), b0.element.value)
                },
            }
        }
    }

    /// `initialize` with this view's element id bound as the current one,
    /// returning the child tree as opaque element state tagged with the entity.
    pub fn initialize_any(&self, cx: &mut WindowContext) -> (r: Result<AnyBox, ViewError>)
        requires
            old(cx).wf(),
        ensures
            final(cx).wf(),
            self.initialize_spec(old(cx)@, final(cx)@, r),
    {
        let ghost c0 = cx@;
        cx.push_element_id(ElementId::View(self.state.entity_id));
        let r = self.initialize(&mut (), None, cx);
        cx.pop_element_id();
        proof {
            assert(cx@.scopes =~= c0.scopes);
        }
        match r {
            Err(e) => Err(e),
            Ok(element) => Ok(AnyBox { tag: self.state.entity_id, element }),
        }
    }

    /// `layout` with this view's element id bound as the current one. The
    /// element state's tag is checked first: state made by another node is
    /// refused with `StateTypeMismatch` and left untouched.
    pub fn layout_any(&self, element: &mut AnyBox, cx: &mut WindowContext) -> (r: Result<LayoutId, ViewError>)
        requires
            old(cx).wf(),
            old(cx)@.next_layout_id < u64::MAX,
        ensures
            final(cx).wf(),
            self.layout_spec(old(cx)@, final(cx)@, *old(element), *final(element), r),
    {
        if element.tag != self.state.entity_id {
            return Err(ViewError::StateTypeMismatch);
        }
        let ghost c0 = cx@;
        cx.push_element_id(ElementId::View(self.state.entity_id));
        let r = self.layout(&mut (), &mut element.element, cx);
        cx.pop_element_id();
        proof {
            assert(cx@.scopes =~= c0.scopes);
        }
        r
    }

    /// `paint` with this view's element id bound as the current one, after the
    /// same tag check as `layout_any`.
    pub fn paint_any(&self, bounds: Bounds, element: &mut AnyBox, cx: &mut WindowContext) -> (r: Result<(), ViewError>)
        requires
            old(cx).wf(),
        ensures
            final(cx).wf(),
            self.paint_spec(old(cx)@, final(cx)@, *old(element), *final(element), r),
    {
        if element.tag != self.state.entity_id {
            return Err(ViewError::StateTypeMismatch);
        }
        let ghost c0 = cx@;
        cx.push_element_id(ElementId::View(self.state.entity_id));
        let r = self.paint(bounds, &mut (), &mut element.element, cx);
        cx.pop_element_id();
        proof {
            assert(cx@.scopes =~= c0.scopes);
        }
        r
    }
}

/// A typed view standing in a tree whose state type is `P`. It holds nothing
/// but the view; `P` is a marker only.
pub struct EraseViewState<P> {
    pub view: View,
    pub parent_view_state_type: PhantomData<P>,
}

} // verus!

verus! {

impl<P> EraseViewState<P> {
    /// The wrapped view's element id, unchanged.
    pub fn id(&self) -> (r: Option<ElementId>)
        ensures
            r == Some(view_element_id(self.view.entity())),
    {
        self.view.id()
    }

    /// Erased `initialize` of the wrapped view; the parent state is not touched.
    pub fn initialize(&self, _parent: &mut P, _previous: Option<AnyBox>, cx: &mut WindowContext) -> (r: Result<
        AnyBox,
        ViewError,
    >)
        requires
            old(cx).wf(),
        ensures
            final(cx).wf(),
            self.view.initialize_spec(old(cx)@, final(cx)@, r),
    {
        self.view.initialize_any(cx)
    }

    /// Erased `layout` of the wrapped view; the parent state is not touched.
    pub fn layout(&self, _parent: &mut P, element: &mut AnyBox, cx: &mut WindowContext) -> (r: Result<
        LayoutId,
        ViewError,
    >)
        requires
            old(cx).wf(),
            old(cx)@.next_layout_id < u64::MAX,
        ensures
            final(cx).wf(),
            self.view.layout_spec(old(cx)@, final(cx)@, *old(element), *final(element), r),
    {
        self.view.layout_any(element, cx)
    }

    /// Erased `paint` of the wrapped view; the parent state is not touched.
    pub fn paint(&self, bounds: Bounds, _parent: &mut P, element: &mut AnyBox, cx: &mut WindowContext) -> (r:
        Result<(), ViewError>)
        requires
            old(cx).wf(),
        ensures
            final(cx).wf(),
            self.view.paint_spec(old(cx)@, final(cx)@, *old(element), *final(element), r),
    {
        self.view.paint_any(bounds, element, cx)
    }
}

} // verus!
