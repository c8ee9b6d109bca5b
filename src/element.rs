use vstd::prelude::*;

use crate::context::{LayoutId, WindowContext};

verus! {

/// How a view turns its entity's state into its child element tree.
#[derive(PartialEq, Eq, Structural, Clone, Copy, Debug)]
pub enum Render {
    /// Renders `leaf(state)`.
    StateLeaf,
    /// Renders `leaf(c)` whatever the state.
    FixedLeaf(u64),
}

/// A child element tree: a leaf holding a value, with the layout token it
/// received in its last layout pass.
#[derive(PartialEq, Eq, Structural, Clone, Copy, Debug)]
pub struct AnyElement {
    pub value: u64,
    pub layout_id: Option<LayoutId>,
}

/// Opaque element state: the child element tree that a view's `initialize`
/// produced, tagged with the entity of that view. `layout` and `paint` check
/// the tag before they touch the tree.
#[derive(PartialEq, Eq, Structural, Clone, Copy, Debug)]
pub struct AnyBox {
    pub tag: u64,
    pub element: AnyElement,
}

/// A fresh leaf holding `value`, not yet laid out.
pub fn leaf(value: u64) -> (r: AnyElement)
    ensures
        r == (AnyElement { value, layout_id: None }),
{
    AnyElement { value, layout_id: None }
}

impl Render {
    /// The child element tree rendered from `state`.
    pub open spec fn rendered(self, state: u64) -> AnyElement {
        match self {
            Render::StateLeaf => AnyElement { value: state, layout_id: None },
            Render::FixedLeaf(c) => AnyElement { value: c, layout_id: None },
        }
    }

    /// Renders the child element tree from `state`.
    pub fn render(&self, state: u64) -> (r: AnyElement)
        ensures
            r == self.rendered(state),
    {
        match self {
            Render::StateLeaf => leaf(state),
            Render::FixedLeaf(c) => leaf(*c),
        }
    }
}

impl AnyElement {
    /// Prepares the tree for a new frame: its value stays, its layout token is
    /// cleared.
    pub fn initialize(&mut self)
        ensures
            final(self).value == old(self).value,
            final(self).layout_id.is_none(),
    {
        self.layout_id = None;
    }

    /// Registers the tree with the layout solver and keeps the token.
    pub fn layout(&mut self, cx: &mut WindowContext) -> (r: LayoutId)
        requires
            old(cx).wf(),
            old(cx)@.next_layout_id < u64::MAX,
        ensures
            final(cx).wf(),
            r == LayoutId(old(cx)@.next_layout_id),
            final(self).value == old(self).value,
            final(self).layout_id == Some(r),
            final(cx)@.next_layout_id == old(cx)@.next_layout_id + 1,
            final(cx)@.states == old(cx)@.states,
            final(cx)@.borrowed == old(cx)@.borrowed,
            final(cx)@.scopes == old(cx)@.scopes,
            final(cx)@.painted == old(cx)@.painted,
    {
        let id = cx.request_layout();
        self.layout_id = Some(id);
        id
    }

    /// Paints the tree's leaf under the current element id.
    pub fn paint(&self, cx: &mut WindowContext)
        requires
            old(cx).wf(),
        ensures
            final(cx).wf(),
            final(cx)@.painted == old(cx)@.painted.push(
                crate::context::PaintRecord { scope: old(cx)@.current_scope(), value: self.value },
            ),
            final(cx)@.states == old(cx)@.states,
            final(cx)@.borrowed == old(cx)@.borrowed,
            final(cx)@.scopes == old(cx)@.scopes,
            final(cx)@.next_layout_id == old(cx)@.next_layout_id,
    {
        cx.paint_leaf(self.value);
    }
}

} // verus!
