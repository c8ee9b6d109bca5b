use vstd::prelude::*;

verus! {

/// Tree-lookup identity of a node; for views it is derived from the entity id.
#[derive(PartialEq, Eq, Structural, Clone, Copy, Debug)]
pub enum ElementId {
    View(u64),
}

/// Token handed out by the layout solver when a node registers with it.
#[derive(PartialEq, Eq, Structural, Clone, Copy, Debug)]
pub struct LayoutId(pub u64);

/// Rectangle handed to `paint`, in whole pixels.
#[derive(PartialEq, Eq, Structural, Clone, Copy, Debug)]
pub struct Bounds {
    pub x: i64,
    pub y: i64,
    pub width: u64,
    pub height: u64,
}

/// The two contract breaches of this layer, plus a handle that names no entity.
#[derive(PartialEq, Eq, Structural, Clone, Copy, Debug)]
pub enum ViewError {
    /// The handle names no entity of this context.
    UnknownEntity,
    /// A scoped update was attempted while the same entity was already borrowed.
    ReentrantUpdate,
    /// Element state handed to `layout` / `paint` was produced by another node.
    StateTypeMismatch,
}

/// Identity-bearing reference to entity state owned by a [`WindowContext`].
#[derive(PartialEq, Eq, Structural, Clone, Copy, Debug)]
pub struct Handle {
    pub entity_id: u64,
}

/// One leaf painted, with the element id that was in scope while it was painted.
#[derive(PartialEq, Eq, Structural, Clone, Copy, Debug)]
pub struct PaintRecord {
    pub scope: Option<ElementId>,
    pub value: u64,
}

/// Mathematical model of a [`WindowContext`].
pub struct ContextModel {
    /// Last committed state of each entity, indexed by entity id.
    pub states: Seq<u64>,
    /// Which entities are under a scoped update right now.
    pub borrowed: Seq<bool>,
    /// Stack of element ids bound by `with_element_id`, innermost last.
    pub scopes: Seq<ElementId>,
    /// The layout id that the next registration receives.
    pub next_layout_id: u64,
    /// Everything painted so far, in order.
    pub painted: Seq<PaintRecord>,
}

/// The frame driver's context: an arena of entity states with checked,
/// scoped exclusive access, the current-element-id scope, the layout
/// solver's id counter, and the paint output.
pub struct WindowContext {
    states: Vec<u64>,
    borrowed: Vec<bool>,
    scopes: Vec<ElementId>,
    next_layout_id: u64,
    painted: Vec<PaintRecord>,
}

impl View for WindowContext {
    type V = ContextModel;

    closed spec fn view(&self) -> ContextModel {
        ContextModel {
            states: self.states@,
            borrowed: self.borrowed@,
            scopes: self.scopes@,
            next_layout_id: self.next_layout_id,
            painted: self.painted@,
        }
    }
}

impl ContextModel {
    /// The entity named by `h` exists.
    pub open spec fn holds(self, h: Handle) -> bool {
        h.entity_id < self.states.len()
    }

    /// The innermost element id in scope, if any.
    pub open spec fn current_scope(self) -> Option<ElementId> {
        if self.scopes.len() == 0 {
            None
        } else {
            Some(self.scopes.last())
        }
    }

    /// The model after one more layout registration.
    pub open spec fn after_layout(self) -> ContextModel {
        ContextModel { next_layout_id: (self.next_layout_id + 1) as u64, ..self }
    }

    /// The model after painting a leaf holding `value` under `scope`.
    pub open spec fn after_paint(self, scope: Option<ElementId>, value: u64) -> ContextModel {
        ContextModel { painted: self.painted.push(PaintRecord { scope, value }), ..self }
    }

    /// What a scoped update of `h` fails with, if it fails.
    pub open spec fn update_error(self, h: Handle) -> Option<ViewError> {
        if !self.holds(h) {
            Some(ViewError::UnknownEntity)
        } else if self.borrowed[h.entity_id as int] {
            Some(ViewError::ReentrantUpdate)
        } else {
            None
        }
    }
}

impl WindowContext {
    /// Every entity has both a state and a borrow flag.
    pub open spec fn wf(&self) -> bool {
        self@.states.len() == self@.borrowed.len()
    }

    /// An empty context: no entities, nothing in scope, nothing painted.
    pub fn new() -> (r: WindowContext)
        ensures
            r.wf(),
            r@.states.len() == 0,
            r@.scopes.len() == 0,
            r@.next_layout_id == 0,
            r@.painted.len() == 0,
    {
        WindowContext {
            states: Vec::new(),
            borrowed: Vec::new(),
            scopes: Vec::new(),
            next_layout_id: 0,
            painted: Vec::new(),
        }
    }

    /// Creates an entity holding `value` and returns its handle.
    pub fn new_entity(&mut self, value: u64) -> (h: Handle)
        requires
            old(self).wf(),
            old(self)@.states.len() < u64::MAX,
        ensures
            final(self).wf(),
            h.entity_id == old(self)@.states.len(),
            final(self)@.states == old(self)@.states.push(value),
            final(self)@.borrowed == old(self)@.borrowed.push(false),
            final(self)@.scopes == old(self)@.scopes,
            final(self)@.next_layout_id == old(self)@.next_layout_id,
            final(self)@.painted == old(self)@.painted,
    {
        let id = self.states.len() as u64;
        self.states.push(value);
        self.borrowed.push(false);
        Handle { entity_id: id }
    }

    /// The last committed state of the entity named by `h`.
    pub fn read(&self, h: Handle) -> (r: Result<u64, ViewError>)
        requires
            self.wf(),
        ensures
            self@.holds(h) ==> r == Ok::<u64, ViewError>(self@.states[h.entity_id as int]),
            !self@.holds(h) ==> r == Err::<u64, ViewError>(ViewError::UnknownEntity),
    {
        if h.entity_id < self.states.len() as u64 {
            Ok(self.states[h.entity_id as usize])
        } else {
            Err(ViewError::UnknownEntity)
        }
    }

    /// Opens a scoped update of `h`: marks the entity borrowed and hands out
    /// its state. Fails at once, changing nothing, if the entity is unknown or
    /// already borrowed higher in the call chain.
    pub fn begin_update(&mut self, h: Handle) -> (r: Result<u64, ViewError>)
        requires
            old(self).wf(),
        ensures
            final(self).wf(),
            match old(self)@.update_error(h) {
                Some(e) => r == Err::<u64, ViewError>(e) && final(self)@ == old(self)@,
                None => {
                    &&& r == Ok::<u64, ViewError>(old(self)@.states[h.entity_id as int])
                    &&& final(self)@.states == old(self)@.states
                    &&& final(self)@.borrowed == old(self)@.borrowed.update(h.entity_id as int, true)
                    &&& final(self)@.scopes == old(self)@.scopes
                    &&& final(self)@.next_layout_id == old(self)@.next_layout_id
                    &&& final(self)@.painted == old(self)@.painted
                },
            },
    {
        if h.entity_id >= self.states.len() as u64 {
            return Err(ViewError::UnknownEntity);
        }
        let i = h.entity_id as usize;
        if self.borrowed[i] {
            return Err(ViewError::ReentrantUpdate);
        }
        self.borrowed.set(i, true);
        Ok(self.states[i])
    }

    /// Closes the scoped update of `h`, committing `value` as its state.
    pub fn end_update(&mut self, h: Handle, value: u64)
        requires
            old(self).wf(),
            old(self)@.holds(h),
            old(self)@.borrowed[h.entity_id as int],
        ensures
            final(self).wf(),
            final(self)@.states == old(self)@.states.update(h.entity_id as int, value),
            final(self)@.borrowed == old(self)@.borrowed.update(h.entity_id as int, false),
            final(self)@.scopes == old(self)@.scopes,
            final(self)@.next_layout_id == old(self)@.next_layout_id,
            final(self)@.painted == old(self)@.painted,
    {
        let i = h.entity_id as usize;
        self.states.set(i, value);
        self.borrowed.set(i, false);
    }

    /// Replaces the state of `h` with `value` under a scoped update.
    pub fn update(&mut self, h: Handle, value: u64) -> (r: Result<(), ViewError>)
        requires
            old(self).wf(),
        ensures
            final(self).wf(),
            match old(self)@.update_error(h) {
                Some(e) => r == Err::<(), ViewError>(e) && final(self)@ == old(self)@,
                None => {
                    &&& r == Ok::<(), ViewError>(())
                    &&& final(self)@.states == old(self)@.states.update(h.entity_id as int, value)
                    &&& final(self)@.borrowed == old(self)@.borrowed
                    &&& final(self)@.scopes == old(self)@.scopes
                    &&& final(self)@.next_layout_id == old(self)@.next_layout_id
                    &&& final(self)@.painted == old(self)@.painted
                },
            },
    {
        match self.begin_update(h) {
            Err(e) => Err(e),
            Ok(_) => {
                self.end_update(h, value);
                proof {
                    assert(self@.borrowed =~= old(self)@.borrowed);
                }
                Ok(())
            },
        }
    }

    /// Binds `id` as the current element id, innermost.
    pub fn push_element_id(&mut self, id: ElementId)
        requires
            old(self).wf(),
        ensures
            final(self).wf(),
            final(self)@.scopes == old(self)@.scopes.push(id),
            final(self)@.states == old(self)@.states,
            final(self)@.borrowed == old(self)@.borrowed,
            final(self)@.next_layout_id == old(self)@.next_layout_id,
            final(self)@.painted == old(self)@.painted,
    {
        self.scopes.push(id);
    }

    /// Unbinds the innermost element id.
    pub fn pop_element_id(&mut self) -> (r: Option<ElementId>)
        requires
            old(self).wf(),
        ensures
            final(self).wf(),
            r == old(self)@.current_scope(),
            final(self)@.scopes == (if old(self)@.scopes.len() == 0 {
                old(self)@.scopes
            } else {
                old(self)@.scopes.drop_last()
            }),
            final(self)@.states == old(self)@.states,
            final(self)@.borrowed == old(self)@.borrowed,
            final(self)@.next_layout_id == old(self)@.next_layout_id,
            final(self)@.painted == old(self)@.painted,
    {
        self.scopes.pop()
    }

    /// The innermost element id in scope, if any.
    pub fn current_element_id(&self) -> (r: Option<ElementId>)
        ensures
            r == self@.current_scope(),
    {
        let n = self.scopes.len();
        if n == 0 {
            None
        } else {
            Some(self.scopes[n - 1])
        }
    }

    /// Registers a node with the layout solver and returns its fresh token.
    pub fn request_layout(&mut self) -> (r: LayoutId)
        requires
            old(self).wf(),
            old(self)@.next_layout_id < u64::MAX,
        ensures
            final(self).wf(),
            r == LayoutId(old(self)@.next_layout_id),
            final(self)@.next_layout_id == old(self)@.next_layout_id + 1,
            final(self)@.states == old(self)@.states,
            final(self)@.borrowed == old(self)@.borrowed,
            final(self)@.scopes == old(self)@.scopes,
            final(self)@.painted == old(self)@.painted,
    {
        let id = self.next_layout_id;
        self.next_layout_id = id + 1;
        LayoutId(id)
    }

    /// Paints a leaf holding `value`, under the current element id.
    pub fn paint_leaf(&mut self, value: u64)
        requires
            old(self).wf(),
        ensures
            final(self).wf(),
            final(self)@.painted == old(self)@.painted.push(
                PaintRecord { scope: old(self)@.current_scope(), value },
            ),
            final(self)@.states == old(self)@.states,
            final(self)@.borrowed == old(self)@.borrowed,
            final(self)@.scopes == old(self)@.scopes,
            final(self)@.next_layout_id == old(self)@.next_layout_id,
    {
        let scope = self.current_element_id();
        self.painted.push(PaintRecord { scope, value });
    }

    /// Everything painted so far, in order.
    pub fn painted(&self) -> (r: &Vec<PaintRecord>)
        ensures
            r@ == self@.painted,
    {
        &self.painted
    }
}

} // verus!
