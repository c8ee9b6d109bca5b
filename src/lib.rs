//! Type erasure and lifecycle dispatch for views in a retained-mode element tree.
//!
//! A [`view::View`] binds a handle on externally owned entity state to a render
//! rule. It can be driven through the initialize / layout / paint lifecycle
//! directly, through an erasure adapter, or after erasure into a shared
//! [`any_view::AnyView`]; identity and retained element state survive each step.
//!
//! Entity state lives in the arena of a [`context::WindowContext`], reached by
//! entity id. Every lifecycle call takes that context by `&mut`, so one render
//! pass at a time is enforced by the borrow checker rather than assumed, and a
//! re-entrant scoped update of one entity is refused at once.

pub mod context;
pub mod element;
pub mod view;
pub mod any_view;
pub mod laws;
