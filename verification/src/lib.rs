use vstd::prelude::*;

pub mod action;
pub mod actions;
pub mod app;
pub mod calendar_laws;
pub mod clock;
pub mod date_order;
pub mod drops;
pub mod host;
pub mod invariants;
pub mod color;
pub mod dispatch;
pub mod laws;
pub mod stage_laws;
pub mod model;
pub mod runtime;
pub mod text;
pub mod widget;
pub mod wide;

verus! {

} // verus!
