//! Lifecycle and scheduling rules for a simulation of bodies orbiting a
//! central body: when a body deorbits, what each time step does to it, and
//! where its per-step records are kept.

pub mod lifecycle;
pub mod records;
pub mod roster;
