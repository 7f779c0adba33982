//! Synchronization core for mirroring a DAW host's track-selection and
//! mixing state onto an auxiliary control strip.
//!
//! The host pushes selection-change, volume-change and command notifications;
//! the control strip owns a fixed set of widget handles that are mutated in
//! place. This crate holds the part with real invariants: the two-state mode
//! machine that decides which widget set is visible, the stable-identity
//! tracking of selected tracks, and the mapping from host events to widget
//! updates and from widget activations to engine mutations. Every decision is
//! a function from plain values (the event, plus the host-query results it
//! needs) to action values; the thin shell that talks to the real host and
//! the real widget surface performs those actions.

pub mod dispatch;
pub mod engine;
pub mod ids;
pub mod selection;
pub mod label;
pub mod mode;
pub mod volume;
