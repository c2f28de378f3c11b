//! An on-device BLE control layer: it bridges a callback-driven radio stack
//! into sequential asynchronous operations.
//!
//! The radio stack reports results only through out-of-band callbacks carrying
//! a tagged event. This crate holds the verified core of the bridge: the event
//! classification layer ([`event`]), the pending-request correlation state
//! ([`registry`]), the dispatch router ([`router`]) and the per-operation
//! request steps ([`facade`]). Issuing the native commands and awaiting the
//! one-shot completion signals is left to the surrounding (unverified) driver
//! code.

pub mod advertise;
pub mod err;
pub mod event;
pub mod facade;
pub mod notify;
pub mod registry;
pub mod router;
