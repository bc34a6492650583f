//! What it takes to drive the mpv player through libmpv's client API.
//!
//! The library decides, and libmpv acts. Each operation comes out as a [`call::Call`] that has to
//! be made, and the number with which libmpv answers goes back in. Operations of more than one call
//! go on step by step ([`setup::Progress`], [`observe::Observation`], [`iter::Step`]), with the
//! answers so far as their input.

#![allow(unused_imports)]

pub mod call;
pub mod command;
pub mod command_laws;
pub mod data;
pub mod event;
pub mod incoming;
pub mod instance;
pub mod instance_laws;
pub mod iter;
pub mod iter_laws;
pub mod iterating_laws;
pub mod observe;
pub mod observe_laws;
pub mod observing_laws;
pub mod parent;
pub mod raw;
pub mod reading_laws;
pub mod setup;
pub mod text;
pub mod value_laws;

use vstd::prelude::*;
