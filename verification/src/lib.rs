//! The decisions of a rootless Xwayland bridge: what a Wayland compositor and an X server are
//! told about each other's windows, outputs, pointers and selections.
//!
//! Everything here works on plain values. The program around it performs the requests.

use vstd::prelude::*;

pub mod geometry;
pub mod resize;
pub mod role;
pub mod window;
pub mod world;
pub mod decoration;
pub mod xstate;
pub mod xevents;
pub mod output;
pub mod scale;
pub mod pointer;
pub mod state;
pub mod globals;
pub mod events;
pub mod shunt;
pub mod selection;
pub mod focus;
pub mod tablet;
pub mod frame;
pub mod text;
pub mod activation;
pub mod args;
pub mod launch;
pub mod color_scheme;
pub mod decorated;
pub mod viewport;
pub mod titlebar;
pub mod shadow;
pub mod surface;
pub mod surface_events;
pub mod configure;
pub mod roles;
pub mod windows;
pub mod batch;

verus! {

} // verus!
