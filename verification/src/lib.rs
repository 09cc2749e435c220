//! A "now playing" music card for a desktop widget bar.
//!
//! The card has four display modes (minimal, compact, expanded, overlay).
//! This library holds the part of the plugin that can be reasoned about:
//! the widget tree of each mode, with every size computed as an integer
//! fraction of the card's fixed width and height, the mode-transition
//! decision that the background producer makes, and the module
//! configuration. The host ABI, GTK itself and the async plumbing stay
//! outside, in the surrounding application code, which renders the
//! [`layout::WidgetSpec`] trees this library builds.

pub mod config;
pub mod layout;
pub mod mode;

use vstd::prelude::*;

verus! {

/// The name under which the module registers itself with the host.
pub fn module_name() -> (r: &'static str)
    ensures
        r@ == "MusicModule"@,
{
    "MusicModule"
}

} // verus!
