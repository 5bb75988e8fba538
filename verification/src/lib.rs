//! Golden-spiral tiling decisions for a tiling window manager.
//!
//! When a new window appears, its parent container is looked up in a snapshot
//! of the window tree, judged for eligibility, and, if eligible, an ordered
//! list of layout commands is planned and handed out one at a time.

pub mod command;
pub mod dispatch;
pub mod layout;
pub mod settings;
pub mod tree;
