//! A cross-platform application menu core for a desktop document viewer.
//!
//! The crate has two components, composed linearly:
//!
//! * a menu tree **builder** ([`builder::build`]) that turns a
//!   [`menu::PlatformProfile`] into the complete, platform-conditioned tree of
//!   submenus, actions, separators and OS-supplied predefined actions, and
//! * an event **router** ([`router::Router`]) that forwards the stable string
//!   id of every activated action, verbatim, to a registered receiving
//!   surface, and silently drops the notification when no surface is
//!   registered.
//!
//! The topology itself is a fixed specification: [`topology::topology`] states
//! the exact tree for each platform, and the builder is proved to return
//! precisely that tree, with pairwise-distinct action ids and
//! pairwise-distinct shortcut chords.

pub mod builder;
pub mod menu;
pub mod router;
pub mod topology;
