//! Coordination of short-lived overlay surfaces that are anchored to a
//! rectangle on screen: where they go, when they open and when they close.
//!
//! The first modules hold the coordinator itself: placement, the registry
//! of overlays and its lifecycle, hover tracking, and the registry of hover
//! triggers. The modules after them hold the smaller decisions of the
//! desktop shell that hosts the overlays. Nothing here touches a window, a
//! file or a clock: every function takes what was sampled and answers what
//! is to be done.

pub mod geometry;
pub mod keys;
pub mod text;
pub mod overlay;
pub mod controller;
pub mod hover;
pub mod content;
pub mod trigger;
pub mod layout;
pub mod config;
pub mod windows;
pub mod cli;
pub mod watch;
pub mod network;
pub mod icons;
pub mod autoraise;
pub mod workspace;
pub mod ipc;
pub mod protocol;
