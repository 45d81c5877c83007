//! Building blocks for desktop shell applications: commands for the runtime,
//! the header bar of a window, panel applets and layered containers.
pub mod alignment;
pub mod applet;
pub mod command;
pub mod header_bar;
pub mod layer_container;
