//! Window management core of the Catacomb compositor.

pub mod action;
pub mod app_id;
pub mod backend;
pub mod command;
pub mod geometry;
pub mod ipc;
pub mod ipc_laws;
pub mod lists;
pub mod media;
pub mod process;
pub mod startup;
pub mod string_map;
pub mod text;
pub mod text_laws;
pub mod trials;
pub mod windows;
pub mod xwayland;
