pub mod text;
pub mod backend;
pub mod action;
pub mod async_process;
pub mod custom_actions;
pub mod custom_commands;
pub mod tui;
pub mod tui_util;
pub mod input;
pub mod scroll_view;
pub mod select;
pub mod platform;
pub mod mode;
pub mod ui;
pub mod next;
pub mod ctrlc_handler;
pub mod revision_shortcut;
pub mod actions;
pub mod version_control;
pub mod gui;
pub mod worker;
pub mod version_control_actions;
pub mod git_actions;
pub mod hg_actions;
pub mod add_remove;
pub mod settings;
pub mod application;
pub mod action_cache;
