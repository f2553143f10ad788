pub mod application;
pub mod backend;
pub mod mode;
pub mod platform;
pub mod promise;
pub mod ui;
pub mod version_control;
