pub mod components;
pub mod services;
pub mod ui;
