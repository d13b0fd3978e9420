pub mod app;
pub mod components;
pub mod painter;
pub mod state;
pub mod view;
