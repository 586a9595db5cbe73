//! The terminal market viewer: its state and how keys, ticks and fetched
//! data change it, and what its screens show.
pub mod app;
pub mod ui;
pub mod view;
