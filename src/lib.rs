//! Image preparation and a bit-banged driver for a dual-controller,
//! six-colour 1200×1600 e-paper panel.
pub mod color;
pub mod command_code;
pub mod driver;
pub mod frame;
pub mod geometry;
pub mod pipeline;
pub mod gpio_pin;
