//! Shared logic of the WeAct MiniSTM32H7xx firmwares.

pub mod bare_metal;
pub mod board;
pub mod camera;
pub mod clock;
pub mod datetime;
pub mod display;
pub mod face;
pub mod format;
pub mod mode;
pub mod ov2640;
pub mod pipeline;
pub mod registers;
pub mod sensor;
pub mod session;
pub mod window;
