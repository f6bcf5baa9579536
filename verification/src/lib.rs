//! Sans-IO core of a camera built around the MT9M001 image sensor.
//!
//! Nothing here touches hardware. Each part decides what the hardware must be
//! asked next and what its answers mean; the program around the library
//! carries the requests out and hands the answers back.

pub mod counter;
pub mod dma;
pub mod exposure;
pub mod fields;
pub mod filesystem;
pub mod fram;
pub mod mt9m001;
pub mod program;
pub mod psram;
pub mod psram_model;
pub mod registers;
pub mod sdmmc;
pub mod sensor;
pub mod session;
