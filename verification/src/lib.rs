//! VirtIO drivers and demonstrations.

pub mod bytes;
pub mod device_tests;
pub mod dma;
pub mod error;
pub mod gpu;
pub mod hal;
pub mod pci;
pub mod perf;
pub mod pong;
pub mod pong_frame;
pub mod pong_rules;
pub mod rect_frame;
pub mod rectangles;
pub mod renderer;
pub mod sound;
pub mod vsock;
