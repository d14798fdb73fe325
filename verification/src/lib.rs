//! Core logic of a CO2 monitor: a fixed-size history of readings, block
//! averaging of sensor samples, a monochrome frame buffer with rectangle
//! inversion, the bar gauges of the measurement screen, and the screen
//! controller that reacts to button presses, timers and new measurements.

pub mod ring_buffer;
pub mod sample;
pub mod block_average;
pub mod frame_buffer;
pub mod gauges;
pub mod controller;
pub mod screen;
