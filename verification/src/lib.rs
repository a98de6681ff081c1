//! Drivers for a wearable pedometer, written without any I/O of their own.
//!
//! An accelerometer and a character display share one I2C bus. Each driver
//! here decides *what* has to go over the bus and in which order; it hands
//! that out as a [`bus::Transaction`] of plain values, and the platform code
//! around the library carries it out. [`arbiter::BusArbiter`] is the
//! mutual-exclusion discipline that keeps two tasks' transactions apart.

pub mod adxl345;
pub mod arbiter;
pub mod bus;
pub mod lcd_lcm1602_i2c;
pub mod steps;
