//! Decision logic of a camera capture station.

pub mod capture;
pub mod cli;
pub mod config;
pub mod connect;
pub mod frame;
pub mod gps;
pub mod grid;
pub mod mock;
pub mod raster;
pub mod run;
pub mod save;
pub mod scaler;
pub mod setup;
pub mod time;
pub mod vpss;
