//! Host statistics report: unit conversion, text formatting, and a
//! colored usage bar, with the host queries left to the caller.
pub mod bar;
pub mod paint;
pub mod report;
pub mod text;
