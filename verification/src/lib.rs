//! Frame pacing, event handling and GPU bookkeeping for a small SDL/Vulkan
//! media engine. The windowing and graphics calls themselves live in the
//! application; this crate holds the decisions they drive.

pub mod duration;
pub mod errors;
pub mod event;
pub mod pacing;
pub mod input;
pub mod interfaces;
pub mod vulkan;
pub mod log_line;
pub mod logger;
pub mod drawing;
