//! Preparing and launching a virtual-machine disk image inside a container
//! sandbox: locating the caller's disk image, building a copy-on-write
//! overlay on top of it, unpacking the runner root filesystem, and handing
//! off to the low-level container runtime.
//!
//! External tools (the image tool and the runtime) are never spawned here;
//! this crate decides which command to run and interprets each outcome,
//! while the embedding program performs the actual process execution.

pub mod command;
pub mod errors;
pub mod image;
pub mod rootfs;
pub mod runtime;
pub mod scan;

pub use command::CommandPlan;
pub use command::ToolOutcome;
pub use errors::LaunchError;
pub use image::create_overlay_image;
pub use image::create_overlay_image_command;
pub use image::create_overlay_image_finish;
pub use image::get_image_format;
pub use image::get_image_format_command;
pub use rootfs::extract_runner_root_into;
pub use runtime::crun;
pub use runtime::crun_finish;
pub use scan::ScannedDir;
pub use scan::ScannedEntry;
pub use scan::find_single_file_in_directories;
