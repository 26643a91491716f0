//! Utilities for working with GDNative projects.
//!
//! The crate finds the types of a project that derive `NativeClass` and plans
//! the `.gdnlib` and `.gdns` resource files that describe them to Godot: one
//! `.gdnlib` file for the library and one `.gdns` file for each type.

pub mod classes;
pub mod generate;
pub mod layout;
pub mod scan;
pub mod syntax;
pub mod templates;

pub use classes::Classes;
pub use generate::Builder;
pub use generate::Builder as Generator;
pub use generate::{BuildError, Environment, OutputFile, Plan, ProjectLayout};
pub use layout::BuildMode;
pub use scan::{scan_crate, scan_files, ScanError, SourceFile};
