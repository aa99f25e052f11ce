//! Development-time tooling for a web project.
//!
//! The core is a file-change driven process supervisor: [`classify`] decides
//! which changed paths matter, [`cooldown`] keeps restarts apart, [`rebuild`]
//! lists the commands of a rebuild, and [`supervisor`] is the control loop
//! that ties them together around one child process. Around it stand the pure
//! parts of the project console ([`console`], [`views`], [`licenses`],
//! [`input`], [`db`]), page metadata ([`seo`]) and template helpers
//! ([`render`]).

pub mod classify;
pub mod console;
pub mod cooldown;
pub mod db;
pub mod input;
pub mod licenses;
pub mod rebuild;
pub mod render;
pub mod seo;
pub mod supervisor;
pub mod text;
pub mod views;

pub use seo::Seo;
