//! The core of an interactive installer for a stack of containers.
//!
//! The library decides; its caller acts. It holds the wizard that maps key
//! presses to screens and to requests for outside work, the interpretation of
//! the output of the build and deploy commands, the resolution of updates
//! from what the registry and the local engine answer, and the steps by which
//! the installer replaces itself. It reads no key, opens no file, starts no
//! process and sends no request: the caller hands it what was read and does
//! what it asks for.

pub mod auth;
pub mod env_file;
pub mod form_data;
pub mod interpreter;
pub mod log_buffer;
pub mod menu;
pub mod operations;
pub mod registry;
pub mod registry_form;
pub mod release;
pub mod selfupdate;
pub mod state;
pub mod supervisor;
pub mod templates;
pub mod text;
pub mod updates;
pub mod utils;
pub mod version;
pub mod wizard;
