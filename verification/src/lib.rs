//! Settings logic of the Alfred Pinboard workflow: parsing of Alfred's
//! workflow-configuration values, the stored configuration and its
//! overrides, the one-time migration of stored preferences, Keychain token
//! handling and Alfred version checks.

pub mod command;
pub mod error;
pub mod keychain;
pub mod text;
pub mod version;
pub mod workflow_config;
