//! Core of an interactive terminal dashboard that watches sessions on a
//! remote server: the navigation, selection and modal state machine, the
//! request building and reply interpretation of the remote client, and the
//! input-buffer editing used by the configuration prompts.

pub mod api_service;
pub mod cli_monitor;
pub mod config;
pub mod errors;
pub mod modal;
pub mod strutil;
