//! Navigation and blueprint state for a terminal browser of cloud resources.

pub mod app;
pub mod aws_cli;
pub mod blueprint;
pub mod cli;
pub mod document;
pub mod i18n;
pub mod progress;
pub mod settings;
pub mod text;
