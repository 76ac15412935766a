//! Data model of an error-report notifier: device, user, application and
//! event descriptions, plus the text handling that turns the output of
//! platform probes into hardware descriptions.

pub mod appinfo;
pub mod deviceinfo;
pub mod event;
pub mod exception;
pub mod hardware;
pub mod notification;
pub mod platform;
pub mod severity;
pub mod stacktrace;
pub mod text;
pub mod user;

pub use severity::Severity;
