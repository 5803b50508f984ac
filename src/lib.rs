//! A bridge from a structured logging pipeline to a notification sink.
//!
//! Events whose severity is in a configured capture set and which carry a
//! `"message"` field are rendered into a text report and handed to a
//! dispatch function together with a fixed context value.
pub mod capture;
pub mod layer;
pub mod level;
pub mod report;
pub mod telegram;

pub use capture::MessageCapture;
pub use layer::GenericNotificationLayer;
pub use layer::Message;
pub use level::Level;
pub use telegram::TelegramConfig;
