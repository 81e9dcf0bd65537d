//! OAuth deep-link callbacks for a chat client's native shell.
//!
//! A callback arrives as a custom-scheme URL (`jiwuchat://oauth/callback?...`).
//! The library decides whether a URL is such a callback, decomposes its
//! query string into a [`CallbackRecord`], and says what the shell has to do
//! with it: which records to emit to the frontend, after which delay, and
//! whether the main window must be brought forward.
pub mod text;
pub mod record;
pub mod dispatch;
pub mod desktop;
pub mod mobile;

pub use text::{is_oauth_callback, same_text, starts_with_text, CALLBACK_PREFIX};
pub use record::{CallbackRecord, RecordView, parse_oauth_callback_url, record_from_query};
pub use dispatch::{DelayedEmission, RuntimeAction, OAUTH_CALLBACK_EVENT};
pub use mobile::CallbackCache;
