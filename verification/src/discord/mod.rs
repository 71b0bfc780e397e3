//! Discord webhook notifications for service lifecycle events.
pub mod client;
pub mod colors;
pub mod config;
pub mod format;
pub mod message;

pub use client::{AnnotationDraft, NotificationClient, NotificationPlan};
pub use config::NotificationConfig;
pub use format::{capitalize_service, format_duration, truncate_tag};
pub use message::{DiscordAuthor, DiscordEmbed, DiscordField, DiscordFooter, DiscordWebhook};
