pub mod composer;
pub mod composer_view;
pub mod config;
pub mod discord;
pub mod discord_apply;
pub mod dashboard;
pub mod dashboard_events;
pub mod desktop_notify;
pub mod discord_state;
pub mod error;
pub mod events;
pub mod keyed;
pub mod mention_picker;
pub mod message_format;
pub mod message_view;
pub mod mouse_input;
pub mod navigation;
pub mod notifications;
pub mod profile;
pub mod request_body;
pub mod rest;
pub mod scroll;
pub mod text;
pub mod text_layout;
pub mod thread_preview;
pub mod unread;

