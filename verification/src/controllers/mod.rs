//! Rules of the request handlers.

pub mod admin_controller;
pub mod announcement_controller;
pub mod api_info_controller;
pub mod bot_controller;
pub mod channel_controller;
pub mod channels;
pub mod contacts_controller;
pub mod e2e_controller;
pub mod emojis;
pub mod friends_controller;
pub mod invite_controller;
pub mod invites;
pub mod messages;
pub mod messages_controller;
pub mod oauth_integration_controller;
pub mod spotify_controller;
pub mod status_controller;
pub mod stickers;
pub mod user_controller;
pub mod voice_controller;
pub mod whitelist_controller;
