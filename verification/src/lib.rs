//! Verified core of a Signal messenger client: session lists, recipients,
//! contact number formatting, profile refresh scheduling and database
//! migrations.

pub mod client_profile;
pub mod codec;
pub mod contact;
pub mod group_v2;
pub mod message_methods;
pub mod profile_refresh;
pub mod reactions;
pub mod recipient;
pub mod session_actor;
pub mod sessions;
pub mod text;
