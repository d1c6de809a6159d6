//! The orchestrating operations, written against the gateway capabilities.

pub mod clean_videos;
pub mod gateways;
pub mod get_image;
pub mod image_exists;
pub mod upload_avatar;
pub mod upload_image;
