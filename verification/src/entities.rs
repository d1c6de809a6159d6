//! The records handed back to callers.

pub mod avatar;
pub mod stored_image;
