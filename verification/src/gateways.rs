//! The rules of each gateway: what is asked of the outside world, and what
//! its answers mean.

pub mod http;
pub mod images;
pub mod s3;
pub mod video;
