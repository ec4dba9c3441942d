//! Services on top of the file contract: the user's directories, thumbnails,
//! and the watch over volumes.

pub mod places;
pub mod thumbnail;
pub mod volumemonitor;
