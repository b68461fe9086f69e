//! Rendering of a directory listing: one line per entry, holding its
//! permission string, size, modification time and name.

pub mod color;
pub mod line;
pub mod listing;
pub mod permissions;
pub mod size;
pub mod stamp;
