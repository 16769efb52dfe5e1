//! Routes a URL to a browser profile: ordered rules of text patterns pick a
//! profile name, and a registry turns that name into launch arguments.

pub mod matcher;
pub mod address;
pub mod rule;
pub mod profile;
pub mod launch;
