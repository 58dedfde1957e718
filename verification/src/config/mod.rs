pub mod launcher;
pub mod profiles;
pub mod serde_util;
