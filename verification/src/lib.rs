pub mod buffer;
pub mod editor;
pub mod keys;
pub mod render;
pub mod term;
pub mod viewport;

pub use keys::ctrl_key;
