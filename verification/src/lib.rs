pub mod buffer;
pub mod codec;
pub mod dictionary;
pub mod error;
pub mod laws;
pub mod wrapper;

pub use error::CodecError;
pub use error::Operation;
pub use wrapper::ZstdWrapper;
