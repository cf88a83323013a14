//! Decoder for the primary GUID Partition Table (GPT) header of a raw disk
//! image: fixed-offset field extraction, signature validation, and
//! mixed-endian reconstruction of the disk GUID.

pub mod extract;
pub mod gpt;
pub mod guid;
pub mod text;

pub use gpt::{read_header, GptError, Header};
pub use guid::DiskGuid;
