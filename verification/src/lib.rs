//! The Thread Control Structure of an enclave: the page-sized record through
//! which the processor enters and leaves isolated memory, its execution
//! flags, and its byte image.

pub mod byte_order;
pub mod flags;
pub mod layout;
pub mod tcs;

pub use crate::byte_order::ByteOrder;
pub use crate::flags::Flags;
pub use crate::layout::{Field, TCS_ALIGN, TCS_FIELDS_END, TCS_SIZE};
pub use crate::tcs::Tcs;
