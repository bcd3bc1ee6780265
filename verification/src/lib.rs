//! Safety layer over a handle-based data-interchange boundary: a closed
//! catalog of uniform data type tags with an open escape variant, an
//! ownership discipline for opaque native handles, string and buffer
//! marshalling rules, and the mapping from boundary status codes to errors.

pub mod error;
pub mod handle;
pub mod marshal;
pub mod types;

pub use error::UdmfError;
pub use handle::HandleWrapper;
pub use types::UniformDataType;
