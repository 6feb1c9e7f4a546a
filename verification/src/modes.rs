//! Operating modes of the driver

pub use crate::driver::GraphicsMode;
pub use crate::driver::InitialMode;
pub use crate::driver::RawMode;
