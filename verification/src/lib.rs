//! Driver core for the ST7565 monochrome LCD controller.
//!
//! The crate computes what has to go over the wire and keeps the frame
//! buffer; it never touches a bus itself. Every operation hands back the
//! bytes to transmit, so that the caller can send them over whatever
//! transport it owns.

pub mod command;
pub mod display_specs;
pub mod displays;
pub mod driver;
pub mod driver_builder;
pub mod flush;
pub mod modes;
pub mod page_buffer;
pub mod types;

pub use command::{Code, Command};
pub use display_specs::DisplaySpecs;
pub use driver::{DisplayInterface, ResetStep, ST7565};
pub use driver_builder::ST7565DriverBuilder;
pub use flush::PageUpdate;
pub use page_buffer::GraphicsPageBuffer;
pub use types::Pixel;
