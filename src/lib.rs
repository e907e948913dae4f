//! Named bit fields ("flags") inside one unsigned integer cell.
//!
//! A [`Flag`] is a mask over a cell of some unsigned width; the position of
//! the field is derived from the mask's lowest set bit. The [`Bitbite`] trait
//! gives any type that owns such a cell the read and write operations on
//! flags, with contracts stated over the cell's bit pattern.
pub mod bitbite;
pub mod flag;
pub mod laws;
pub mod unsigned;

pub use bitbite::Bitbite;
pub use flag::Flag;
pub use unsigned::Unsigned;
