//! Verified core of a small kernel's user interface: the I/O request and
//! response rings shared with the kernel, the request encodings, and the
//! VGA text-mode cursor and number formatting, and integers kept in a fixed
//! byte order.

pub mod seek;
pub mod request;
pub mod ring;
pub mod text;
pub mod endian;
