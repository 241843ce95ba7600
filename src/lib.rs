//! Encoder for SFS ("Simple File System") volume images: a zero-filled
//! region of the medium's size with a superblock at a fixed offset and two
//! 64-byte index entries at its end.

pub mod bytes;
pub mod geometry;
pub mod index;
pub mod image;
pub mod laws;
pub mod commands;
