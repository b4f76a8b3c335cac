//! Decoding of the fixed-size header of a BSP map file: a format tag, a
//! version, a directory of lump entries and a map revision counter.
pub mod bytes;
pub mod header;
