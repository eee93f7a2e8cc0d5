//! The verified core of an image compressor and converter.
//!
//! It decides which files of a folder are images, how each output file is named and in which
//! format it is written, which settings an image is encoded with (presets, explicit options,
//! conversion modes), and how the search for an encoding that meets a target file size
//! proceeds. Reading folders and zip files, decoding, resizing and encoding images, and writing
//! files are left to the caller.
pub mod convert;
pub mod formats;
pub mod options;
pub mod paths;
pub mod scan;
pub mod target;
pub mod text;
