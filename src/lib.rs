//! Recompression of the media files of a directory tree: classification by
//! extension, the index of a walked tree, the per-file replace protocol, the
//! encoder arguments, and the shared queue of a fixed pool of workers.

pub mod media;
pub mod path;
pub mod index;
pub mod codec;
pub mod job;
pub mod pool;
