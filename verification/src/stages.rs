//! The concrete transform stages: each one specialises the negotiation
//! protocol's offer rewriting and its per-buffer pass-through predicate, and
//! performs its own kind of device work in `transform`.

pub mod download;
pub mod sobel_buf;
pub mod sobel_mem;
pub mod texture_copy;
pub mod texture_upload;
pub mod upload;
