//! Core logic of an image-folder browser: the directory snapshot and its
//! filters, the thumbnail cache with its pruning rule, the message protocol
//! between the foreground controller and the serial background worker, and
//! the coordination of uploads to an S3-compatible object store.

pub mod cache;
pub mod config;
pub mod controller;
pub mod filter;
pub mod shared;
pub mod state;
pub mod upload;
pub mod worker;

use vstd::prelude::*;

verus! {

/// Number of thumbnails shown on one browser page.
pub const PER_PAGE: usize = 20;

/// Bounding box a thumbnail is resized to fit within, in pixels.
pub const THUMBNAIL_WIDTH: u32 = 200;

/// Bounding box a thumbnail is resized to fit within, in pixels.
pub const THUMBNAIL_HEIGHT: u32 = 150;

} // verus!
