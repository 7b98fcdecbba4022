//! Page metadata extraction: title, description, Open Graph image and favicon
//! of one web page.
//!
//! The library holds every decision of the pipeline and proves its contracts
//! with Verus. It performs no I/O itself: the caller fetches what a step asks
//! for and hands the outcome to the next step.

pub mod codec;
pub mod document;
pub mod error;
pub mod extractor;
pub mod fetcher;
pub mod pipeline;
pub mod record;
pub mod resolver;
pub mod text;
