//! Picks the image representation a caller prefers out of the formats that a
//! clipboard-like buffer has on offer, and turns the fetched payload into a
//! [`ClipboardImage`].
//!
//! The library never touches the clipboard itself. A driver enumerates the
//! formats, copies the payloads and runs the decoders that the library does
//! not call itself; the rules of which format wins, how a bare bitmap blob is
//! given its file header, and what is handed to the image codec live here,
//! each with a contract that Verus proves.

pub mod builder;
pub mod catalog;
pub mod clipboardimage;
pub mod codec;
pub mod dib;
pub mod fetch;
pub mod le;
pub mod resolver;

pub use builder::{
    begin, image_from_bitmap, interpret, start, Action, Attempt, Decoding, Enumeration, Reading,
    Start,
};
pub use catalog::{lookup, CatalogEntry, CodecTag, PayloadKind};
pub use clipboardimage::{ClipboardError, ClipboardImage};
pub use dib::{container_from_dib, wrap_dib};
pub use fetch::Fetched;
pub use resolver::{get_id_for_format, resolve, AvailableFormat, ResolvedFormat};
