//! Library for writing raster images to NFC-powered multi-color e-paper tags.
//!
//! The crate has three layers, leaves first:
//!
//! * an image codec ([`image`]) that decodes 8-bit indexed bitmaps (or a
//!   compact pre-packed binary format) into the tightly packed pixel-plane
//!   buffer a tag expects;
//! * APDU primitives ([`protocol_common`]) that build the command frames of
//!   the reverse-engineered wire protocol and interpret response status words;
//! * two protocol state machines ([`protocol_bwry`] for single-buffer 4-color
//!   tags, [`protocol_genb`] for dual-buffer 3-color tags), written as pure
//!   transition functions from state and transport outcome to next state,
//!   delay and directive, so that an event loop owning the actual ISO-DEP
//!   transport can drive them one exchange at a time.
//!
//! A registry of supported tag models lives in [`tag_type`].

pub mod image;
pub mod protocol_bwry;
pub mod protocol_common;
pub mod protocol_genb;
pub mod tag_type;
