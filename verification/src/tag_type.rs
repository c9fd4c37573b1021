//! Tag type definitions for supported e-ink NFC displays.
//!
//! A static, order-preserving registry maps a human-selectable tag model to
//! its display dimensions, required image format and protocol variant. The
//! order of the entries is part of the user-facing contract (menu ordering).

use vstd::prelude::*;

verus! {

/// Marker type for the BWR (3-color: Black, White, Red) image format.
#[derive(Debug, Clone, Copy)]
pub struct Bwr;

/// Marker type for the BWRY (4-color: Black, White, Red, Yellow) image format.
#[derive(Debug, Clone, Copy)]
pub struct Bwry;

/// Image format enum for runtime selection.
#[derive(Debug, Clone, Copy, PartialEq, Eq, Structural)]
pub enum ImageFormat {
    /// 3-color: Black, White, Red
    Bwr,
    /// 4-color: Black, White, Red, Yellow
    Bwry,
}

/// Protocol enum for runtime selection.
#[derive(Debug, Clone, Copy, PartialEq, Eq, Structural)]
pub enum Protocol {
    /// ISO-DEP BWRY protocol for 4-color displays
    IsodepBwry,
    /// ISO-DEP GenB protocol for 3-color displays
    IsodepGenb,
}

/// Tag type combining display info, image format, and protocol.
#[derive(Debug, Clone, Copy)]
pub struct TagType {
    /// Human-readable display name
    pub name: &'static str,
    /// Display width in pixels
    pub width: usize,
    /// Display height in pixels
    pub height: usize,
    /// Required image format
    pub image_format: ImageFormat,
    /// NFC protocol to use
    pub protocol: Protocol,
}

/// Number of supported tag models.
pub const TAG_TYPE_COUNT: usize = 2;

impl TagType {
    /// 1.54 inch e-Paper Y: BWRY 4-color display.
    pub fn epaper_y_154() -> (t: TagType)
        ensures
            t.name@ == "1.54inch e-Paper Y"@,
            t.width == 200,
            t.height == 200,
            t.image_format == ImageFormat::Bwry,
            t.protocol == Protocol::IsodepBwry,
    {
        TagType {
            name: "1.54inch e-Paper Y",
            width: 200,
            height: 200,
            image_format: ImageFormat::Bwry,
            protocol: Protocol::IsodepBwry,
        }
    }

    /// 1.54 inch e-Paper B: BWR 3-color display.
    pub fn epaper_b_154() -> (t: TagType)
        ensures
            t.name@ == "1.54inch e-Paper B"@,
            t.width == 200,
            t.height == 200,
            t.image_format == ImageFormat::Bwr,
            t.protocol == Protocol::IsodepGenb,
    {
        TagType {
            name: "1.54inch e-Paper B",
            width: 200,
            height: 200,
            image_format: ImageFormat::Bwr,
            protocol: Protocol::IsodepGenb,
        }
    }

    /// Bounds-checked lookup of a tag model by menu index. The ordering of
    /// the registry is fixed: index 0 is the 4-color model, index 1 the
    /// 3-color model, and every other index yields `None`.
    pub fn get(index: usize) -> (r: Option<TagType>)
        ensures
            r is Some <==> index < TAG_TYPE_COUNT,
            index == 0 ==> (r matches Some(t) && t.name@ == "1.54inch e-Paper Y"@
                && t.width == 200 && t.height == 200
                && t.image_format == ImageFormat::Bwry && t.protocol == Protocol::IsodepBwry),
            index == 1 ==> (r matches Some(t) && t.name@ == "1.54inch e-Paper B"@
                && t.width == 200 && t.height == 200
                && t.image_format == ImageFormat::Bwr && t.protocol == Protocol::IsodepGenb),
    {
        if index == 0 {
            Some(Self::epaper_y_154())
        } else if index == 1 {
            Some(Self::epaper_b_154())
        } else {
            None
        }
    }
}

} // verus!
