//! Enums whose values are the SDK's FourCC tags (Blackmagic RAW SDK
//! manual, "Basic Types").

use vstd::prelude::*;

verus! {

/// The big-endian packing of a four-character tag into a `u32`, as
/// `u32::from_be_bytes` builds it from the tag's bytes.
pub open spec fn fourcc(a: char, b: char, c: char, d: char) -> int {
    (a as int) * 0x100_0000 + (b as int) * 0x1_0000 + (c as int) * 0x100 + (d as int)
}

/// Decode pipeline backend. CPU is always available on Linux.
#[derive(Debug, Clone, Copy, PartialEq, Eq, Structural)]
pub enum Pipeline {
    Cpu,
    Cuda,
    Metal,
    OpenCL,
}

impl Pipeline {
    /// The SDK's FourCC tag for this pipeline.
    pub open spec fn tag(self) -> int {
        match self {
            Pipeline::Cpu => fourcc('c', 'p', 'u', 'b'),
            Pipeline::Cuda => fourcc('c', 'u', 'd', 'a'),
            Pipeline::Metal => fourcc('m', 'e', 't', 'l'),
            Pipeline::OpenCL => fourcc('o', 'p', 'c', 'l'),
        }
    }

    /// The value handed to the SDK for this pipeline.
    pub fn fourcc(self) -> (r: u32)
        ensures
            r == self.tag(),
    {
        match self {
            Pipeline::Cpu => 0x6370_7562,
            Pipeline::Cuda => 0x6375_6461,
            Pipeline::Metal => 0x6d65_746c,
            Pipeline::OpenCL => 0x6f70_636c,
        }
    }
}

/// Decode scale. Smaller scales produce smaller output buffers and faster
/// decodes. Some BRAW variants silently clamp `Eighth` to `Quarter`; the
/// dimensions of the processed image, not [`divisor`](Self::divisor), are
/// the actual output dimensions.
#[derive(Debug, Clone, Copy, PartialEq, Eq, Structural)]
pub enum ResolutionScale {
    Full,
    Half,
    Quarter,
    Eighth,
}

impl ResolutionScale {
    /// The SDK's FourCC tag for this scale.
    pub open spec fn tag(self) -> int {
        match self {
            ResolutionScale::Full => fourcc('f', 'u', 'l', 'l'),
            ResolutionScale::Half => fourcc('h', 'a', 'l', 'f'),
            ResolutionScale::Quarter => fourcc('q', 'r', 't', 'r'),
            ResolutionScale::Eighth => fourcc('e', 'i', 't', 'h'),
        }
    }

    /// The factor by which the scale divides each dimension.
    pub open spec fn spec_divisor(self) -> int {
        match self {
            ResolutionScale::Full => 1,
            ResolutionScale::Half => 2,
            ResolutionScale::Quarter => 4,
            ResolutionScale::Eighth => 8,
        }
    }

    /// The value handed to the SDK for this scale.
    pub fn fourcc(self) -> (r: u32)
        ensures
            r == self.tag(),
    {
        match self {
            ResolutionScale::Full => 0x6675_6c6c,
            ResolutionScale::Half => 0x6861_6c66,
            ResolutionScale::Quarter => 0x7172_7472,
            ResolutionScale::Eighth => 0x6569_7468,
        }
    }

    /// Divisor the scale *asks* the SDK to apply to each dimension.
    pub fn divisor(self) -> (r: u32)
        ensures
            r == self.spec_divisor(),
    {
        match self {
            ResolutionScale::Full => 1,
            ResolutionScale::Half => 2,
            ResolutionScale::Quarter => 4,
            ResolutionScale::Eighth => 8,
        }
    }
}

/// Output pixel format.
#[derive(Debug, Clone, Copy, PartialEq, Eq, Structural)]
pub enum ResourceFormat {
    RgbaU8,
    BgraU8,
    RgbU16,
    RgbaU16,
    BgraU16,
    RgbU16Planar,
    RgbF32,
    RgbaF32,
    BgraF32,
    RgbF32Planar,
    RgbF16,
    RgbaF16,
    BgraF16,
    RgbF16Planar,
}

impl ResourceFormat {
    /// The SDK's FourCC tag for this format.
    pub open spec fn tag(self) -> int {
        match self {
            ResourceFormat::RgbaU8 => fourcc('r', 'g', 'b', 'a'),
            ResourceFormat::BgraU8 => fourcc('b', 'g', 'r', 'a'),
            ResourceFormat::RgbU16 => fourcc('1', '6', 'i', 'l'),
            ResourceFormat::RgbaU16 => fourcc('1', '6', 'a', 'l'),
            ResourceFormat::BgraU16 => fourcc('1', '6', 'l', 'a'),
            ResourceFormat::RgbU16Planar => fourcc('1', '6', 'p', 'l'),
            ResourceFormat::RgbF32 => fourcc('f', '3', '2', 's'),
            ResourceFormat::RgbaF32 => fourcc('f', '3', '2', 'l'),
            ResourceFormat::BgraF32 => fourcc('f', '3', '2', 'a'),
            ResourceFormat::RgbF32Planar => fourcc('f', '3', '2', 'p'),
            ResourceFormat::RgbF16 => fourcc('f', '1', '6', 's'),
            ResourceFormat::RgbaF16 => fourcc('f', '1', '6', 'l'),
            ResourceFormat::BgraF16 => fourcc('f', '1', '6', 'a'),
            ResourceFormat::RgbF16Planar => fourcc('f', '1', '6', 'p'),
        }
    }

    /// The format whose tag is `v`, if there is one.
    pub open spec fn from_tag(v: int) -> Option<ResourceFormat> {
        if exists|f: ResourceFormat| f.tag() == v {
            Some(choose|f: ResourceFormat| f.tag() == v)
        } else {
            None
        }
    }

    /// How many channels a pixel has: three for the `Rgb` formats, four
    /// for the `Rgba` and `Bgra` ones.
    pub open spec fn channel_count(self) -> int {
        match self {
            ResourceFormat::RgbU16 | ResourceFormat::RgbU16Planar | ResourceFormat::RgbF32
            | ResourceFormat::RgbF32Planar | ResourceFormat::RgbF16
            | ResourceFormat::RgbF16Planar => 3,
            _ => 4,
        }
    }

    /// How many bytes one channel takes: 1 for `U8`, 2 for `U16` and `F16`,
    /// 4 for `F32`.
    pub open spec fn channel_width(self) -> int {
        match self {
            ResourceFormat::RgbaU8 | ResourceFormat::BgraU8 => 1,
            ResourceFormat::RgbF32 | ResourceFormat::RgbaF32 | ResourceFormat::BgraF32
            | ResourceFormat::RgbF32Planar => 4,
            _ => 2,
        }
    }

    /// Total bytes per pixel, summed over the channels (for planar
    /// formats, over all planes).
    pub open spec fn spec_bytes_per_pixel(self) -> int {
        match self {
            ResourceFormat::RgbaU8 | ResourceFormat::BgraU8 => 4,
            ResourceFormat::RgbU16 | ResourceFormat::RgbU16Planar | ResourceFormat::RgbF16
            | ResourceFormat::RgbF16Planar => 6,
            ResourceFormat::RgbaU16 | ResourceFormat::BgraU16 | ResourceFormat::RgbaF16
            | ResourceFormat::BgraF16 => 8,
            ResourceFormat::RgbF32 | ResourceFormat::RgbF32Planar => 12,
            ResourceFormat::RgbaF32 | ResourceFormat::BgraF32 => 16,
        }
    }

    /// The value handed to (and reported by) the SDK for this format.
    pub fn fourcc(self) -> (r: u32)
        ensures
            r == self.tag(),
    {
        match self {
            ResourceFormat::RgbaU8 => 0x7267_6261,
            ResourceFormat::BgraU8 => 0x6267_7261,
            ResourceFormat::RgbU16 => 0x3136_696c,
            ResourceFormat::RgbaU16 => 0x3136_616c,
            ResourceFormat::BgraU16 => 0x3136_6c61,
            ResourceFormat::RgbU16Planar => 0x3136_706c,
            ResourceFormat::RgbF32 => 0x6633_3273,
            ResourceFormat::RgbaF32 => 0x6633_326c,
            ResourceFormat::BgraF32 => 0x6633_3261,
            ResourceFormat::RgbF32Planar => 0x6633_3270,
            ResourceFormat::RgbF16 => 0x6631_3673,
            ResourceFormat::RgbaF16 => 0x6631_366c,
            ResourceFormat::BgraF16 => 0x6631_3661,
            ResourceFormat::RgbF16Planar => 0x6631_3670,
        }
    }

    /// The format whose FourCC tag is `v`, or `None` for a tag this crate
    /// does not know.
    pub fn from_raw(v: u32) -> (r: Option<ResourceFormat>)
        ensures
            r == ResourceFormat::from_tag(v as int),
    {
        proof {
            lemma_resource_format_tags_distinct();
        }
        let r = if v == 0x7267_6261 {
            Some(ResourceFormat::RgbaU8)
        } else if v == 0x6267_7261 {
            Some(ResourceFormat::BgraU8)
        } else if v == 0x3136_696c {
            Some(ResourceFormat::RgbU16)
        } else if v == 0x3136_616c {
            Some(ResourceFormat::RgbaU16)
        } else if v == 0x3136_6c61 {
            Some(ResourceFormat::BgraU16)
        } else if v == 0x3136_706c {
            Some(ResourceFormat::RgbU16Planar)
        } else if v == 0x6633_3273 {
            Some(ResourceFormat::RgbF32)
        } else if v == 0x6633_326c {
            Some(ResourceFormat::RgbaF32)
        } else if v == 0x6633_3261 {
            Some(ResourceFormat::BgraF32)
        } else if v == 0x6633_3270 {
            Some(ResourceFormat::RgbF32Planar)
        } else if v == 0x6631_3673 {
            Some(ResourceFormat::RgbF16)
        } else if v == 0x6631_366c {
            Some(ResourceFormat::RgbaF16)
        } else if v == 0x6631_3661 {
            Some(ResourceFormat::BgraF16)
        } else if v == 0x6631_3670 {
            Some(ResourceFormat::RgbF16Planar)
        } else {
            None
        };
        proof {
            match r {
                Some(f) => assert(f.tag() == v),
                None => assert forall|f: ResourceFormat| f.tag() != v by {
                    match f {
                        _ => {},
                    }
                },
            }
        }
        r
    }

    /// Total bytes per pixel (sum across channels). For planar formats
    /// this is the per-pixel total across all planes, not per plane.
    pub fn bytes_per_pixel(self) -> (r: u32)
        ensures
            r == self.spec_bytes_per_pixel(),
            r == self.channel_count() * self.channel_width(),
    {
        match self {
            ResourceFormat::RgbaU8 | ResourceFormat::BgraU8 => 4,
            ResourceFormat::RgbU16 | ResourceFormat::RgbU16Planar | ResourceFormat::RgbF16
            | ResourceFormat::RgbF16Planar => 6,
            ResourceFormat::RgbaU16 | ResourceFormat::BgraU16 | ResourceFormat::RgbaF16
            | ResourceFormat::BgraF16 => 8,
            ResourceFormat::RgbF32 | ResourceFormat::RgbF32Planar => 12,
            ResourceFormat::RgbaF32 | ResourceFormat::BgraF32 => 16,
        }
    }
}

/// No two pixel formats share a FourCC tag.
pub proof fn lemma_resource_format_tags_distinct()
    ensures
        forall|f: ResourceFormat, g: ResourceFormat| f.tag() == g.tag() ==> f == g,
{
}

/// Decoding a format's own tag gives that format back.
pub proof fn lemma_resource_format_round_trip(f: ResourceFormat)
    ensures
        ResourceFormat::from_tag(f.tag()) == Some(f),
{
    lemma_resource_format_tags_distinct();
}

/// A format decoded from a tag carries that very tag, and a tag that no
/// format carries decodes to nothing.
pub proof fn lemma_resource_format_from_tag(v: int)
    ensures
        ResourceFormat::from_tag(v) matches Some(f) ==> f.tag() == v,
        ResourceFormat::from_tag(v) is None <==> forall|f: ResourceFormat| f.tag() != v,
{
}

/// A pixel takes one channel width per channel: for planar formats too,
/// the total over all planes.
pub proof fn lemma_bytes_per_pixel_is_channels_times_width(f: ResourceFormat)
    ensures
        f.spec_bytes_per_pixel() == f.channel_count() * f.channel_width(),
{
}

/// Every pixel format takes 4, 6, 8, 12 or 16 bytes per pixel.
pub proof fn lemma_bytes_per_pixel_values(f: ResourceFormat)
    ensures
        f.spec_bytes_per_pixel() == 4 || f.spec_bytes_per_pixel() == 6
            || f.spec_bytes_per_pixel() == 8 || f.spec_bytes_per_pixel() == 12
            || f.spec_bytes_per_pixel() == 16,
{
}

} // verus!
