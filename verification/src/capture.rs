//! Values exchanged with the screen-capture worker.
use vstd::prelude::*;

verus! {

/// Screen parameters reported by the capture worker.
///
/// - `screen_width`: screen width in pixels
/// - `screen_height`: screen height in pixels
/// - `video_format`: pixel format code (see [`SpaVideoFormat`])
#[derive(Clone, Copy, Debug, PartialEq, Eq, Structural)]
pub struct CaptureConfig {
    pub screen_width: u32,
    pub screen_height: u32,
    pub video_format: u32,
}

impl CaptureConfig {
    /// A configuration with every field zero, to be filled in by the capture worker.
    pub fn new() -> (c: Self)
        ensures
            c == (CaptureConfig { screen_width: 0, screen_height: 0, video_format: 0 }),
    {
        Self { screen_width: 0, screen_height: 0, video_format: 0 }
    }
}

/// States of the capture thread.
#[derive(Clone, Copy, Debug, PartialEq, Eq, Structural)]
pub enum CaptureEvent {
    Ready,
    Error,
    Stopped,
    Reconnecting,
}

/// Video pixel formats, in the numbering of PipeWire's `spa_video_format`.
#[allow(non_camel_case_types)]
#[derive(Clone, Copy, Debug, PartialEq, Eq, Structural)]
pub enum SpaVideoFormat {
    UNKNOWN,
    ENCODED,
    I420,
    YV12,
    YUY2,
    UYVY,
    AYUV,
    RGBx,
    BGRx,
    xRGB,
    xBGR,
    RGBA,
    BGRA,
    ARGB,
    ABGR,
    RGB,
    BGR,
    Y41B,
    Y42B,
    YVYU,
    Y444,
    v210,
    v216,
    NV12,
    NV21,
    GRAY8,
    GRAY16_BE,
    GRAY16_LE,
    v308,
    RGB16,
    BGR16,
    RGB15,
    BGR15,
    UYVP,
    A420,
    RGB8P,
    YUV9,
    YVU9,
    IYU1,
    ARGB64,
    AYUV64,
    r210,
    I420_10BE,
    I420_10LE,
    I422_10BE,
    I422_10LE,
    Y444_10BE,
    Y444_10LE,
    GBR,
    GBR_10BE,
    GBR_10LE,
    NV16,
    NV24,
    NV12_64Z32,
    A420_10BE,
    A420_10LE,
    A422_10BE,
    A422_10LE,
    A444_10BE,
    A444_10LE,
    NV61,
    P010_10BE,
    P010_10LE,
    IYU2,
    VYUY,
    GBRA,
    GBRA_10BE,
    GBRA_10LE,
    GBR_12BE,
    GBR_12LE,
    GBRA_12BE,
    GBRA_12LE,
    I420_12BE,
    I420_12LE,
    I422_12BE,
    I422_12LE,
    Y444_12BE,
    Y444_12LE,
    RGBA_F16,
    RGBA_F32,
    xRGB_210LE,
    xBGR_210LE,
    RGBx_102LE,
    BGRx_102LE,
    ARGB_210LE,
    ABGR_210LE,
    RGBA_102LE,
    BGRA_102LE,
}

/// The `spa_video_format` number of a format.
pub open spec fn spa_format_code(f: SpaVideoFormat) -> u32 {
    match f {
        SpaVideoFormat::UNKNOWN => 0,
        SpaVideoFormat::ENCODED => 1,
        SpaVideoFormat::I420 => 2,
        SpaVideoFormat::YV12 => 3,
        SpaVideoFormat::YUY2 => 4,
        SpaVideoFormat::UYVY => 5,
        SpaVideoFormat::AYUV => 6,
        SpaVideoFormat::RGBx => 7,
        SpaVideoFormat::BGRx => 8,
        SpaVideoFormat::xRGB => 9,
        SpaVideoFormat::xBGR => 10,
        SpaVideoFormat::RGBA => 11,
        SpaVideoFormat::BGRA => 12,
        SpaVideoFormat::ARGB => 13,
        SpaVideoFormat::ABGR => 14,
        SpaVideoFormat::RGB => 15,
        SpaVideoFormat::BGR => 16,
        SpaVideoFormat::Y41B => 17,
        SpaVideoFormat::Y42B => 18,
        SpaVideoFormat::YVYU => 19,
        SpaVideoFormat::Y444 => 20,
        SpaVideoFormat::v210 => 21,
        SpaVideoFormat::v216 => 22,
        SpaVideoFormat::NV12 => 23,
        SpaVideoFormat::NV21 => 24,
        SpaVideoFormat::GRAY8 => 25,
        SpaVideoFormat::GRAY16_BE => 26,
        SpaVideoFormat::GRAY16_LE => 27,
        SpaVideoFormat::v308 => 28,
        SpaVideoFormat::RGB16 => 29,
        SpaVideoFormat::BGR16 => 30,
        SpaVideoFormat::RGB15 => 31,
        SpaVideoFormat::BGR15 => 32,
        SpaVideoFormat::UYVP => 33,
        SpaVideoFormat::A420 => 34,
        SpaVideoFormat::RGB8P => 35,
        SpaVideoFormat::YUV9 => 36,
        SpaVideoFormat::YVU9 => 37,
        SpaVideoFormat::IYU1 => 38,
        SpaVideoFormat::ARGB64 => 39,
        SpaVideoFormat::AYUV64 => 40,
        SpaVideoFormat::r210 => 41,
        SpaVideoFormat::I420_10BE => 42,
        SpaVideoFormat::I420_10LE => 43,
        SpaVideoFormat::I422_10BE => 44,
        SpaVideoFormat::I422_10LE => 45,
        SpaVideoFormat::Y444_10BE => 46,
        SpaVideoFormat::Y444_10LE => 47,
        SpaVideoFormat::GBR => 48,
        SpaVideoFormat::GBR_10BE => 49,
        SpaVideoFormat::GBR_10LE => 50,
        SpaVideoFormat::NV16 => 51,
        SpaVideoFormat::NV24 => 52,
        SpaVideoFormat::NV12_64Z32 => 53,
        SpaVideoFormat::A420_10BE => 54,
        SpaVideoFormat::A420_10LE => 55,
        SpaVideoFormat::A422_10BE => 56,
        SpaVideoFormat::A422_10LE => 57,
        SpaVideoFormat::A444_10BE => 58,
        SpaVideoFormat::A444_10LE => 59,
        SpaVideoFormat::NV61 => 60,
        SpaVideoFormat::P010_10BE => 61,
        SpaVideoFormat::P010_10LE => 62,
        SpaVideoFormat::IYU2 => 63,
        SpaVideoFormat::VYUY => 64,
        SpaVideoFormat::GBRA => 65,
        SpaVideoFormat::GBRA_10BE => 66,
        SpaVideoFormat::GBRA_10LE => 67,
        SpaVideoFormat::GBR_12BE => 68,
        SpaVideoFormat::GBR_12LE => 69,
        SpaVideoFormat::GBRA_12BE => 70,
        SpaVideoFormat::GBRA_12LE => 71,
        SpaVideoFormat::I420_12BE => 72,
        SpaVideoFormat::I420_12LE => 73,
        SpaVideoFormat::I422_12BE => 74,
        SpaVideoFormat::I422_12LE => 75,
        SpaVideoFormat::Y444_12BE => 76,
        SpaVideoFormat::Y444_12LE => 77,
        SpaVideoFormat::RGBA_F16 => 78,
        SpaVideoFormat::RGBA_F32 => 79,
        SpaVideoFormat::xRGB_210LE => 80,
        SpaVideoFormat::xBGR_210LE => 81,
        SpaVideoFormat::RGBx_102LE => 82,
        SpaVideoFormat::BGRx_102LE => 83,
        SpaVideoFormat::ARGB_210LE => 84,
        SpaVideoFormat::ABGR_210LE => 85,
        SpaVideoFormat::RGBA_102LE => 86,
        SpaVideoFormat::BGRA_102LE => 87,
    }
}

/// The format with a given `spa_video_format` number, if the number is known.
pub open spec fn spa_format_of_code(v: u32) -> Option<SpaVideoFormat> {
    match v {
        0 => Some(SpaVideoFormat::UNKNOWN),
        1 => Some(SpaVideoFormat::ENCODED),
        2 => Some(SpaVideoFormat::I420),
        3 => Some(SpaVideoFormat::YV12),
        4 => Some(SpaVideoFormat::YUY2),
        5 => Some(SpaVideoFormat::UYVY),
        6 => Some(SpaVideoFormat::AYUV),
        7 => Some(SpaVideoFormat::RGBx),
        8 => Some(SpaVideoFormat::BGRx),
        9 => Some(SpaVideoFormat::xRGB),
        10 => Some(SpaVideoFormat::xBGR),
        11 => Some(SpaVideoFormat::RGBA),
        12 => Some(SpaVideoFormat::BGRA),
        13 => Some(SpaVideoFormat::ARGB),
        14 => Some(SpaVideoFormat::ABGR),
        15 => Some(SpaVideoFormat::RGB),
        16 => Some(SpaVideoFormat::BGR),
        17 => Some(SpaVideoFormat::Y41B),
        18 => Some(SpaVideoFormat::Y42B),
        19 => Some(SpaVideoFormat::YVYU),
        20 => Some(SpaVideoFormat::Y444),
        21 => Some(SpaVideoFormat::v210),
        22 => Some(SpaVideoFormat::v216),
        23 => Some(SpaVideoFormat::NV12),
        24 => Some(SpaVideoFormat::NV21),
        25 => Some(SpaVideoFormat::GRAY8),
        26 => Some(SpaVideoFormat::GRAY16_BE),
        27 => Some(SpaVideoFormat::GRAY16_LE),
        28 => Some(SpaVideoFormat::v308),
        29 => Some(SpaVideoFormat::RGB16),
        30 => Some(SpaVideoFormat::BGR16),
        31 => Some(SpaVideoFormat::RGB15),
        32 => Some(SpaVideoFormat::BGR15),
        33 => Some(SpaVideoFormat::UYVP),
        34 => Some(SpaVideoFormat::A420),
        35 => Some(SpaVideoFormat::RGB8P),
        36 => Some(SpaVideoFormat::YUV9),
        37 => Some(SpaVideoFormat::YVU9),
        38 => Some(SpaVideoFormat::IYU1),
        39 => Some(SpaVideoFormat::ARGB64),
        40 => Some(SpaVideoFormat::AYUV64),
        41 => Some(SpaVideoFormat::r210),
        42 => Some(SpaVideoFormat::I420_10BE),
        43 => Some(SpaVideoFormat::I420_10LE),
        44 => Some(SpaVideoFormat::I422_10BE),
        45 => Some(SpaVideoFormat::I422_10LE),
        46 => Some(SpaVideoFormat::Y444_10BE),
        47 => Some(SpaVideoFormat::Y444_10LE),
        48 => Some(SpaVideoFormat::GBR),
        49 => Some(SpaVideoFormat::GBR_10BE),
        50 => Some(SpaVideoFormat::GBR_10LE),
        51 => Some(SpaVideoFormat::NV16),
        52 => Some(SpaVideoFormat::NV24),
        53 => Some(SpaVideoFormat::NV12_64Z32),
        54 => Some(SpaVideoFormat::A420_10BE),
        55 => Some(SpaVideoFormat::A420_10LE),
        56 => Some(SpaVideoFormat::A422_10BE),
        57 => Some(SpaVideoFormat::A422_10LE),
        58 => Some(SpaVideoFormat::A444_10BE),
        59 => Some(SpaVideoFormat::A444_10LE),
        60 => Some(SpaVideoFormat::NV61),
        61 => Some(SpaVideoFormat::P010_10BE),
        62 => Some(SpaVideoFormat::P010_10LE),
        63 => Some(SpaVideoFormat::IYU2),
        64 => Some(SpaVideoFormat::VYUY),
        65 => Some(SpaVideoFormat::GBRA),
        66 => Some(SpaVideoFormat::GBRA_10BE),
        67 => Some(SpaVideoFormat::GBRA_10LE),
        68 => Some(SpaVideoFormat::GBR_12BE),
        69 => Some(SpaVideoFormat::GBR_12LE),
        70 => Some(SpaVideoFormat::GBRA_12BE),
        71 => Some(SpaVideoFormat::GBRA_12LE),
        72 => Some(SpaVideoFormat::I420_12BE),
        73 => Some(SpaVideoFormat::I420_12LE),
        74 => Some(SpaVideoFormat::I422_12BE),
        75 => Some(SpaVideoFormat::I422_12LE),
        76 => Some(SpaVideoFormat::Y444_12BE),
        77 => Some(SpaVideoFormat::Y444_12LE),
        78 => Some(SpaVideoFormat::RGBA_F16),
        79 => Some(SpaVideoFormat::RGBA_F32),
        80 => Some(SpaVideoFormat::xRGB_210LE),
        81 => Some(SpaVideoFormat::xBGR_210LE),
        82 => Some(SpaVideoFormat::RGBx_102LE),
        83 => Some(SpaVideoFormat::BGRx_102LE),
        84 => Some(SpaVideoFormat::ARGB_210LE),
        85 => Some(SpaVideoFormat::ABGR_210LE),
        86 => Some(SpaVideoFormat::RGBA_102LE),
        87 => Some(SpaVideoFormat::BGRA_102LE),
        _ => None,
    }
}

impl SpaVideoFormat {
    /// The format numbered `value`, or the number itself when it is not a known format.
    pub fn try_from(value: u32) -> (r: Result<SpaVideoFormat, u32>)
        ensures
            r == match spa_format_of_code(value) {
                Some(f) => Ok(f),
                None => Err(value),
            },
    {
        if value > 87 {
            return Err(value);
        }
        Ok(match value {
            0 => SpaVideoFormat::UNKNOWN,
            1 => SpaVideoFormat::ENCODED,
            2 => SpaVideoFormat::I420,
            3 => SpaVideoFormat::YV12,
            4 => SpaVideoFormat::YUY2,
            5 => SpaVideoFormat::UYVY,
            6 => SpaVideoFormat::AYUV,
            7 => SpaVideoFormat::RGBx,
            8 => SpaVideoFormat::BGRx,
            9 => SpaVideoFormat::xRGB,
            10 => SpaVideoFormat::xBGR,
            11 => SpaVideoFormat::RGBA,
            12 => SpaVideoFormat::BGRA,
            13 => SpaVideoFormat::ARGB,
            14 => SpaVideoFormat::ABGR,
            15 => SpaVideoFormat::RGB,
            16 => SpaVideoFormat::BGR,
            17 => SpaVideoFormat::Y41B,
            18 => SpaVideoFormat::Y42B,
            19 => SpaVideoFormat::YVYU,
            20 => SpaVideoFormat::Y444,
            21 => SpaVideoFormat::v210,
            22 => SpaVideoFormat::v216,
            23 => SpaVideoFormat::NV12,
            24 => SpaVideoFormat::NV21,
            25 => SpaVideoFormat::GRAY8,
            26 => SpaVideoFormat::GRAY16_BE,
            27 => SpaVideoFormat::GRAY16_LE,
            28 => SpaVideoFormat::v308,
            29 => SpaVideoFormat::RGB16,
            30 => SpaVideoFormat::BGR16,
            31 => SpaVideoFormat::RGB15,
            32 => SpaVideoFormat::BGR15,
            33 => SpaVideoFormat::UYVP,
            34 => SpaVideoFormat::A420,
            35 => SpaVideoFormat::RGB8P,
            36 => SpaVideoFormat::YUV9,
            37 => SpaVideoFormat::YVU9,
            38 => SpaVideoFormat::IYU1,
            39 => SpaVideoFormat::ARGB64,
            40 => SpaVideoFormat::AYUV64,
            41 => SpaVideoFormat::r210,
            42 => SpaVideoFormat::I420_10BE,
            43 => SpaVideoFormat::I420_10LE,
            44 => SpaVideoFormat::I422_10BE,
            45 => SpaVideoFormat::I422_10LE,
            46 => SpaVideoFormat::Y444_10BE,
            47 => SpaVideoFormat::Y444_10LE,
            48 => SpaVideoFormat::GBR,
            49 => SpaVideoFormat::GBR_10BE,
            50 => SpaVideoFormat::GBR_10LE,
            51 => SpaVideoFormat::NV16,
            52 => SpaVideoFormat::NV24,
            53 => SpaVideoFormat::NV12_64Z32,
            54 => SpaVideoFormat::A420_10BE,
            55 => SpaVideoFormat::A420_10LE,
            56 => SpaVideoFormat::A422_10BE,
            57 => SpaVideoFormat::A422_10LE,
            58 => SpaVideoFormat::A444_10BE,
            59 => SpaVideoFormat::A444_10LE,
            60 => SpaVideoFormat::NV61,
            61 => SpaVideoFormat::P010_10BE,
            62 => SpaVideoFormat::P010_10LE,
            63 => SpaVideoFormat::IYU2,
            64 => SpaVideoFormat::VYUY,
            65 => SpaVideoFormat::GBRA,
            66 => SpaVideoFormat::GBRA_10BE,
            67 => SpaVideoFormat::GBRA_10LE,
            68 => SpaVideoFormat::GBR_12BE,
            69 => SpaVideoFormat::GBR_12LE,
            70 => SpaVideoFormat::GBRA_12BE,
            71 => SpaVideoFormat::GBRA_12LE,
            72 => SpaVideoFormat::I420_12BE,
            73 => SpaVideoFormat::I420_12LE,
            74 => SpaVideoFormat::I422_12BE,
            75 => SpaVideoFormat::I422_12LE,
            76 => SpaVideoFormat::Y444_12BE,
            77 => SpaVideoFormat::Y444_12LE,
            78 => SpaVideoFormat::RGBA_F16,
            79 => SpaVideoFormat::RGBA_F32,
            80 => SpaVideoFormat::xRGB_210LE,
            81 => SpaVideoFormat::xBGR_210LE,
            82 => SpaVideoFormat::RGBx_102LE,
            83 => SpaVideoFormat::BGRx_102LE,
            84 => SpaVideoFormat::ARGB_210LE,
            85 => SpaVideoFormat::ABGR_210LE,
            86 => SpaVideoFormat::RGBA_102LE,
            _ => SpaVideoFormat::BGRA_102LE,
        })
    }
}

/// Numbering is a bijection between the formats and `0..=87`.
pub proof fn lemma_spa_format_code_roundtrip(f: SpaVideoFormat, v: u32)
    ensures
        spa_format_code(f) <= 87,
        spa_format_of_code(spa_format_code(f)) == Some(f),
        spa_format_of_code(v) is Some <==> v <= 87,
        spa_format_of_code(v) == Some(f) ==> spa_format_code(f) == v,
{
}

/// The 32-bit packed layouts that frame processing reads directly.
#[allow(non_camel_case_types)]
#[derive(Clone, Copy, Debug, PartialEq, Eq, Structural)]
pub enum PixelLayout {
    RGBx,
    BGRx,
    xRGB,
    xBGR,
    RGBA,
    BGRA,
    ARGB,
    ABGR,
}

/// The directly readable layout of a format, if it has one.
pub open spec fn layout_of(f: SpaVideoFormat) -> Option<PixelLayout> {
    match f {
        SpaVideoFormat::RGBx => Some(PixelLayout::RGBx),
        SpaVideoFormat::BGRx => Some(PixelLayout::BGRx),
        SpaVideoFormat::xRGB => Some(PixelLayout::xRGB),
        SpaVideoFormat::xBGR => Some(PixelLayout::xBGR),
        SpaVideoFormat::RGBA => Some(PixelLayout::RGBA),
        SpaVideoFormat::BGRA => Some(PixelLayout::BGRA),
        SpaVideoFormat::ARGB => Some(PixelLayout::ARGB),
        SpaVideoFormat::ABGR => Some(PixelLayout::ABGR),
        _ => None,
    }
}

impl SpaVideoFormat {
    /// The layout to read frames of this format with; `None` for formats that need
    /// conversion by the capture worker first.
    pub fn pixel_layout(&self) -> (r: Option<PixelLayout>)
        ensures
            r == layout_of(*self),
    {
        match self {
            SpaVideoFormat::RGBx => Some(PixelLayout::RGBx),
            SpaVideoFormat::BGRx => Some(PixelLayout::BGRx),
            SpaVideoFormat::xRGB => Some(PixelLayout::xRGB),
            SpaVideoFormat::xBGR => Some(PixelLayout::xBGR),
            SpaVideoFormat::RGBA => Some(PixelLayout::RGBA),
            SpaVideoFormat::BGRA => Some(PixelLayout::BGRA),
            SpaVideoFormat::ARGB => Some(PixelLayout::ARGB),
            SpaVideoFormat::ABGR => Some(PixelLayout::ABGR),
            _ => None,
        }
    }
}

/// Where a layout keeps each channel in its four bytes: the offsets of red, green and
/// blue, and of alpha when the fourth byte is alpha rather than padding.
pub open spec fn channel_offsets(l: PixelLayout) -> (int, int, int, Option<int>) {
    match l {
        PixelLayout::RGBx => (0, 1, 2, None),
        PixelLayout::BGRx => (2, 1, 0, None),
        PixelLayout::xRGB => (1, 2, 3, None),
        PixelLayout::xBGR => (3, 2, 1, None),
        PixelLayout::RGBA => (0, 1, 2, Some(3)),
        PixelLayout::BGRA => (2, 1, 0, Some(3)),
        PixelLayout::ARGB => (1, 2, 3, Some(0)),
        PixelLayout::ABGR => (3, 2, 1, Some(0)),
    }
}

/// The byte order PipeWire's video format number `code` stands for, for the 32-bit packed
/// RGB formats (7 to 14: RGBx, BGRx, xRGB, xBGR, RGBA, BGRA, ARGB, ABGR): offsets of red,
/// green, blue and of alpha if any. `None` for every other format.
pub open spec fn packed_rgb_order(code: u32) -> Option<(int, int, int, Option<int>)> {
    if code == 7 {
        Some((0, 1, 2, None))
    } else if code == 8 {
        Some((2, 1, 0, None))
    } else if code == 9 {
        Some((1, 2, 3, None))
    } else if code == 10 {
        Some((3, 2, 1, None))
    } else if code == 11 {
        Some((0, 1, 2, Some(3)))
    } else if code == 12 {
        Some((2, 1, 0, Some(3)))
    } else if code == 13 {
        Some((1, 2, 3, Some(0)))
    } else if code == 14 {
        Some((3, 2, 1, Some(0)))
    } else {
        None
    }
}

/// Frames are read in the byte order their format stands for: a format has a layout
/// exactly when it is a 32-bit packed RGB format, and the layout keeps red, green, blue
/// and alpha where the format does. So no two formats share a layout.
pub proof fn lemma_layout_matches_format(f: SpaVideoFormat, g: SpaVideoFormat)
    ensures
        layout_of(f) is Some <==> packed_rgb_order(spa_format_code(f)) is Some,
        layout_of(f) matches Some(l) ==> Some(channel_offsets(l)) == packed_rgb_order(
            spa_format_code(f),
        ),
        layout_of(f) is Some && layout_of(f) == layout_of(g) ==> f == g,
{
    lemma_spa_format_code_roundtrip(f, 0);
    lemma_spa_format_code_roundtrip(g, 0);
}

} // verus!
