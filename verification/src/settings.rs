//! Camera settings: the closed enumerations behind each setting byte, the
//! date-time value embedded in the settings record, and the fixed-offset
//! 48-byte record itself.

use vstd::prelude::*;

use crate::codec::{read_le_u16, u16_of_le};

verus! {

/// A setting enumeration representing a 2D resolution.
pub trait Resolution {
    /// Width in pixels.
    spec fn w_spec(&self) -> u32;

    /// Height in pixels.
    spec fn h_spec(&self) -> u32;

    /// Gets the width.
    fn w(&self) -> (r: u32)
        ensures
            r == self.w_spec(),
    ;

    /// Gets the height.
    fn h(&self) -> (r: u32)
        ensures
            r == self.h_spec(),
    ;
}

/// Resolution of the live view stream.
#[derive(Debug, Clone, Copy, PartialEq, Eq, Structural)]
pub enum LiveViewResolution {
    /// 1280 x 640
    Low,
    /// 1920 x 960
    High,
}

impl LiveViewResolution {
    /// The on-wire code of this resolution.
    pub open spec fn code_spec(self) -> u8 {
        match self {
            LiveViewResolution::Low => 10,
            LiveViewResolution::High => 9,
        }
    }

    pub fn code(&self) -> (c: u8)
        ensures
            c == self.code_spec(),
    {
        match self {
            LiveViewResolution::Low => 10,
            LiveViewResolution::High => 9,
        }
    }
}

impl Resolution for LiveViewResolution {
    open spec fn w_spec(&self) -> u32 {
        match self {
            LiveViewResolution::High => 1920,
            LiveViewResolution::Low => 1280,
        }
    }

    open spec fn h_spec(&self) -> u32 {
        match self {
            LiveViewResolution::High => 960,
            LiveViewResolution::Low => 640,
        }
    }

    fn w(&self) -> (r: u32) {
        match self {
            LiveViewResolution::High => 1920,
            LiveViewResolution::Low => 1280,
        }
    }

    fn h(&self) -> (r: u32) {
        match self {
            LiveViewResolution::High => 960,
            LiveViewResolution::Low => 640,
        }
    }
}

/// Spherical picture orientation.
#[derive(Debug, Clone, Copy, PartialEq, Eq, Structural)]
pub enum PictureOrientation {
    /// 0°
    Deg0,
    /// 90°
    Deg90,
    /// 180°
    Deg180,
    /// 270°
    Deg270,
}

impl PictureOrientation {
    /// The on-wire code of this orientation.
    pub open spec fn code_spec(self) -> u8 {
        match self {
            PictureOrientation::Deg0 => 2,
            PictureOrientation::Deg90 => 3,
            PictureOrientation::Deg180 => 0,
            PictureOrientation::Deg270 => 1,
        }
    }

    pub fn code(&self) -> (c: u8)
        ensures
            c == self.code_spec(),
    {
        match self {
            PictureOrientation::Deg0 => 2,
            PictureOrientation::Deg90 => 3,
            PictureOrientation::Deg180 => 0,
            PictureOrientation::Deg270 => 1,
        }
    }
}

/// Resolution of a still picture.
#[derive(Debug, Clone, Copy, PartialEq, Eq, Structural)]
pub enum PhotoResolution {
    /// 5376 x 2688
    High,
    /// 3840 x 1920
    Low,
}

impl PhotoResolution {
    pub open spec fn code_spec(self) -> u8 {
        match self {
            PhotoResolution::High => 3,
            PhotoResolution::Low => 4,
        }
    }

    pub open spec fn from_code_spec(c: u8) -> Option<PhotoResolution> {
        if c == 3 {
            Some(PhotoResolution::High)
        } else if c == 4 {
            Some(PhotoResolution::Low)
        } else {
            None
        }
    }

    pub fn code(&self) -> (c: u8)
        ensures
            c == self.code_spec(),
    {
        match self {
            PhotoResolution::High => 3,
            PhotoResolution::Low => 4,
        }
    }

    /// Total decode of the on-wire code; an unmapped code is an error, not
    /// a default.
    pub fn from_code(c: u8) -> (r: Option<PhotoResolution>)
        ensures
            r == Self::from_code_spec(c),
    {
        if c == 3 {
            Some(PhotoResolution::High)
        } else if c == 4 {
            Some(PhotoResolution::Low)
        } else {
            None
        }
    }
}

impl Resolution for PhotoResolution {
    open spec fn w_spec(&self) -> u32 {
        match self {
            PhotoResolution::High => 5376,
            PhotoResolution::Low => 3840,
        }
    }

    open spec fn h_spec(&self) -> u32 {
        match self {
            PhotoResolution::High => 2688,
            PhotoResolution::Low => 1920,
        }
    }

    fn w(&self) -> (r: u32) {
        match self {
            PhotoResolution::High => 5376,
            PhotoResolution::Low => 3840,
        }
    }

    fn h(&self) -> (r: u32) {
        match self {
            PhotoResolution::High => 2688,
            PhotoResolution::Low => 1920,
        }
    }
}

/// Resolution of recorded video.
#[derive(Debug, Clone, Copy, PartialEq, Eq, Structural)]
pub enum VideoResolution {
    /// 1920 x 960
    High,
    /// 1280 x 640
    Low,
    /// Undocumented.
    Unknown,
}

impl VideoResolution {
    pub open spec fn code_spec(self) -> u8 {
        match self {
            VideoResolution::High => 9,
            VideoResolution::Low => 10,
            VideoResolution::Unknown => 11,
        }
    }

    pub open spec fn from_code_spec(c: u8) -> Option<VideoResolution> {
        if c == 9 {
            Some(VideoResolution::High)
        } else if c == 10 {
            Some(VideoResolution::Low)
        } else if c == 11 {
            Some(VideoResolution::Unknown)
        } else {
            None
        }
    }

    pub fn code(&self) -> (c: u8)
        ensures
            c == self.code_spec(),
    {
        match self {
            VideoResolution::High => 9,
            VideoResolution::Low => 10,
            VideoResolution::Unknown => 11,
        }
    }

    /// Total decode of the on-wire code.
    pub fn from_code(c: u8) -> (r: Option<VideoResolution>)
        ensures
            r == Self::from_code_spec(c),
    {
        if c == 9 {
            Some(VideoResolution::High)
        } else if c == 10 {
            Some(VideoResolution::Low)
        } else if c == 11 {
            Some(VideoResolution::Unknown)
        } else {
            None
        }
    }
}

impl Resolution for VideoResolution {
    open spec fn w_spec(&self) -> u32 {
        match self {
            VideoResolution::High => 1920,
            VideoResolution::Low => 1280,
            VideoResolution::Unknown => 1280,
        }
    }

    open spec fn h_spec(&self) -> u32 {
        match self {
            VideoResolution::High => 960,
            VideoResolution::Low => 640,
            VideoResolution::Unknown => 640,
        }
    }

    fn w(&self) -> (r: u32) {
        match self {
            VideoResolution::High => 1920,
            VideoResolution::Low => 1280,
            VideoResolution::Unknown => 1280,
        }
    }

    fn h(&self) -> (r: u32) {
        match self {
            VideoResolution::High => 960,
            VideoResolution::Low => 640,
            VideoResolution::Unknown => 640,
        }
    }
}

/// Exposure value compensation.
#[derive(Debug, Clone, Copy, PartialEq, Eq, Structural)]
pub enum EvValue {
    Neutral,
    Neg2,
    Neg1_67,
    Neg1_33,
    Neg1,
    Neg0_67,
    Neg0_33,
    Pos0_33,
    Pos0_67,
    Pos1,
    Pos1_33,
    Pos1_67,
    Pos2,
}

impl EvValue {
    pub open spec fn code_spec(self) -> u8 {
        match self {
            EvValue::Neutral => 0,
            EvValue::Neg2 => 1,
            EvValue::Neg1_67 => 2,
            EvValue::Neg1_33 => 3,
            EvValue::Neg1 => 4,
            EvValue::Neg0_67 => 5,
            EvValue::Neg0_33 => 6,
            EvValue::Pos0_33 => 7,
            EvValue::Pos0_67 => 8,
            EvValue::Pos1 => 9,
            EvValue::Pos1_33 => 10,
            EvValue::Pos1_67 => 11,
            EvValue::Pos2 => 12,
        }
    }

    pub open spec fn from_code_spec(c: u8) -> Option<EvValue> {
        if c == 0 {
            Some(EvValue::Neutral)
        } else if c == 1 {
            Some(EvValue::Neg2)
        } else if c == 2 {
            Some(EvValue::Neg1_67)
        } else if c == 3 {
            Some(EvValue::Neg1_33)
        } else if c == 4 {
            Some(EvValue::Neg1)
        } else if c == 5 {
            Some(EvValue::Neg0_67)
        } else if c == 6 {
            Some(EvValue::Neg0_33)
        } else if c == 7 {
            Some(EvValue::Pos0_33)
        } else if c == 8 {
            Some(EvValue::Pos0_67)
        } else if c == 9 {
            Some(EvValue::Pos1)
        } else if c == 10 {
            Some(EvValue::Pos1_33)
        } else if c == 11 {
            Some(EvValue::Pos1_67)
        } else if c == 12 {
            Some(EvValue::Pos2)
        } else {
            None
        }
    }

    pub fn code(&self) -> (c: u8)
        ensures
            c == self.code_spec(),
    {
        match self {
            EvValue::Neutral => 0,
            EvValue::Neg2 => 1,
            EvValue::Neg1_67 => 2,
            EvValue::Neg1_33 => 3,
            EvValue::Neg1 => 4,
            EvValue::Neg0_67 => 5,
            EvValue::Neg0_33 => 6,
            EvValue::Pos0_33 => 7,
            EvValue::Pos0_67 => 8,
            EvValue::Pos1 => 9,
            EvValue::Pos1_33 => 10,
            EvValue::Pos1_67 => 11,
            EvValue::Pos2 => 12,
        }
    }

    /// Total decode of the on-wire code.
    pub fn from_code(c: u8) -> (r: Option<EvValue>)
        ensures
            r == Self::from_code_spec(c),
    {
        if c == 0 {
            Some(EvValue::Neutral)
        } else if c == 1 {
            Some(EvValue::Neg2)
        } else if c == 2 {
            Some(EvValue::Neg1_67)
        } else if c == 3 {
            Some(EvValue::Neg1_33)
        } else if c == 4 {
            Some(EvValue::Neg1)
        } else if c == 5 {
            Some(EvValue::Neg0_67)
        } else if c == 6 {
            Some(EvValue::Neg0_33)
        } else if c == 7 {
            Some(EvValue::Pos0_33)
        } else if c == 8 {
            Some(EvValue::Pos0_67)
        } else if c == 9 {
            Some(EvValue::Pos1)
        } else if c == 10 {
            Some(EvValue::Pos1_33)
        } else if c == 11 {
            Some(EvValue::Pos1_67)
        } else if c == 12 {
            Some(EvValue::Pos2)
        } else {
            None
        }
    }
}

/// White balance preset.
#[derive(Debug, Clone, Copy, PartialEq, Eq, Structural)]
pub enum WhiteBalance {
    Auto,
    Sunny,
    Cloudy,
    Tungsten,
    Fluorescent,
}

impl WhiteBalance {
    pub open spec fn code_spec(self) -> u8 {
        match self {
            WhiteBalance::Auto => 0,
            WhiteBalance::Sunny => 1,
            WhiteBalance::Cloudy => 2,
            WhiteBalance::Tungsten => 3,
            WhiteBalance::Fluorescent => 4,
        }
    }

    pub open spec fn from_code_spec(c: u8) -> Option<WhiteBalance> {
        if c == 0 {
            Some(WhiteBalance::Auto)
        } else if c == 1 {
            Some(WhiteBalance::Sunny)
        } else if c == 2 {
            Some(WhiteBalance::Cloudy)
        } else if c == 3 {
            Some(WhiteBalance::Tungsten)
        } else if c == 4 {
            Some(WhiteBalance::Fluorescent)
        } else {
            None
        }
    }

    pub fn code(&self) -> (c: u8)
        ensures
            c == self.code_spec(),
    {
        match self {
            WhiteBalance::Auto => 0,
            WhiteBalance::Sunny => 1,
            WhiteBalance::Cloudy => 2,
            WhiteBalance::Tungsten => 3,
            WhiteBalance::Fluorescent => 4,
        }
    }

    /// Total decode of the on-wire code.
    pub fn from_code(c: u8) -> (r: Option<WhiteBalance>)
        ensures
            r == Self::from_code_spec(c),
    {
        if c == 0 {
            Some(WhiteBalance::Auto)
        } else if c == 1 {
            Some(WhiteBalance::Sunny)
        } else if c == 2 {
            Some(WhiteBalance::Cloudy)
        } else if c == 3 {
            Some(WhiteBalance::Tungsten)
        } else if c == 4 {
            Some(WhiteBalance::Fluorescent)
        } else {
            None
        }
    }
}

/// Camera color filter.
#[derive(Debug, Clone, Copy, PartialEq, Eq, Structural)]
pub enum FilterValue {
    Unfiltered,
    Faded,
    Nimbus,
    Tea,
    Twilight,
    Sapphire,
    Vintage,
    Greyscale,
    Newspaper,
}

impl FilterValue {
    pub open spec fn code_spec(self) -> u8 {
        match self {
            FilterValue::Unfiltered => 0,
            FilterValue::Faded => 1,
            FilterValue::Nimbus => 2,
            FilterValue::Tea => 3,
            FilterValue::Twilight => 4,
            FilterValue::Sapphire => 5,
            FilterValue::Vintage => 6,
            FilterValue::Greyscale => 7,
            FilterValue::Newspaper => 8,
        }
    }

    pub open spec fn from_code_spec(c: u8) -> Option<FilterValue> {
        if c == 0 {
            Some(FilterValue::Unfiltered)
        } else if c == 1 {
            Some(FilterValue::Faded)
        } else if c == 2 {
            Some(FilterValue::Nimbus)
        } else if c == 3 {
            Some(FilterValue::Tea)
        } else if c == 4 {
            Some(FilterValue::Twilight)
        } else if c == 5 {
            Some(FilterValue::Sapphire)
        } else if c == 6 {
            Some(FilterValue::Vintage)
        } else if c == 7 {
            Some(FilterValue::Greyscale)
        } else if c == 8 {
            Some(FilterValue::Newspaper)
        } else {
            None
        }
    }

    pub fn code(&self) -> (c: u8)
        ensures
            c == self.code_spec(),
    {
        match self {
            FilterValue::Unfiltered => 0,
            FilterValue::Faded => 1,
            FilterValue::Nimbus => 2,
            FilterValue::Tea => 3,
            FilterValue::Twilight => 4,
            FilterValue::Sapphire => 5,
            FilterValue::Vintage => 6,
            FilterValue::Greyscale => 7,
            FilterValue::Newspaper => 8,
        }
    }

    /// Total decode of the on-wire code.
    pub fn from_code(c: u8) -> (r: Option<FilterValue>)
        ensures
            r == Self::from_code_spec(c),
    {
        if c == 0 {
            Some(FilterValue::Unfiltered)
        } else if c == 1 {
            Some(FilterValue::Faded)
        } else if c == 2 {
            Some(FilterValue::Nimbus)
        } else if c == 3 {
            Some(FilterValue::Tea)
        } else if c == 4 {
            Some(FilterValue::Twilight)
        } else if c == 5 {
            Some(FilterValue::Sapphire)
        } else if c == 6 {
            Some(FilterValue::Vintage)
        } else if c == 7 {
            Some(FilterValue::Greyscale)
        } else if c == 8 {
            Some(FilterValue::Newspaper)
        } else {
            None
        }
    }
}

/// Logo superimposed on the picture.
#[derive(Debug, Clone, Copy, PartialEq, Eq, Structural)]
pub enum LogoType {
    HuaweiLogo,
    NoLogo,
}

impl LogoType {
    pub open spec fn code_spec(self) -> u8 {
        match self {
            LogoType::HuaweiLogo => 1,
            LogoType::NoLogo => 0,
        }
    }

    pub open spec fn from_code_spec(c: u8) -> Option<LogoType> {
        if c == 1 {
            Some(LogoType::HuaweiLogo)
        } else if c == 0 {
            Some(LogoType::NoLogo)
        } else {
            None
        }
    }

    pub fn code(&self) -> (c: u8)
        ensures
            c == self.code_spec(),
    {
        match self {
            LogoType::HuaweiLogo => 1,
            LogoType::NoLogo => 0,
        }
    }

    /// Total decode of the on-wire code.
    pub fn from_code(c: u8) -> (r: Option<LogoType>)
        ensures
            r == Self::from_code_spec(c),
    {
        if c == 1 {
            Some(LogoType::HuaweiLogo)
        } else if c == 0 {
            Some(LogoType::NoLogo)
        } else {
            None
        }
    }
}

/// Video bitrate class.
#[derive(Debug, Clone, Copy, PartialEq, Eq, Structural)]
pub enum Bitrate {
    Unset,
    Bitrate0,
    Bitrate1,
    Bitrate2,
}

impl Bitrate {
    pub open spec fn code_spec(self) -> u8 {
        match self {
            Bitrate::Unset => 0,
            Bitrate::Bitrate0 => 4,
            Bitrate::Bitrate1 => 8,
            Bitrate::Bitrate2 => 16,
        }
    }

    pub open spec fn from_code_spec(c: u8) -> Option<Bitrate> {
        if c == 0 {
            Some(Bitrate::Unset)
        } else if c == 4 {
            Some(Bitrate::Bitrate0)
        } else if c == 8 {
            Some(Bitrate::Bitrate1)
        } else if c == 16 {
            Some(Bitrate::Bitrate2)
        } else {
            None
        }
    }

    pub fn code(&self) -> (c: u8)
        ensures
            c == self.code_spec(),
    {
        match self {
            Bitrate::Unset => 0,
            Bitrate::Bitrate0 => 4,
            Bitrate::Bitrate1 => 8,
            Bitrate::Bitrate2 => 16,
        }
    }

    /// Total decode of the on-wire code.
    pub fn from_code(c: u8) -> (r: Option<Bitrate>)
        ensures
            r == Self::from_code_spec(c),
    {
        if c == 0 {
            Some(Bitrate::Unset)
        } else if c == 4 {
            Some(Bitrate::Bitrate0)
        } else if c == 8 {
            Some(Bitrate::Bitrate1)
        } else if c == 16 {
            Some(Bitrate::Bitrate2)
        } else {
            None
        }
    }
}

/// A single addressable setting, as carried in byte 2 of the single-setting
/// read and write opcodes.
#[derive(Debug, Clone, Copy, PartialEq, Eq, Structural)]
pub enum SettingType {
    PhotoResolution,
    VideoResolution,
    EvBalance,
    WhiteBalance,
    Filter,
    ShutterTime,
    LogoType,
    Bitrate,
}

impl SettingType {
    pub open spec fn code_spec(self) -> u8 {
        match self {
            SettingType::PhotoResolution => 3,
            SettingType::VideoResolution => 4,
            SettingType::EvBalance => 7,
            SettingType::WhiteBalance => 8,
            SettingType::Filter => 9,
            SettingType::ShutterTime => 16,
            SettingType::LogoType => 17,
            SettingType::Bitrate => 12,
        }
    }

    pub fn code(&self) -> (c: u8)
        ensures
            c == self.code_spec(),
    {
        match self {
            SettingType::PhotoResolution => 3,
            SettingType::VideoResolution => 4,
            SettingType::EvBalance => 7,
            SettingType::WhiteBalance => 8,
            SettingType::Filter => 9,
            SettingType::ShutterTime => 16,
            SettingType::LogoType => 17,
            SettingType::Bitrate => 12,
        }
    }
}

/// A calendar date and time of day, as embedded in the settings record:
/// a 16-bit year, month, day, hour, minute, second, and milliseconds. A
/// millisecond count of 1000 or more represents a leap second.
#[derive(Debug, Clone, Copy, PartialEq, Eq, Structural)]
pub struct CamDateTime {
    pub year: u16,
    pub month: u8,
    pub day: u8,
    pub hour: u8,
    pub minute: u8,
    pub second: u8,
    pub millisecond: u16,
}

/// Proleptic Gregorian leap year rule.
pub open spec fn is_leap_year(year: u16) -> bool {
    year % 4 == 0 && (year % 100 != 0 || year % 400 == 0)
}

/// Number of days in a month of the proleptic Gregorian calendar.
pub open spec fn days_in_month(year: u16, month: u8) -> u8
    recommends
        1 <= month <= 12,
{
    if month == 2 {
        if is_leap_year(year) {
            29
        } else {
            28
        }
    } else if month == 4 || month == 6 || month == 9 || month == 11 {
        30
    } else {
        31
    }
}

/// Number of days in a month, executable form.
pub fn month_length(year: u16, month: u8) -> (d: u8)
    ensures
        d == days_in_month(year, month),
{
    if month == 2 {
        if year % 4 == 0 && (year % 100 != 0 || year % 400 == 0) {
            29
        } else {
            28
        }
    } else if month == 4 || month == 6 || month == 9 || month == 11 {
        30
    } else {
        31
    }
}

impl CamDateTime {
    /// A well-formed calendar date and time of day.
    pub open spec fn valid(&self) -> bool {
        &&& 1 <= self.month <= 12
        &&& 1 <= self.day <= days_in_month(self.year, self.month)
        &&& self.hour < 24
        &&& self.minute < 60
        &&& self.second < 60
        &&& self.millisecond < 2000
    }

    /// Decides well-formedness.
    pub fn is_valid(&self) -> (b: bool)
        ensures
            b == self.valid(),
    {
        1 <= self.month && self.month <= 12 && 1 <= self.day && self.day <= month_length(
            self.year,
            self.month,
        ) && self.hour < 24 && self.minute < 60 && self.second < 60 && self.millisecond < 2000
    }
}

/// The full device configuration, packed to and from the 48-byte record.
#[derive(Debug, Clone, Copy, PartialEq, Eq, Structural)]
pub struct CamSettings {
    pub photo_resolution: PhotoResolution,
    pub video_resolution: VideoResolution,
    pub evb: EvValue,
    pub wb: WhiteBalance,
    pub date_time: CamDateTime,
    pub filter: FilterValue,
    pub bitrate: Bitrate,
    pub logo_type: LogoType,
}

/// The byte stored at offset `i` of the 48-byte settings record: only the
/// documented offsets are populated, every other byte is zero.
pub open spec fn settings_byte_at(s: CamSettings, i: int) -> u8 {
    if i == 2 {
        s.photo_resolution.code_spec()
    } else if i == 3 {
        s.video_resolution.code_spec()
    } else if i == 6 {
        s.evb.code_spec()
    } else if i == 7 {
        s.wb.code_spec()
    } else if i == 10 {
        (s.date_time.year & 0xff) as u8
    } else if i == 11 {
        ((s.date_time.year >> 8) & 0xff) as u8
    } else if i == 12 {
        s.date_time.month
    } else if i == 13 {
        s.date_time.day
    } else if i == 14 {
        s.date_time.hour
    } else if i == 15 {
        s.date_time.minute
    } else if i == 16 {
        s.date_time.second
    } else if i == 18 {
        (s.date_time.millisecond & 0xff) as u8
    } else if i == 19 {
        ((s.date_time.millisecond >> 8) & 0xff) as u8
    } else if i == 32 {
        s.filter.code_spec()
    } else if i == 35 {
        s.bitrate.code_spec()
    } else if i == 39 {
        s.logo_type.code_spec()
    } else {
        0
    }
}

/// The 48-byte on-wire settings record of `s`.
pub open spec fn settings_bytes(s: CamSettings) -> Seq<u8> {
    Seq::new(48, |i: int| settings_byte_at(s, i))
}

/// The date-time value stored at the fixed offsets of a settings record.
pub open spec fn decoded_date_time(data: Seq<u8>) -> CamDateTime
    recommends
        data.len() >= 40,
{
    CamDateTime {
        year: u16_of_le(data.subrange(10, 12)),
        month: data[12],
        day: data[13],
        hour: data[14],
        minute: data[15],
        second: data[16],
        millisecond: u16_of_le(data.subrange(18, 20)),
    }
}

/// Whether a buffer decodes as a settings record: it is at least 40 bytes
/// long, every enumeration byte maps to a known code, and the embedded
/// date-time fields form a valid calendar date and time.
pub open spec fn settings_decode_ok(data: Seq<u8>) -> bool {
    &&& data.len() >= 40
    &&& PhotoResolution::from_code_spec(data[2]) is Some
    &&& VideoResolution::from_code_spec(data[3]) is Some
    &&& EvValue::from_code_spec(data[6]) is Some
    &&& WhiteBalance::from_code_spec(data[7]) is Some
    &&& decoded_date_time(data).valid()
    &&& FilterValue::from_code_spec(data[32]) is Some
    &&& Bitrate::from_code_spec(data[35]) is Some
    &&& LogoType::from_code_spec(data[39]) is Some
}

/// The settings value stored in a record that decodes.
pub open spec fn decoded_settings(data: Seq<u8>) -> CamSettings
    recommends
        settings_decode_ok(data),
{
    CamSettings {
        photo_resolution: PhotoResolution::from_code_spec(data[2])->0,
        video_resolution: VideoResolution::from_code_spec(data[3])->0,
        evb: EvValue::from_code_spec(data[6])->0,
        wb: WhiteBalance::from_code_spec(data[7])->0,
        date_time: decoded_date_time(data),
        filter: FilterValue::from_code_spec(data[32])->0,
        bitrate: Bitrate::from_code_spec(data[35])->0,
        logo_type: LogoType::from_code_spec(data[39])->0,
    }
}

impl CamSettings {
    /// Packs the settings into the 48-byte record: exactly 48 bytes,
    /// zero-filled except at the documented offsets.
    pub fn to_bytes(&self) -> (r: Vec<u8>)
        ensures
            r@ == settings_bytes(*self),
            r@.len() == 48,
    {
        let mut bfr: Vec<u8> = vec![0u8; 48];
        proof {
            let y = self.date_time.year;
            let ms = self.date_time.millisecond;
            assert(y & 0xff < 256 && (y >> 8) & 0xff < 256 && ms & 0xff < 256 && (ms >> 8) & 0xff
                < 256) by (bit_vector);
        }
        bfr.set(2, self.photo_resolution.code());
        bfr.set(3, self.video_resolution.code());
        bfr.set(6, self.evb.code());
        bfr.set(7, self.wb.code());
        bfr.set(10, (self.date_time.year & 0xff) as u8);
        bfr.set(11, ((self.date_time.year >> 8) & 0xff) as u8);
        bfr.set(12, self.date_time.month);
        bfr.set(13, self.date_time.day);
        bfr.set(14, self.date_time.hour);
        bfr.set(15, self.date_time.minute);
        bfr.set(16, self.date_time.second);
        bfr.set(18, (self.date_time.millisecond & 0xff) as u8);
        bfr.set(19, ((self.date_time.millisecond >> 8) & 0xff) as u8);
        bfr.set(32, self.filter.code());
        bfr.set(35, self.bitrate.code());
        bfr.set(39, self.logo_type.code());
        proof {
            assert(bfr@ =~= settings_bytes(*self));
        }
        bfr
    }

    /// Unpacks a settings record. Fails — never panics — on a buffer
    /// shorter than 40 bytes, on any enumeration byte that maps to no known
    /// code, and on date-time fields that form no valid calendar date.
    pub fn from_bytes(data: &[u8]) -> (r: Option<CamSettings>)
        ensures
            r is Some <==> settings_decode_ok(data@),
            settings_decode_ok(data@) ==> r == Some(decoded_settings(data@)),
    {
        if data.len() < 40 {
            return None;
        }
        let photo_resolution = match PhotoResolution::from_code(data[2]) {
            Some(v) => v,
            None => { return None; },
        };
        let video_resolution = match VideoResolution::from_code(data[3]) {
            Some(v) => v,
            None => { return None; },
        };
        let evb = match EvValue::from_code(data[6]) {
            Some(v) => v,
            None => { return None; },
        };
        let wb = match WhiteBalance::from_code(data[7]) {
            Some(v) => v,
            None => { return None; },
        };
        let date_time = CamDateTime {
            year: read_le_u16(data, 10),
            month: data[12],
            day: data[13],
            hour: data[14],
            minute: data[15],
            second: data[16],
            millisecond: read_le_u16(data, 18),
        };
        proof {
            assert(date_time == decoded_date_time(data@));
        }
        if !date_time.is_valid() {
            return None;
        }
        let filter = match FilterValue::from_code(data[32]) {
            Some(v) => v,
            None => { return None; },
        };
        let bitrate = match Bitrate::from_code(data[35]) {
            Some(v) => v,
            None => { return None; },
        };
        let logo_type = match LogoType::from_code(data[39]) {
            Some(v) => v,
            None => { return None; },
        };
        Some(
            CamSettings {
                photo_resolution,
                video_resolution,
                evb,
                wb,
                date_time,
                filter,
                bitrate,
                logo_type,
            },
        )
    }
}

/// Settings round-trip law: packing any settings value whose date-time is a
/// valid calendar date and unpacking the resulting record yields the same
/// value, for every combination of the enumerated fields.
pub proof fn lemma_settings_round_trip(s: CamSettings)
    requires
        s.date_time.valid(),
    ensures
        settings_decode_ok(settings_bytes(s)),
        decoded_settings(settings_bytes(s)) == s,
{
    let data = settings_bytes(s);
    let y = s.date_time.year;
    let ms = s.date_time.millisecond;
    assert(data.subrange(10, 12) =~= seq![(y & 0xff) as u8, ((y >> 8) & 0xff) as u8]);
    assert(data.subrange(18, 20) =~= seq![(ms & 0xff) as u8, ((ms >> 8) & 0xff) as u8]);
    assert((((y & 0xff) as u8) as u16) | ((((y >> 8) & 0xff) as u8) as u16) << 8 == y)
        by (bit_vector);
    assert((((ms & 0xff) as u8) as u16) | ((((ms >> 8) & 0xff) as u8) as u16) << 8 == ms)
        by (bit_vector);
    assert(decoded_date_time(data) == s.date_time);
}

} // verus!
