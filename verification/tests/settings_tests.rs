use hacam::settings::{
    Bitrate, CamDateTime, CamSettings, EvValue, FilterValue, LiveViewResolution, LogoType,
    PhotoResolution, Resolution, SettingType, VideoResolution, WhiteBalance,
};

fn sample() -> CamSettings {
    CamSettings {
        photo_resolution: PhotoResolution::High,
        video_resolution: VideoResolution::Low,
        evb: EvValue::Pos1,
        wb: WhiteBalance::Cloudy,
        date_time: CamDateTime {
            year: 2024,
            month: 2,
            day: 29,
            hour: 23,
            minute: 59,
            second: 58,
            millisecond: 1234,
        },
        filter: FilterValue::Tea,
        bitrate: Bitrate::Bitrate1,
        logo_type: LogoType::NoLogo,
    }
}

#[test]
fn settings_record_layout() {
    let b = sample().to_bytes();
    assert_eq!(b.len(), 48);
    assert_eq!(b[2], 3); // photo resolution High
    assert_eq!(b[3], 10); // video resolution Low
    assert_eq!(b[6], 9); // EV +1
    assert_eq!(b[7], 2); // white balance Cloudy
    assert_eq!(u16::from_le_bytes([b[10], b[11]]), 2024);
    assert_eq!(b[12], 2);
    assert_eq!(b[13], 29);
    assert_eq!(b[14], 23);
    assert_eq!(b[15], 59);
    assert_eq!(b[16], 58);
    assert_eq!(u16::from_le_bytes([b[18], b[19]]), 1234);
    assert_eq!(b[32], 3); // filter Tea
    assert_eq!(b[35], 8); // bitrate class 1
    assert_eq!(b[39], 0); // no logo
    let populated = [2, 3, 6, 7, 10, 11, 12, 13, 14, 15, 16, 18, 19, 32, 35, 39];
    for (i, &x) in b.iter().enumerate() {
        if !populated.contains(&i) {
            assert_eq!(x, 0, "byte {i} must be zero");
        }
    }
}

#[test]
fn settings_round_trip() {
    let s = sample();
    assert_eq!(CamSettings::from_bytes(&s.to_bytes()), Some(s));
    let s2 = CamSettings {
        photo_resolution: PhotoResolution::Low,
        video_resolution: VideoResolution::Unknown,
        evb: EvValue::Neutral,
        wb: WhiteBalance::Auto,
        date_time: CamDateTime {
            year: 0,
            month: 1,
            day: 1,
            hour: 0,
            minute: 0,
            second: 0,
            millisecond: 0,
        },
        filter: FilterValue::Unfiltered,
        bitrate: Bitrate::Unset,
        logo_type: LogoType::HuaweiLogo,
    };
    assert_eq!(CamSettings::from_bytes(&s2.to_bytes()), Some(s2));
    let s3 = CamSettings {
        photo_resolution: PhotoResolution::High,
        video_resolution: VideoResolution::High,
        evb: EvValue::Neg1_67,
        wb: WhiteBalance::Fluorescent,
        date_time: CamDateTime {
            year: 65535,
            month: 12,
            day: 31,
            hour: 0,
            minute: 0,
            second: 59,
            millisecond: 1999,
        },
        filter: FilterValue::Newspaper,
        bitrate: Bitrate::Bitrate2,
        logo_type: LogoType::NoLogo,
    };
    assert_eq!(CamSettings::from_bytes(&s3.to_bytes()), Some(s3));
}

#[test]
fn settings_decode_rejects_short_buffer() {
    assert_eq!(CamSettings::from_bytes(&[0u8; 39]), None);
    assert_eq!(CamSettings::from_bytes(&[]), None);
}

#[test]
fn settings_decode_accepts_40_byte_record() {
    let mut b = vec![0u8; 40];
    b[2] = 3; // photo High; every other enumeration byte 0 is a known code
    b[3] = 9; // video High
    b[12] = 1;
    b[13] = 1;
    let s = CamSettings::from_bytes(&b).unwrap();
    assert_eq!(s.photo_resolution, PhotoResolution::High);
    assert_eq!(s.video_resolution, VideoResolution::High);
    assert_eq!(s.wb, WhiteBalance::Auto);
    assert_eq!(s.date_time.year, 0);
    assert_eq!(s.date_time.month, 1);
}

#[test]
fn settings_decode_rejects_unknown_codes() {
    let good = sample().to_bytes();
    for offset in [2usize, 3, 6, 7, 32, 35, 39] {
        let mut b = good.clone();
        b[offset] = 200;
        assert_eq!(CamSettings::from_bytes(&b), None, "offset {offset}");
    }
}

#[test]
fn settings_decode_rejects_invalid_dates() {
    let mut b = sample().to_bytes();
    b[13] = 30; // February 30th
    assert_eq!(CamSettings::from_bytes(&b), None);
    let mut b = sample().to_bytes();
    b[10..12].copy_from_slice(&2023u16.to_le_bytes()); // 2023 is no leap year
    assert_eq!(CamSettings::from_bytes(&b), None);
    let mut b = sample().to_bytes();
    b[14] = 24; // hour out of range
    assert_eq!(CamSettings::from_bytes(&b), None);
    let mut b = sample().to_bytes();
    b[12] = 0; // month 0
    assert_eq!(CamSettings::from_bytes(&b), None);
}

#[test]
fn leap_year_rule() {
    let date = |year: u16| CamDateTime {
        year,
        month: 2,
        day: 29,
        hour: 0,
        minute: 0,
        second: 0,
        millisecond: 0,
    };
    assert!(date(2024).is_valid());
    assert!(date(2000).is_valid());
    assert!(!date(1900).is_valid());
    assert!(!date(2023).is_valid());
    assert!(date(0).is_valid());
}

#[test]
fn millisecond_leap_second_bound() {
    let mut dt = sample().date_time;
    dt.millisecond = 1999;
    assert!(dt.is_valid());
    dt.millisecond = 2000;
    assert!(!dt.is_valid());
}

#[test]
fn resolutions_report_dimensions() {
    assert_eq!((LiveViewResolution::High.w(), LiveViewResolution::High.h()), (1920, 960));
    assert_eq!((LiveViewResolution::Low.w(), LiveViewResolution::Low.h()), (1280, 640));
    assert_eq!((PhotoResolution::High.w(), PhotoResolution::High.h()), (5376, 2688));
    assert_eq!((PhotoResolution::Low.w(), PhotoResolution::Low.h()), (3840, 1920));
    assert_eq!((VideoResolution::High.w(), VideoResolution::High.h()), (1920, 960));
    assert_eq!((VideoResolution::Low.w(), VideoResolution::Low.h()), (1280, 640));
    assert_eq!((VideoResolution::Unknown.w(), VideoResolution::Unknown.h()), (1280, 640));
}

#[test]
fn setting_type_codes() {
    assert_eq!(SettingType::PhotoResolution.code(), 3);
    assert_eq!(SettingType::VideoResolution.code(), 4);
    assert_eq!(SettingType::EvBalance.code(), 7);
    assert_eq!(SettingType::WhiteBalance.code(), 8);
    assert_eq!(SettingType::Filter.code(), 9);
    assert_eq!(SettingType::ShutterTime.code(), 16);
    assert_eq!(SettingType::LogoType.code(), 17);
    assert_eq!(SettingType::Bitrate.code(), 12);
}

#[test]
fn enumeration_codes_round_trip() {
    for v in [PhotoResolution::High, PhotoResolution::Low] {
        assert_eq!(PhotoResolution::from_code(v.code()), Some(v));
    }
    for v in [VideoResolution::High, VideoResolution::Low, VideoResolution::Unknown] {
        assert_eq!(VideoResolution::from_code(v.code()), Some(v));
    }
    for v in [
        EvValue::Neutral,
        EvValue::Neg2,
        EvValue::Neg1_67,
        EvValue::Neg1_33,
        EvValue::Neg1,
        EvValue::Neg0_67,
        EvValue::Neg0_33,
        EvValue::Pos0_33,
        EvValue::Pos0_67,
        EvValue::Pos1,
        EvValue::Pos1_33,
        EvValue::Pos1_67,
        EvValue::Pos2,
    ] {
        assert_eq!(EvValue::from_code(v.code()), Some(v));
    }
    for v in [
        WhiteBalance::Auto,
        WhiteBalance::Sunny,
        WhiteBalance::Cloudy,
        WhiteBalance::Tungsten,
        WhiteBalance::Fluorescent,
    ] {
        assert_eq!(WhiteBalance::from_code(v.code()), Some(v));
    }
    for v in [
        FilterValue::Unfiltered,
        FilterValue::Faded,
        FilterValue::Nimbus,
        FilterValue::Tea,
        FilterValue::Twilight,
        FilterValue::Sapphire,
        FilterValue::Vintage,
        FilterValue::Greyscale,
        FilterValue::Newspaper,
    ] {
        assert_eq!(FilterValue::from_code(v.code()), Some(v));
    }
    for v in [Bitrate::Unset, Bitrate::Bitrate0, Bitrate::Bitrate1, Bitrate::Bitrate2] {
        assert_eq!(Bitrate::from_code(v.code()), Some(v));
    }
    for v in [LogoType::HuaweiLogo, LogoType::NoLogo] {
        assert_eq!(LogoType::from_code(v.code()), Some(v));
    }
    assert_eq!(Bitrate::from_code(5), None);
    assert_eq!(EvValue::from_code(13), None);
    assert_eq!(LogoType::from_code(2), None);
}
