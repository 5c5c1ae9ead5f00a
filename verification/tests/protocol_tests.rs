use hacam::protocol::{
    capture_action, keepalive_request, parse_camera_info, parse_camera_status,
    parse_capture_status, parse_first_byte, parse_keepalive_response, parse_ok_status,
    parse_partial_picture, parse_scsi_version, parse_thumbnail, partial_picture_request,
    read_setting_request, start_live_view_request, take_picture_request, write_setting_request,
    CaptureAction, CaptureStatus, LiveViewAssembler, LiveViewStep, PictureAssembly, ThermalStatus,
};
use hacam::settings::{LiveViewResolution, PictureOrientation, SettingType};
use hacam::commands::{
    clear_pic_buf_command, keep_alive_command, open_conn_command, power_off_camera_command,
    write_all_settings_command,
};
use hacam::CamError;

fn live_view_part(payload: &[u8], is_final: bool, thermal_code: u8) -> Vec<u8> {
    let mut d = vec![0u8; 32];
    d[1] = if is_final { 1 } else { 0 };
    d[20] = thermal_code;
    d[28..32].copy_from_slice(&(payload.len() as u32).to_le_bytes());
    d.extend_from_slice(payload);
    d
}

#[test]
fn live_view_two_part_frame() {
    let part1: Vec<u8> = (0..100).map(|i| i as u8).collect();
    let part2: Vec<u8> = (100..150).map(|i| i as u8).collect();
    let mut a = LiveViewAssembler::new();
    assert_eq!(
        a.push_response(&live_view_part(&part1, false, 0)),
        Ok(LiveViewStep::Continue)
    );
    assert_eq!(
        a.push_response(&live_view_part(&part2, true, 2)),
        Ok(LiveViewStep::Final { thermal_code: 2 })
    );
    let (thermal, frame) = a.finish(2, 77).unwrap();
    assert_eq!(thermal, ThermalStatus::OverheatHigh);
    assert_eq!(frame.duration_millis, 77);
    assert_eq!(frame.data.len(), 150);
    let expected: Vec<u8> = (0..150).map(|i| i as u8).collect();
    assert_eq!(frame.data, expected);
}

#[test]
fn live_view_rejects_short_response() {
    let mut a = LiveViewAssembler::new();
    assert_eq!(
        a.push_response(&[0u8; 31]),
        Err(CamError::InvalidLength { expected: 32, received: 31 })
    );
}

#[test]
fn live_view_rejects_understated_response() {
    // The response declares 10 payload bytes but carries none: the declared
    // length must never be trusted beyond what was received.
    let mut a = LiveViewAssembler::new();
    let mut d = vec![0u8; 32];
    d[28..32].copy_from_slice(&10u32.to_le_bytes());
    assert_eq!(
        a.push_response(&d),
        Err(CamError::InvalidLength { expected: 42, received: 32 })
    );
    // Nothing was appended.
    let trailing: Vec<u8> = vec![5, 6];
    assert_eq!(
        a.push_response(&live_view_part(&trailing, true, 0)),
        Ok(LiveViewStep::Final { thermal_code: 0 })
    );
    let (_, frame) = a.finish(0, 0).unwrap();
    assert_eq!(frame.data, trailing);
}

#[test]
fn live_view_rejects_unknown_thermal_code() {
    let a = LiveViewAssembler::new();
    assert_eq!(a.finish(9, 0), Err(CamError::InvalidFormat));
}

#[test]
fn thermal_status_codes() {
    assert_eq!(ThermalStatus::from_code(0), Some(ThermalStatus::Normal));
    assert_eq!(ThermalStatus::from_code(1), Some(ThermalStatus::OverheatLow));
    assert_eq!(ThermalStatus::from_code(2), Some(ThermalStatus::OverheatHigh));
    assert_eq!(ThermalStatus::from_code(3), Some(ThermalStatus::Cold));
    assert_eq!(ThermalStatus::from_code(255), None);
    for t in [
        ThermalStatus::Normal,
        ThermalStatus::OverheatLow,
        ThermalStatus::OverheatHigh,
        ThermalStatus::Cold,
    ] {
        assert_eq!(ThermalStatus::from_code(t.code()), Some(t));
    }
}

#[test]
fn capture_status_cases() {
    assert_eq!(parse_capture_status(&[1]), Ok(CaptureStatus::TryAgain));
    assert_eq!(parse_capture_status(&[3]), Ok(CaptureStatus::Captured));
    let mut d = vec![0u8; 9];
    d[1] = 7;
    d[2] = 0;
    d[3] = 5;
    match parse_capture_status(&d).unwrap() {
        CaptureStatus::ThumbnailAvailable {
            stored_pic_num,
            is_exposure_ready,
            picture_status,
            picture_string,
        } => {
            assert_eq!(stored_pic_num, 5);
            assert!(is_exposure_ready);
            assert_eq!(picture_status, 7);
            assert_eq!(picture_string, None);
        }
        other => panic!("expected ThumbnailAvailable, got {other:?}"),
    }
    assert_eq!(parse_capture_status(&[9]), Err(CamError::InvalidFormat));
    assert_eq!(
        parse_capture_status(&[]),
        Err(CamError::InvalidLength { expected: 1, received: 0 })
    );
    assert_eq!(
        parse_capture_status(&[0, 0, 0]),
        Err(CamError::InvalidLength { expected: 9, received: 3 })
    );
}

#[test]
fn capture_status_picture_name() {
    let mut d = vec![0u8; 12];
    d[2] = 1; // exposure not ready
    d[8] = b'I';
    d[9] = b'M';
    d[10] = b'G';
    d[11] = 0;
    match parse_capture_status(&d).unwrap() {
        CaptureStatus::ThumbnailAvailable { is_exposure_ready, picture_string, .. } => {
            assert!(!is_exposure_ready);
            assert_eq!(picture_string.as_deref(), Some("IMG"));
        }
        other => panic!("expected ThumbnailAvailable, got {other:?}"),
    }
}

fn length_prefixed(payload: &[u8], is_end: bool) -> Vec<u8> {
    let mut d = vec![0u8; 20];
    d[1] = if is_end { 1 } else { 0 };
    d[16..20].copy_from_slice(&(payload.len() as u32).to_le_bytes());
    d.extend_from_slice(payload);
    d
}

#[test]
fn thumbnail_parses_length_prefixed_payload() {
    assert_eq!(
        parse_thumbnail(&length_prefixed(&[9, 8, 7, 6], false)),
        Ok(vec![9, 8, 7, 6])
    );
    assert_eq!(
        parse_thumbnail(&[0u8; 19]),
        Err(CamError::InvalidLength { expected: 20, received: 19 })
    );
    let mut lying = vec![0u8; 20];
    lying[16..20].copy_from_slice(&5u32.to_le_bytes());
    assert_eq!(
        parse_thumbnail(&lying),
        Err(CamError::InvalidLength { expected: 25, received: 20 })
    );
}

#[test]
fn partial_picture_reports_final_flag() {
    assert_eq!(
        parse_partial_picture(&length_prefixed(&[4, 5], false)),
        Ok((vec![4, 5], false))
    );
    assert_eq!(
        parse_partial_picture(&length_prefixed(&[6], true)),
        Ok((vec![6], true))
    );
    assert_eq!(
        parse_partial_picture(&[0u8; 10]),
        Err(CamError::InvalidLength { expected: 20, received: 10 })
    );
}

#[test]
fn picture_assembly_accumulates() {
    let mut p = PictureAssembly::new();
    let cmd = p.next_request();
    assert_eq!(&cmd[..8], &[122, 5, 2, 0, 0, 0, 0, 0]);
    assert_eq!(&cmd[8..12], &0u32.to_le_bytes());
    assert_eq!(&cmd[12..16], &[0, 0, 0, 0]);
    p.append_part(&[1, 2, 3]);
    let cmd = p.next_request();
    assert_eq!(&cmd[8..12], &3u32.to_le_bytes());
    p.append_part(&[4]);
    assert_eq!(p.into_data(), vec![1, 2, 3, 4]);
}

#[test]
fn capture_actions() {
    let thumb = CaptureStatus::ThumbnailAvailable {
        stored_pic_num: 1,
        is_exposure_ready: true,
        picture_status: 0,
        picture_string: None,
    };
    assert_eq!(capture_action(&thumb, true), CaptureAction::FetchThumbnail);
    assert_eq!(capture_action(&thumb, false), CaptureAction::PollAgain);
    assert_eq!(capture_action(&CaptureStatus::TryAgain, true), CaptureAction::PollAgain);
    assert_eq!(capture_action(&CaptureStatus::Captured, false), CaptureAction::BeginTransfer);
}

#[test]
fn camera_status_decodes_thermal() {
    assert_eq!(
        parse_camera_status(&[0, 42, 0, 0, 1]),
        Ok((42, ThermalStatus::OverheatLow))
    );
    assert_eq!(parse_camera_status(&[0, 0, 0, 0, 9]), Err(CamError::InvalidFormat));
    assert_eq!(
        parse_camera_status(&[0, 0]),
        Err(CamError::InvalidLength { expected: 5, received: 2 })
    );
}

#[test]
fn camera_info_reports_version() {
    let mut d = vec![0u8; 130];
    d[97] = 118; // 'v'
    d[98] = b'1';
    d[99] = b'.';
    d[100] = b'2';
    assert_eq!(parse_camera_info(&d), Ok(Some("v1.2".to_string())));
    d[97] = 0;
    assert_eq!(parse_camera_info(&d), Ok(None));
    assert_eq!(
        parse_camera_info(&vec![0u8; 97]),
        Err(CamError::InvalidLength { expected: 98, received: 97 })
    );
}

#[test]
fn scsi_version_reports_version() {
    let mut d = vec![0u8; 33];
    d[1] = 118; // 'v'
    d[2] = b'2';
    d[3] = b'.';
    d[4] = b'0';
    assert_eq!(parse_scsi_version(&d), Ok(Some("v2.0".to_string())));
    assert_eq!(parse_scsi_version(&[0, 5]), Ok(None));
    assert_eq!(
        parse_scsi_version(&[]),
        Err(CamError::InvalidLength { expected: 1, received: 0 })
    );
    assert_eq!(
        parse_scsi_version(&[0]),
        Err(CamError::InvalidLength { expected: 2, received: 1 })
    );
}

#[test]
fn lossy_decoding_replaces_invalid_bytes() {
    // 0xFF is no valid UTF-8 byte: the decoded version string must carry
    // the replacement character, not the raw byte.
    let d = [0u8, 118, 0xFF, 0, 0];
    assert_eq!(parse_scsi_version(&d), Ok(Some("v\u{FFFD}".to_string())));
}

#[test]
fn command_customizers_set_parameter_bytes() {
    let c = start_live_view_request(LiveViewResolution::High);
    assert_eq!(c[9], 9);
    assert_eq!(c[0], 122);
    let c = start_live_view_request(LiveViewResolution::Low);
    assert_eq!(c[9], 10);
    let c = take_picture_request(PictureOrientation::Deg90);
    assert_eq!(c[8], 3);
    let c = take_picture_request(PictureOrientation::Deg180);
    assert_eq!(c[8], 0);
    let c = read_setting_request(SettingType::Filter);
    assert_eq!(c[2], 9);
    assert_eq!(c[0], 122);
    let c = write_setting_request(SettingType::Bitrate);
    assert_eq!(c[2], 12);
    assert_eq!(c[0], 123);
    let c = partial_picture_request(0x01020304);
    assert_eq!(&c[..8], &[122, 5, 2, 0, 0, 0, 0, 0]);
    assert_eq!(&c[8..12], &[4, 3, 2, 1]);
    assert_eq!(&c[12..16], &[0, 0, 0, 0]);
}

#[test]
fn keepalive_exchange() {
    let (h, check) = keepalive_request();
    assert_eq!(h.len(), 31);
    assert_eq!(&h[0..4], b"USBC");
    assert_eq!(&h[4..8], &check.to_be_bytes());
    assert_eq!(&h[8..12], &64u32.to_le_bytes());
    assert_eq!(h[12], 128);
    assert_eq!(h[14], 16);
    assert_eq!(&h[15..18], &[122, 3, 255]);
    assert_eq!(&h[18..31], &[0u8; 13]);
    assert_eq!(parse_keepalive_response(&[0, 9]), Ok(()));
    assert_eq!(
        parse_keepalive_response(&[5]),
        Err(CamError::Keepalive { status_code: 5 })
    );
    assert_eq!(
        parse_keepalive_response(&[]),
        Err(CamError::InvalidLength { expected: 1, received: 0 })
    );
}

#[test]
fn ok_status_tristate() {
    assert_eq!(parse_ok_status(&[0]), Ok(true));
    assert_eq!(parse_ok_status(&[1]), Ok(false));
    assert_eq!(parse_ok_status(&[3]), Ok(false));
    assert_eq!(parse_ok_status(&[2]), Ok(true));
    assert_eq!(
        parse_ok_status(&[]),
        Err(CamError::InvalidLength { expected: 1, received: 0 })
    );
}

#[test]
fn first_byte_payload() {
    assert_eq!(parse_first_byte(&[42, 0]), Ok(42));
    assert_eq!(
        parse_first_byte(&[]),
        Err(CamError::InvalidLength { expected: 1, received: 0 })
    );
}

#[test]
fn opcode_table_spot_checks() {
    assert_eq!(
        open_conn_command(),
        vec![122, 0, 1, 0, 0, 0, 0, 0, 0, 0, 0, 0, 0, 0, 0, 0]
    );
    assert_eq!(keep_alive_command(), vec![122, 3, 255]);
    assert_eq!(clear_pic_buf_command()[2], 133);
    assert_eq!(power_off_camera_command()[2], 240);
    assert_eq!(write_all_settings_command()[0], 123);
    assert_eq!(write_all_settings_command()[4], 48);
}
