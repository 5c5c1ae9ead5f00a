//! The fixed opcode table of the device's command set.
//!
//! Each opcode is a 16-byte buffer (the keepalive opcode is 3 bytes) that
//! selects one device operation. These byte sequences are part of the wire
//! contract and are reproduced exactly.

use vstd::prelude::*;

verus! {

pub open spec fn open_conn_opcode() -> Seq<u8> {
    seq![122u8, 0u8, 1u8, 0u8, 0u8, 0u8, 0u8, 0u8, 0u8, 0u8, 0u8, 0u8, 0u8, 0u8, 0u8, 0u8]
}

/// Opcode of the connection-open handshake.
pub fn open_conn_command() -> (r: Vec<u8>)
    ensures
        r@ == open_conn_opcode(),
{
    let r = vec![122u8, 0u8, 1u8, 0u8, 0u8, 0u8, 0u8, 0u8, 0u8, 0u8, 0u8, 0u8, 0u8, 0u8, 0u8, 0u8];
    proof {
        assert(r@ =~= open_conn_opcode());
    }
    r
}

pub open spec fn keep_alive_opcode() -> Seq<u8> {
    seq![122u8, 3u8, 255u8]
}

/// Opcode of the keepalive exchange (3 bytes; the header pads it).
pub fn keep_alive_command() -> (r: Vec<u8>)
    ensures
        r@ == keep_alive_opcode(),
{
    let r = vec![122u8, 3u8, 255u8];
    proof {
        assert(r@ =~= keep_alive_opcode());
    }
    r
}

pub open spec fn get_camera_status_opcode() -> Seq<u8> {
    seq![122u8, 3u8, 48u8, 0u8, 0u8, 0u8, 0u8, 0u8, 0u8, 0u8, 0u8, 0u8, 0u8, 0u8, 0u8, 0u8]
}

/// Opcode of the camera-status query.
pub fn get_camera_status_command() -> (r: Vec<u8>)
    ensures
        r@ == get_camera_status_opcode(),
{
    let r = vec![122u8, 3u8, 48u8, 0u8, 0u8, 0u8, 0u8, 0u8, 0u8, 0u8, 0u8, 0u8, 0u8, 0u8, 0u8, 0u8];
    proof {
        assert(r@ =~= get_camera_status_opcode());
    }
    r
}

pub open spec fn get_scsi_version_opcode() -> Seq<u8> {
    seq![122u8, 3u8, 2u8, 0u8, 0u8, 0u8, 0u8, 0u8, 118u8, 50u8, 46u8, 48u8, 48u8, 48u8, 48u8, 0u8]
}

/// Opcode of the SCSI-version query.
pub fn get_scsi_version_command() -> (r: Vec<u8>)
    ensures
        r@ == get_scsi_version_opcode(),
{
    let r = vec![
        122u8,
        3u8,
        2u8,
        0u8,
        0u8,
        0u8,
        0u8,
        0u8,
        118u8,
        50u8,
        46u8,
        48u8,
        48u8,
        48u8,
        48u8,
        0u8,
    ];
    proof {
        assert(r@ =~= get_scsi_version_opcode());
    }
    r
}

pub open spec fn start_live_view_opcode() -> Seq<u8> {
    seq![122u8, 1u8, 1u8, 0u8, 0u8, 0u8, 0u8, 0u8, 0u8, 10u8, 0u8, 0u8, 0u8, 0u8, 0u8, 0u8]
}

/// Base opcode for starting the live view stream; byte 9 carries the
/// resolution code.
pub fn start_live_view_command() -> (r: Vec<u8>)
    ensures
        r@ == start_live_view_opcode(),
{
    let r = vec![122u8, 1u8, 1u8, 0u8, 0u8, 0u8, 0u8, 0u8, 0u8, 10u8, 0u8, 0u8, 0u8, 0u8, 0u8, 0u8];
    proof {
        assert(r@ =~= start_live_view_opcode());
    }
    r
}

pub open spec fn get_live_view_frame_opcode() -> Seq<u8> {
    seq![122u8, 5u8, 1u8, 0u8, 0u8, 0u8, 0u8, 0u8, 0u8, 0u8, 0u8, 0u8, 0u8, 0u8, 0u8, 0u8]
}

/// Opcode that requests the next live view frame part.
pub fn get_live_view_frame_command() -> (r: Vec<u8>)
    ensures
        r@ == get_live_view_frame_opcode(),
{
    let r = vec![122u8, 5u8, 1u8, 0u8, 0u8, 0u8, 0u8, 0u8, 0u8, 0u8, 0u8, 0u8, 0u8, 0u8, 0u8, 0u8];
    proof {
        assert(r@ =~= get_live_view_frame_opcode());
    }
    r
}

pub open spec fn check_live_view_status_opcode() -> Seq<u8> {
    seq![122u8, 2u8, 1u8, 0u8, 0u8, 0u8, 0u8, 0u8, 0u8, 0u8, 0u8, 0u8, 0u8, 0u8, 0u8, 0u8]
}

/// Opcode of the live-view status query.
pub fn check_live_view_status_command() -> (r: Vec<u8>)
    ensures
        r@ == check_live_view_status_opcode(),
{
    let r = vec![122u8, 2u8, 1u8, 0u8, 0u8, 0u8, 0u8, 0u8, 0u8, 0u8, 0u8, 0u8, 0u8, 0u8, 0u8, 0u8];
    proof {
        assert(r@ =~= check_live_view_status_opcode());
    }
    r
}

pub open spec fn stop_live_view_opcode() -> Seq<u8> {
    seq![122u8, 1u8, 2u8, 0u8, 0u8, 0u8, 0u8, 0u8, 0u8, 0u8, 0u8, 0u8, 0u8, 0u8, 0u8, 0u8]
}

/// Opcode that stops the live view stream.
pub fn stop_live_view_command() -> (r: Vec<u8>)
    ensures
        r@ == stop_live_view_opcode(),
{
    let r = vec![122u8, 1u8, 2u8, 0u8, 0u8, 0u8, 0u8, 0u8, 0u8, 0u8, 0u8, 0u8, 0u8, 0u8, 0u8, 0u8];
    proof {
        assert(r@ =~= stop_live_view_opcode());
    }
    r
}

pub open spec fn check_live_view_stop_status_opcode() -> Seq<u8> {
    seq![122u8, 2u8, 2u8, 0u8, 0u8, 0u8, 0u8, 0u8, 0u8, 0u8, 0u8, 0u8, 0u8, 0u8, 0u8, 0u8]
}

/// Opcode of the live-view stop-request status query.
pub fn check_live_view_stop_status_command() -> (r: Vec<u8>)
    ensures
        r@ == check_live_view_stop_status_opcode(),
{
    let r = vec![122u8, 2u8, 2u8, 0u8, 0u8, 0u8, 0u8, 0u8, 0u8, 0u8, 0u8, 0u8, 0u8, 0u8, 0u8, 0u8];
    proof {
        assert(r@ =~= check_live_view_stop_status_opcode());
    }
    r
}

pub open spec fn read_pic_buf_opcode() -> Seq<u8> {
    seq![122u8, 5u8, 2u8, 0u8, 0u8, 0u8, 0u8, 0u8, 0u8, 0u8, 0u8, 0u8, 0u8, 0u8, 0u8, 0u8]
}

/// Base opcode for reading the picture buffer; bytes 8..12 carry the
/// little-endian count of bytes already received.
pub fn read_pic_buf_command() -> (r: Vec<u8>)
    ensures
        r@ == read_pic_buf_opcode(),
{
    let r = vec![122u8, 5u8, 2u8, 0u8, 0u8, 0u8, 0u8, 0u8, 0u8, 0u8, 0u8, 0u8, 0u8, 0u8, 0u8, 0u8];
    proof {
        assert(r@ =~= read_pic_buf_opcode());
    }
    r
}

pub open spec fn take_picture_opcode() -> Seq<u8> {
    seq![122u8, 1u8, 5u8, 0u8, 0u8, 0u8, 0u8, 0u8, 2u8, 0u8, 0u8, 0u8, 0u8, 0u8, 0u8, 0u8]
}

/// Base opcode for taking a picture; byte 8 carries the orientation code.
pub fn take_picture_command() -> (r: Vec<u8>)
    ensures
        r@ == take_picture_opcode(),
{
    let r = vec![122u8, 1u8, 5u8, 0u8, 0u8, 0u8, 0u8, 0u8, 2u8, 0u8, 0u8, 0u8, 0u8, 0u8, 0u8, 0u8];
    proof {
        assert(r@ =~= take_picture_opcode());
    }
    r
}

pub open spec fn get_pic_thumbnail_opcode() -> Seq<u8> {
    seq![122u8, 5u8, 3u8, 0u8, 0u8, 0u8, 0u8, 0u8, 0u8, 0u8, 0u8, 0u8, 0u8, 0u8, 0u8, 0u8]
}

/// Opcode that fetches the thumbnail of the most recent capture.
pub fn get_pic_thumbnail_command() -> (r: Vec<u8>)
    ensures
        r@ == get_pic_thumbnail_opcode(),
{
    let r = vec![122u8, 5u8, 3u8, 0u8, 0u8, 0u8, 0u8, 0u8, 0u8, 0u8, 0u8, 0u8, 0u8, 0u8, 0u8, 0u8];
    proof {
        assert(r@ =~= get_pic_thumbnail_opcode());
    }
    r
}

pub open spec fn clear_pic_buf_opcode() -> Seq<u8> {
    seq![122u8, 1u8, 133u8, 0u8, 0u8, 0u8, 0u8, 0u8, 0u8, 0u8, 0u8, 0u8, 0u8, 0u8, 0u8, 0u8]
}

/// Opcode that clears the device's picture buffer.
pub fn clear_pic_buf_command() -> (r: Vec<u8>)
    ensures
        r@ == clear_pic_buf_opcode(),
{
    let r = vec![122u8, 1u8, 133u8, 0u8, 0u8, 0u8, 0u8, 0u8, 0u8, 0u8, 0u8, 0u8, 0u8, 0u8, 0u8, 0u8];
    proof {
        assert(r@ =~= clear_pic_buf_opcode());
    }
    r
}

pub open spec fn check_capture_status_opcode() -> Seq<u8> {
    seq![122u8, 2u8, 5u8, 0u8, 0u8, 0u8, 0u8, 0u8, 0u8, 0u8, 0u8, 0u8, 0u8, 0u8, 0u8, 0u8]
}

/// Opcode of the capture-status poll.
pub fn check_capture_status_command() -> (r: Vec<u8>)
    ensures
        r@ == check_capture_status_opcode(),
{
    let r = vec![122u8, 2u8, 5u8, 0u8, 0u8, 0u8, 0u8, 0u8, 0u8, 0u8, 0u8, 0u8, 0u8, 0u8, 0u8, 0u8];
    proof {
        assert(r@ =~= check_capture_status_opcode());
    }
    r
}

pub open spec fn get_remaining_pic_num_opcode() -> Seq<u8> {
    seq![122u8, 3u8, 53u8, 0u8, 0u8, 0u8, 0u8, 0u8, 0u8, 0u8, 0u8, 0u8, 0u8, 0u8, 0u8, 0u8]
}

/// Opcode that queries how many pictures remain to be read.
pub fn get_remaining_pic_num_command() -> (r: Vec<u8>)
    ensures
        r@ == get_remaining_pic_num_opcode(),
{
    let r = vec![122u8, 3u8, 53u8, 0u8, 0u8, 0u8, 0u8, 0u8, 0u8, 0u8, 0u8, 0u8, 0u8, 0u8, 0u8, 0u8];
    proof {
        assert(r@ =~= get_remaining_pic_num_opcode());
    }
    r
}

pub open spec fn read_all_settings_opcode() -> Seq<u8> {
    seq![122u8, 4u8, 96u8, 0u8, 0u8, 0u8, 0u8, 0u8, 0u8, 0u8, 0u8, 0u8, 0u8, 0u8, 0u8, 0u8]
}

/// Opcode that reads the full settings record.
pub fn read_all_settings_command() -> (r: Vec<u8>)
    ensures
        r@ == read_all_settings_opcode(),
{
    let r = vec![122u8, 4u8, 96u8, 0u8, 0u8, 0u8, 0u8, 0u8, 0u8, 0u8, 0u8, 0u8, 0u8, 0u8, 0u8, 0u8];
    proof {
        assert(r@ =~= read_all_settings_opcode());
    }
    r
}

pub open spec fn write_all_settings_opcode() -> Seq<u8> {
    seq![123u8, 4u8, 96u8, 0u8, 48u8, 0u8, 0u8, 0u8, 0u8, 0u8, 0u8, 0u8, 0u8, 0u8, 0u8, 0u8]
}

/// Opcode that writes the full 48-byte settings record.
pub fn write_all_settings_command() -> (r: Vec<u8>)
    ensures
        r@ == write_all_settings_opcode(),
{
    let r = vec![123u8, 4u8, 96u8, 0u8, 48u8, 0u8, 0u8, 0u8, 0u8, 0u8, 0u8, 0u8, 0u8, 0u8, 0u8, 0u8];
    proof {
        assert(r@ =~= write_all_settings_opcode());
    }
    r
}

pub open spec fn get_camera_info_opcode() -> Seq<u8> {
    seq![122u8, 3u8, 1u8, 0u8, 0u8, 0u8, 0u8, 0u8, 55u8, 46u8, 55u8, 50u8, 46u8, 48u8, 48u8, 0u8]
}

/// Opcode of the camera-information query.
pub fn get_camera_info_command() -> (r: Vec<u8>)
    ensures
        r@ == get_camera_info_opcode(),
{
    let r = vec![
        122u8,
        3u8,
        1u8,
        0u8,
        0u8,
        0u8,
        0u8,
        0u8,
        55u8,
        46u8,
        55u8,
        50u8,
        46u8,
        48u8,
        48u8,
        0u8,
    ];
    proof {
        assert(r@ =~= get_camera_info_opcode());
    }
    r
}

pub open spec fn power_off_camera_opcode() -> Seq<u8> {
    seq![122u8, 1u8, 240u8, 0u8, 0u8, 0u8, 0u8, 0u8, 0u8, 0u8, 0u8, 0u8, 0u8, 0u8, 0u8, 0u8]
}

/// Opcode that powers the camera off.
pub fn power_off_camera_command() -> (r: Vec<u8>)
    ensures
        r@ == power_off_camera_opcode(),
{
    let r = vec![122u8, 1u8, 240u8, 0u8, 0u8, 0u8, 0u8, 0u8, 0u8, 0u8, 0u8, 0u8, 0u8, 0u8, 0u8, 0u8];
    proof {
        assert(r@ =~= power_off_camera_opcode());
    }
    r
}

pub open spec fn write_general_setting_opcode() -> Seq<u8> {
    seq![123u8, 4u8, 0u8, 0u8, 1u8, 0u8, 0u8, 0u8, 0u8, 0u8, 0u8, 0u8, 0u8, 0u8, 0u8, 0u8]
}

/// Base opcode for writing one setting; byte 2 carries the setting code.
pub fn write_general_setting_command() -> (r: Vec<u8>)
    ensures
        r@ == write_general_setting_opcode(),
{
    let r = vec![123u8, 4u8, 0u8, 0u8, 1u8, 0u8, 0u8, 0u8, 0u8, 0u8, 0u8, 0u8, 0u8, 0u8, 0u8, 0u8];
    proof {
        assert(r@ =~= write_general_setting_opcode());
    }
    r
}

pub open spec fn read_general_setting_opcode() -> Seq<u8> {
    seq![122u8, 4u8, 0u8, 0u8, 0u8, 0u8, 0u8, 0u8, 0u8, 0u8, 0u8, 0u8, 0u8, 0u8, 0u8, 0u8]
}

/// Base opcode for reading one setting; byte 2 carries the setting code.
pub fn read_general_setting_command() -> (r: Vec<u8>)
    ensures
        r@ == read_general_setting_opcode(),
{
    let r = vec![122u8, 4u8, 0u8, 0u8, 0u8, 0u8, 0u8, 0u8, 0u8, 0u8, 0u8, 0u8, 0u8, 0u8, 0u8, 0u8];
    proof {
        assert(r@ =~= read_general_setting_opcode());
    }
    r
}

pub open spec fn start_recording_opcode() -> Seq<u8> {
    seq![122u8, 1u8, 3u8, 0u8, 0u8, 0u8, 0u8, 0u8, 0u8, 0u8, 0u8, 0u8, 0u8, 0u8, 0u8, 0u8]
}

/// Opcode that starts video recording.
pub fn start_recording_command() -> (r: Vec<u8>)
    ensures
        r@ == start_recording_opcode(),
{
    let r = vec![122u8, 1u8, 3u8, 0u8, 0u8, 0u8, 0u8, 0u8, 0u8, 0u8, 0u8, 0u8, 0u8, 0u8, 0u8, 0u8];
    proof {
        assert(r@ =~= start_recording_opcode());
    }
    r
}

pub open spec fn check_start_recording_opcode() -> Seq<u8> {
    seq![122u8, 2u8, 3u8, 0u8, 0u8, 0u8, 0u8, 0u8, 0u8, 0u8, 0u8, 0u8, 0u8, 0u8, 0u8, 0u8]
}

/// Opcode of the recording-start status query.
pub fn check_start_recording_command() -> (r: Vec<u8>)
    ensures
        r@ == check_start_recording_opcode(),
{
    let r = vec![122u8, 2u8, 3u8, 0u8, 0u8, 0u8, 0u8, 0u8, 0u8, 0u8, 0u8, 0u8, 0u8, 0u8, 0u8, 0u8];
    proof {
        assert(r@ =~= check_start_recording_opcode());
    }
    r
}

pub open spec fn stop_recording_opcode() -> Seq<u8> {
    seq![122u8, 1u8, 4u8, 0u8, 0u8, 0u8, 0u8, 0u8, 0u8, 0u8, 0u8, 0u8, 0u8, 0u8, 0u8, 0u8]
}

/// Opcode that stops video recording.
pub fn stop_recording_command() -> (r: Vec<u8>)
    ensures
        r@ == stop_recording_opcode(),
{
    let r = vec![122u8, 1u8, 4u8, 0u8, 0u8, 0u8, 0u8, 0u8, 0u8, 0u8, 0u8, 0u8, 0u8, 0u8, 0u8, 0u8];
    proof {
        assert(r@ =~= stop_recording_opcode());
    }
    r
}

pub open spec fn check_stop_recording_opcode() -> Seq<u8> {
    seq![122u8, 2u8, 4u8, 0u8, 0u8, 0u8, 0u8, 0u8, 0u8, 0u8, 0u8, 0u8, 0u8, 0u8, 0u8, 0u8]
}

/// Opcode of the recording-stop status query.
pub fn check_stop_recording_command() -> (r: Vec<u8>)
    ensures
        r@ == check_stop_recording_opcode(),
{
    let r = vec![122u8, 2u8, 4u8, 0u8, 0u8, 0u8, 0u8, 0u8, 0u8, 0u8, 0u8, 0u8, 0u8, 0u8, 0u8, 0u8];
    proof {
        assert(r@ =~= check_stop_recording_opcode());
    }
    r
}

} // verus!
