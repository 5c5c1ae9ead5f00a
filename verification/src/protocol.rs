//! Protocol operations: the response-parsing rules and per-operation
//! command builders of the higher-level device operations — keepalive,
//! live view, the capture workflow, settings transfers and the
//! informational queries.

use vstd::prelude::*;

use crate::codec::{build_header, header_bytes, le_u32, read_le_u32, u32_of_le};
use crate::commands::{
    keep_alive_command, keep_alive_opcode, read_general_setting_command,
    read_general_setting_opcode, read_pic_buf_command, read_pic_buf_opcode,
    start_live_view_command, start_live_view_opcode, take_picture_command, take_picture_opcode,
    write_general_setting_command, write_general_setting_opcode,
};
use crate::settings::{LiveViewResolution, PictureOrientation, SettingType};
use crate::transfer::{fresh_check_value, DEFAULT_MAX_RECV_SIZE};
use crate::CamError;

verus! {

/// Receive buffer size of the keepalive exchange.
pub const KEEPALIVE_RX_BUF_SIZE: usize = 64;

/// Thermal condition of the camera, decoded from a status byte.
#[derive(Debug, Clone, Copy, PartialEq, Eq, Structural)]
pub enum ThermalStatus {
    Normal,
    OverheatLow,
    OverheatHigh,
    Cold,
}

impl ThermalStatus {
    pub open spec fn code_spec(self) -> u8 {
        match self {
            ThermalStatus::Normal => 0,
            ThermalStatus::OverheatLow => 1,
            ThermalStatus::OverheatHigh => 2,
            ThermalStatus::Cold => 3,
        }
    }

    pub open spec fn from_code_spec(c: u8) -> Option<ThermalStatus> {
        if c == 0 {
            Some(ThermalStatus::Normal)
        } else if c == 1 {
            Some(ThermalStatus::OverheatLow)
        } else if c == 2 {
            Some(ThermalStatus::OverheatHigh)
        } else if c == 3 {
            Some(ThermalStatus::Cold)
        } else {
            None
        }
    }

    pub fn code(&self) -> (c: u8)
        ensures
            c == self.code_spec(),
    {
        match self {
            ThermalStatus::Normal => 0,
            ThermalStatus::OverheatLow => 1,
            ThermalStatus::OverheatHigh => 2,
            ThermalStatus::Cold => 3,
        }
    }

    /// Total decode of the thermal status byte; an unmapped code is an
    /// error, not a default.
    pub fn from_code(c: u8) -> (r: Option<ThermalStatus>)
        ensures
            r == Self::from_code_spec(c),
    {
        if c == 0 {
            Some(ThermalStatus::Normal)
        } else if c == 1 {
            Some(ThermalStatus::OverheatLow)
        } else if c == 2 {
            Some(ThermalStatus::OverheatHigh)
        } else if c == 3 {
            Some(ThermalStatus::Cold)
        } else {
            None
        }
    }
}

/// What `String::from_utf8_lossy` makes of a byte sequence. The result is a
/// function of the bytes alone.
pub uninterp spec fn utf8_lossy_of(bytes: Seq<u8>) -> Seq<char>;

/// Relies on String::from_utf8_lossy: decodes bytes as UTF-8, substituting
/// the replacement character for invalid sequences; the result depends on
/// the bytes alone.
#[verifier::external_body]
fn lossy_string(bytes: &[u8]) -> (s: String)
    ensures
        s@ == utf8_lossy_of(bytes@),
{
    String::from_utf8_lossy(bytes).into_owned()
}

/// The longest prefix of `s` that contains no zero byte.
pub open spec fn prefix_before_zero(s: Seq<u8>) -> Seq<u8>
    decreases s.len(),
{
    if s.len() == 0 {
        s
    } else if s[0] == 0 {
        Seq::empty()
    } else {
        seq![s[0]] + prefix_before_zero(s.drop_first())
    }
}

proof fn lemma_prefix_before_zero(s: Seq<u8>, k: int)
    requires
        0 <= k <= s.len(),
        forall|j: int| 0 <= j < k ==> s[j] != 0,
        k < s.len() ==> s[k] == 0,
    ensures
        prefix_before_zero(s) == s.take(k),
    decreases s.len(),
{
    if s.len() == 0 {
        assert(s.take(0) =~= s);
    } else if s[0] == 0 {
        assert(k == 0);
        assert(s.take(0) =~= Seq::<u8>::empty());
    } else {
        assert(k >= 1);
        let rest = s.drop_first();
        assert(forall|j: int| 0 <= j < k - 1 ==> #[trigger] rest[j] == s[j + 1]);
        assert(k - 1 < rest.len() ==> rest[k - 1] == s[k]);
        lemma_prefix_before_zero(rest, k - 1);
        assert(seq![s[0]] + rest.take(k - 1) =~= s.take(k));
    }
}

/// Collects the bytes of `data[start..end]` up to (not including) the first
/// zero byte and decodes them as UTF-8, lossily.
fn string_field(data: &[u8], start: usize, end: usize) -> (s: String)
    requires
        start <= end,
        end <= data@.len(),
    ensures
        s@ == utf8_lossy_of(prefix_before_zero(data@.subrange(start as int, end as int))),
{
    let mut bytes: Vec<u8> = Vec::new();
    let mut i: usize = start;
    proof {
        assert(bytes@ =~= data@.subrange(start as int, start as int));
    }
    while i < end && data[i] != 0
        invariant
            start <= i <= end,
            end <= data@.len(),
            forall|j: int| start <= j < i ==> data@[j] != 0,
            bytes@ == data@.subrange(start as int, i as int),
        decreases end - i,
    {
        bytes.push(data[i]);
        i = i + 1;
        proof {
            assert(bytes@ =~= data@.subrange(start as int, i as int));
        }
    }
    proof {
        let window = data@.subrange(start as int, end as int);
        assert(forall|j: int| 0 <= j < i - start ==> #[trigger] window[j] == data@[start + j]);
        lemma_prefix_before_zero(window, i - start);
        assert(window.take(i - start) =~= data@.subrange(start as int, i as int));
    }
    lossy_string(bytes.as_slice())
}

/// Builds the header of the keepalive exchange: one bounded read with a
/// fresh correlation value and a 64-byte receive buffer.
pub fn keepalive_request() -> (r: (Vec<u8>, u32))
    ensures
        r.0@ == header_bytes(keep_alive_opcode(), KEEPALIVE_RX_BUF_SIZE as u32, true, r.1),
{
    let check_value = fresh_check_value();
    let cmd = keep_alive_command();
    proof {
        assert(keep_alive_opcode().len() == 3);
    }
    let header = build_header(cmd.as_slice(), KEEPALIVE_RX_BUF_SIZE as u32, true, check_value);
    (header, check_value)
}

/// Builds the header of an unchecked single-shot read (the connection-open
/// handshake, whose response has a non-standard shape).
pub fn unchecked_read_request(opcode: &[u8]) -> (r: (Vec<u8>, u32))
    requires
        opcode@.len() <= 16,
    ensures
        r.0@ == header_bytes(opcode@, DEFAULT_MAX_RECV_SIZE as u32, true, r.1),
{
    let check_value = fresh_check_value();
    let header = build_header(opcode, DEFAULT_MAX_RECV_SIZE as u32, true, check_value);
    (header, check_value)
}

/// Judges a keepalive response: byte 0 must be 0; any other status fails
/// with that code attached, and an empty response is an invalid length.
pub fn parse_keepalive_response(response: &[u8]) -> (r: Result<(), CamError>)
    ensures
        response@.len() == 0 ==> r == Err::<(), CamError>(
            CamError::InvalidLength { expected: 1, received: 0 },
        ),
        response@.len() > 0 && response@[0] == 0 ==> r is Ok,
        response@.len() > 0 && response@[0] != 0 ==> r == Err::<(), CamError>(
            CamError::Keepalive { status_code: response@[0] as u32 },
        ),
{
    if response.len() == 0 {
        return Err(CamError::InvalidLength { expected: 1, received: 0 });
    }
    let status = response[0];
    if status == 0 {
        Ok(())
    } else {
        Err(CamError::Keepalive { status_code: status as u32 })
    }
}

/// Judges the status-query responses whose byte 0 reports "in progress"
/// as 1 or 3 and anything else as settled: live-view start and stop,
/// recording start and stop.
pub fn parse_ok_status(response: &[u8]) -> (r: Result<bool, CamError>)
    ensures
        response@.len() == 0 ==> r == Err::<bool, CamError>(
            CamError::InvalidLength { expected: 1, received: 0 },
        ),
        response@.len() > 0 ==> (r matches Ok(b) && b == (response@[0] != 3 && response@[0] != 1)),
{
    if response.len() == 0 {
        return Err(CamError::InvalidLength { expected: 1, received: 0 });
    }
    let status = response[0];
    Ok(status != 3 && status != 1)
}

/// Extracts the leading byte of a response whose status byte is itself the
/// payload (remaining-picture count, single-setting reads).
pub fn parse_first_byte(response: &[u8]) -> (r: Result<u8, CamError>)
    ensures
        response@.len() == 0 ==> r == Err::<u8, CamError>(
            CamError::InvalidLength { expected: 1, received: 0 },
        ),
        response@.len() > 0 ==> r == Ok::<u8, CamError>(response@[0]),
{
    if response.len() == 0 {
        return Err(CamError::InvalidLength { expected: 1, received: 0 });
    }
    Ok(response[0])
}

/// The start-live-view command with the resolution code at byte 9.
pub fn start_live_view_request(resolution: LiveViewResolution) -> (cmd: Vec<u8>)
    ensures
        cmd@ == start_live_view_opcode().update(9, resolution.code_spec()),
{
    let mut cmd = start_live_view_command();
    cmd.set(9, resolution.code());
    cmd
}

/// The take-picture command with the orientation code at byte 8.
pub fn take_picture_request(orientation: PictureOrientation) -> (cmd: Vec<u8>)
    ensures
        cmd@ == take_picture_opcode().update(8, orientation.code_spec()),
{
    let mut cmd = take_picture_command();
    cmd.set(8, orientation.code());
    cmd
}

/// The read-one-setting command with the setting code at byte 2.
pub fn read_setting_request(setting: SettingType) -> (cmd: Vec<u8>)
    ensures
        cmd@ == read_general_setting_opcode().update(2, setting.code_spec()),
{
    let mut cmd = read_general_setting_command();
    cmd.set(2, setting.code());
    cmd
}

/// The write-one-setting command with the setting code at byte 2.
pub fn write_setting_request(setting: SettingType) -> (cmd: Vec<u8>)
    ensures
        cmd@ == write_general_setting_opcode().update(2, setting.code_spec()),
{
    let mut cmd = write_general_setting_command();
    cmd.set(2, setting.code());
    cmd
}

/// The read-picture-buffer command with the count of bytes already
/// received, little-endian, at bytes 8..12.
pub fn partial_picture_request(received_pic_data_len: u32) -> (cmd: Vec<u8>)
    ensures
        cmd@ == read_pic_buf_opcode().take(8) + le_u32(received_pic_data_len)
            + read_pic_buf_opcode().skip(12),
{
    let mut cmd = read_pic_buf_command();
    let x = received_pic_data_len;
    proof {
        assert(x & 0xff < 256 && (x >> 8) & 0xff < 256 && (x >> 16) & 0xff < 256 && (x >> 24)
            & 0xff < 256) by (bit_vector);
    }
    cmd.set(8, (x & 0xff) as u8);
    cmd.set(9, ((x >> 8) & 0xff) as u8);
    cmd.set(10, ((x >> 16) & 0xff) as u8);
    cmd.set(11, ((x >> 24) & 0xff) as u8);
    proof {
        assert(cmd@ =~= read_pic_buf_opcode().take(8) + le_u32(received_pic_data_len)
            + read_pic_buf_opcode().skip(12));
    }
    cmd
}

/// A fully assembled live view frame and the time spent assembling it.
#[derive(Debug, Clone, PartialEq, Eq)]
pub struct LiveViewFrame {
    pub duration_millis: u64,
    pub data: Vec<u8>,
}

/// What one live-view response contributed.
#[derive(Debug, Clone, Copy, PartialEq, Eq, Structural)]
pub enum LiveViewStep {
    /// More parts follow.
    Continue,
    /// This response carried the final part; the thermal status byte rides
    /// along at its fixed offset.
    Final { thermal_code: u8 },
}

/// The payload length a live-view response declares at bytes 28..32.
pub open spec fn live_view_payload_len(data: Seq<u8>) -> int
    recommends
        data.len() >= 32,
{
    u32_of_le(data.subrange(28, 32)) as int
}

/// Reassembles a live view frame from the parts carried by successive
/// responses to the get-frame command.
pub struct LiveViewAssembler {
    pub frame: Vec<u8>,
}

impl LiveViewAssembler {
    pub fn new() -> (a: LiveViewAssembler)
        ensures
            a.frame@.len() == 0,
    {
        LiveViewAssembler { frame: Vec::new() }
    }

    /// Feeds one response. The response must be at least 32 bytes and must
    /// actually contain the payload length it declares; the declared length
    /// is never trusted beyond what was received. On success the payload
    /// bytes are appended and byte 1 tells whether this was the final part.
    pub fn push_response(&mut self, data: &[u8]) -> (r: Result<LiveViewStep, CamError>)
        ensures
            data@.len() < 32 ==> {
                &&& r == Err::<LiveViewStep, CamError>(
                    CamError::InvalidLength { expected: 32, received: data@.len() as u64 },
                )
                &&& final(self).frame@ == old(self).frame@
            },
            data@.len() >= 32 && data@.len() < 32 + live_view_payload_len(data@) ==> {
                &&& r == Err::<LiveViewStep, CamError>(
                    CamError::InvalidLength {
                        expected: (32 + live_view_payload_len(data@)) as u64,
                        received: data@.len() as u64,
                    },
                )
                &&& final(self).frame@ == old(self).frame@
            },
            data@.len() >= 32 + live_view_payload_len(data@) ==> {
                &&& final(self).frame@ == old(self).frame@ + data@.subrange(
                    32,
                    32 + live_view_payload_len(data@),
                )
                &&& data@[1] == 1 ==> r == Ok::<LiveViewStep, CamError>(
                    LiveViewStep::Final { thermal_code: data@[20] },
                )
                &&& data@[1] != 1 ==> r == Ok::<LiveViewStep, CamError>(LiveViewStep::Continue)
            },
    {
        if data.len() < 32 {
            return Err(CamError::InvalidLength { expected: 32, received: data.len() as u64 });
        }
        let declared = read_le_u32(data, 28);
        let rx_len = declared as usize;
        if data.len() - 32 < rx_len {
            return Err(
                CamError::InvalidLength {
                    expected: 32 + declared as u64,
                    received: data.len() as u64,
                },
            );
        }
        let payload = vstd::slice::slice_subrange(data, 32, 32 + rx_len);
        self.frame.extend_from_slice(payload);
        if data[1] == 1 {
            Ok(LiveViewStep::Final { thermal_code: data[20] })
        } else {
            Ok(LiveViewStep::Continue)
        }
    }

    /// Finishes assembly: decodes the thermal status byte carried by the
    /// final part and pairs the frame with the measured assembly duration.
    pub fn finish(self, thermal_code: u8, duration_millis: u64) -> (r: Result<
        (ThermalStatus, LiveViewFrame),
        CamError,
    >)
        ensures
            ThermalStatus::from_code_spec(thermal_code) is Some ==> (r matches Ok(p) && {
                &&& p.0 == ThermalStatus::from_code_spec(thermal_code)->0
                &&& p.1.data@ == self.frame@
                &&& p.1.duration_millis == duration_millis
            }),
            ThermalStatus::from_code_spec(thermal_code) is None ==> r == Err::<
                (ThermalStatus, LiveViewFrame),
                CamError,
            >(CamError::InvalidFormat),
    {
        match ThermalStatus::from_code(thermal_code) {
            Some(thermal) => Ok(
                (thermal, LiveViewFrame { duration_millis, data: self.frame }),
            ),
            None => Err(CamError::InvalidFormat),
        }
    }
}

/// The payload length declared at bytes 16..20 of a thumbnail or partial
/// picture response.
pub open spec fn length_prefixed_len(data: Seq<u8>) -> int
    recommends
        data.len() >= 20,
{
    u32_of_le(data.subrange(16, 20)) as int
}

/// Extracts the thumbnail payload: 20 header bytes, a 4-byte little-endian
/// length at bytes 16..20, and exactly that many payload bytes, which must
/// all have been received.
pub fn parse_thumbnail(data: &[u8]) -> (r: Result<Vec<u8>, CamError>)
    ensures
        data@.len() < 20 ==> r == Err::<Vec<u8>, CamError>(
            CamError::InvalidLength { expected: 20, received: data@.len() as u64 },
        ),
        data@.len() >= 20 && data@.len() < 20 + length_prefixed_len(data@) ==> r == Err::<
            Vec<u8>,
            CamError,
        >(
            CamError::InvalidLength {
                expected: (20 + length_prefixed_len(data@)) as u64,
                received: data@.len() as u64,
            },
        ),
        data@.len() >= 20 + length_prefixed_len(data@) ==> (r matches Ok(v) && v@
            == data@.subrange(20, 20 + length_prefixed_len(data@))),
{
    if data.len() < 20 {
        return Err(CamError::InvalidLength { expected: 20, received: data.len() as u64 });
    }
    let declared = read_le_u32(data, 16);
    let thumb_len = declared as usize;
    if data.len() - 20 < thumb_len {
        return Err(
            CamError::InvalidLength { expected: 20 + declared as u64, received: data.len() as u64 },
        );
    }
    let payload = vstd::slice::slice_subrange(data, 20, 20 + thumb_len);
    Ok(vstd::slice::slice_to_vec(payload))
}

/// Extracts one partial picture buffer: the same length-prefixed layout as
/// a thumbnail, with byte 1 telling whether this part is the last.
pub fn parse_partial_picture(data: &[u8]) -> (r: Result<(Vec<u8>, bool), CamError>)
    ensures
        data@.len() < 20 ==> r == Err::<(Vec<u8>, bool), CamError>(
            CamError::InvalidLength { expected: 20, received: data@.len() as u64 },
        ),
        data@.len() >= 20 && data@.len() < 20 + length_prefixed_len(data@) ==> r == Err::<
            (Vec<u8>, bool),
            CamError,
        >(
            CamError::InvalidLength {
                expected: (20 + length_prefixed_len(data@)) as u64,
                received: data@.len() as u64,
            },
        ),
        data@.len() >= 20 + length_prefixed_len(data@) ==> (r matches Ok(p) && {
            &&& p.0@ == data@.subrange(20, 20 + length_prefixed_len(data@))
            &&& p.1 == (data@[1] == 1)
        }),
{
    if data.len() < 20 {
        return Err(CamError::InvalidLength { expected: 20, received: data.len() as u64 });
    }
    let is_end = data[1] == 1;
    let declared = read_le_u32(data, 16);
    let part_len = declared as usize;
    if data.len() - 20 < part_len {
        return Err(
            CamError::InvalidLength { expected: 20 + declared as u64, received: data.len() as u64 },
        );
    }
    let payload = vstd::slice::slice_subrange(data, 20, 20 + part_len);
    Ok((vstd::slice::slice_to_vec(payload), is_end))
}

/// Capture progress reported while taking a picture.
#[derive(Debug, Clone, PartialEq, Eq)]
pub enum CaptureStatus {
    /// A thumbnail can be fetched while the capture is processed.
    ThumbnailAvailable {
        stored_pic_num: u8,
        is_exposure_ready: bool,
        /// Opaque diagnostic byte; no established meaning.
        picture_status: u8,
        picture_string: Option<String>,
    },
    /// Not settled yet; poll again.
    TryAgain,
    /// The picture is fully captured and can be transferred.
    Captured,
}

/// End of the window holding the picture name string in a capture-status
/// response: the response length, capped at 72.
pub open spec fn capture_name_end(len: int) -> int {
    if len < 72 {
        len
    } else {
        72
    }
}

/// Decodes a capture-status response: byte 0 is 1 for try-again, 3 for
/// captured, 0 for thumbnail-available (then at least 9 bytes must have
/// arrived, carrying the stored-picture count, the exposure flag, an opaque
/// status byte and an optional zero-terminated name), and anything else is
/// an invalid format.
pub fn parse_capture_status(data: &[u8]) -> (r: Result<CaptureStatus, CamError>)
    ensures
        data@.len() == 0 ==> r == Err::<CaptureStatus, CamError>(
            CamError::InvalidLength { expected: 1, received: 0 },
        ),
        data@.len() > 0 && data@[0] == 1 ==> r == Ok::<CaptureStatus, CamError>(
            CaptureStatus::TryAgain,
        ),
        data@.len() > 0 && data@[0] == 3 ==> r == Ok::<CaptureStatus, CamError>(
            CaptureStatus::Captured,
        ),
        data@.len() > 0 && data@[0] != 0 && data@[0] != 1 && data@[0] != 3 ==> r == Err::<
            CaptureStatus,
            CamError,
        >(CamError::InvalidFormat),
        data@.len() > 0 && data@[0] == 0 && data@.len() < 9 ==> r == Err::<
            CaptureStatus,
            CamError,
        >(CamError::InvalidLength { expected: 9, received: data@.len() as u64 }),
        data@.len() >= 9 && data@[0] == 0 ==> (r matches Ok(cs) && cs matches
            CaptureStatus::ThumbnailAvailable {
                stored_pic_num,
                is_exposure_ready,
                picture_status,
                picture_string,
            } && {
            &&& stored_pic_num == data@[3]
            &&& is_exposure_ready == (data@[2] == 0)
            &&& picture_status == data@[1]
            &&& data@[8] == 0 ==> picture_string is None
            &&& data@[8] != 0 ==> (picture_string matches Some(name) && name@ == utf8_lossy_of(
                prefix_before_zero(data@.subrange(8, capture_name_end(data@.len() as int))),
            ))
        }),
{
    if data.len() == 0 {
        return Err(CamError::InvalidLength { expected: 1, received: 0 });
    }
    let status = data[0];
    if status == 1 {
        return Ok(CaptureStatus::TryAgain);
    }
    if status == 3 {
        return Ok(CaptureStatus::Captured);
    }
    if status != 0 {
        return Err(CamError::InvalidFormat);
    }
    if data.len() < 9 {
        return Err(CamError::InvalidLength { expected: 9, received: data.len() as u64 });
    }
    let picture_status = data[1];
    let is_exposure_ready = data[2] == 0;
    let stored_pic_num = data[3];
    let picture_string = if data[8] != 0 {
        let end = if data.len() < 72 {
            data.len()
        } else {
            72
        };
        Some(string_field(data, 8, end))
    } else {
        None
    };
    Ok(
        CaptureStatus::ThumbnailAvailable {
            stored_pic_num,
            is_exposure_ready,
            picture_status,
            picture_string,
        },
    )
}

/// Decodes a camera-status response: at least 5 bytes, byte 1 an opaque
/// execution-status byte, byte 4 the thermal status.
pub fn parse_camera_status(data: &[u8]) -> (r: Result<(u8, ThermalStatus), CamError>)
    ensures
        data@.len() < 5 ==> r == Err::<(u8, ThermalStatus), CamError>(
            CamError::InvalidLength { expected: 5, received: data@.len() as u64 },
        ),
        data@.len() >= 5 && ThermalStatus::from_code_spec(data@[4]) is Some ==> (r matches Ok(p)
            && p.0 == data@[1] && p.1 == ThermalStatus::from_code_spec(data@[4])->0),
        data@.len() >= 5 && ThermalStatus::from_code_spec(data@[4]) is None ==> r == Err::<
            (u8, ThermalStatus),
            CamError,
        >(CamError::InvalidFormat),
{
    if data.len() < 5 {
        return Err(CamError::InvalidLength { expected: 5, received: data.len() as u64 });
    }
    let execution_status = data[1];
    match ThermalStatus::from_code(data[4]) {
        Some(thermal) => Ok((execution_status, thermal)),
        None => Err(CamError::InvalidFormat),
    }
}

/// End of the window holding the firmware version string in a camera-info
/// response: the response length, capped at 129.
pub open spec fn camera_info_end(len: int) -> int {
    if len < 129 {
        len
    } else {
        129
    }
}

/// Decodes a camera-info response: the firmware version is present when
/// byte 97 is the letter `v` (118), as a zero-terminated string starting
/// there; otherwise no version is reported.
pub fn parse_camera_info(data: &[u8]) -> (r: Result<Option<String>, CamError>)
    ensures
        data@.len() < 98 ==> r == Err::<Option<String>, CamError>(
            CamError::InvalidLength { expected: 98, received: data@.len() as u64 },
        ),
        data@.len() >= 98 && data@[97] != 118 ==> r == Ok::<Option<String>, CamError>(None),
        data@.len() >= 98 && data@[97] == 118 ==> (r matches Ok(Some(s)) && s@ == utf8_lossy_of(
            prefix_before_zero(data@.subrange(97, camera_info_end(data@.len() as int))),
        )),
{
    if data.len() < 98 {
        return Err(CamError::InvalidLength { expected: 98, received: data.len() as u64 });
    }
    if data[97] == 118 {
        let end = if data.len() < 129 {
            data.len()
        } else {
            129
        };
        Ok(Some(string_field(data, 97, end)))
    } else {
        Ok(None)
    }
}

/// End of the window holding the version string in a SCSI-version
/// response: the response length, capped at 33.
pub open spec fn scsi_version_end(len: int) -> int {
    if len < 33 {
        len
    } else {
        33
    }
}

/// Decodes a SCSI-version response: the version is present when byte 1 is
/// the letter `v` (118), as a zero-terminated string starting there.
pub fn parse_scsi_version(data: &[u8]) -> (r: Result<Option<String>, CamError>)
    ensures
        data@.len() == 0 ==> r == Err::<Option<String>, CamError>(
            CamError::InvalidLength { expected: 1, received: 0 },
        ),
        data@.len() == 1 ==> r == Err::<Option<String>, CamError>(
            CamError::InvalidLength { expected: 2, received: 1 },
        ),
        data@.len() >= 2 && data@[1] != 118 ==> r == Ok::<Option<String>, CamError>(None),
        data@.len() >= 2 && data@[1] == 118 ==> (r matches Ok(Some(s)) && s@ == utf8_lossy_of(
            prefix_before_zero(data@.subrange(1, scsi_version_end(data@.len() as int))),
        )),
{
    if data.len() == 0 {
        return Err(CamError::InvalidLength { expected: 1, received: 0 });
    }
    if data.len() == 1 {
        return Err(CamError::InvalidLength { expected: 2, received: 1 });
    }
    if data[1] == 118 {
        let end = if data.len() < 33 {
            data.len()
        } else {
            33
        };
        Ok(Some(string_field(data, 1, end)))
    } else {
        Ok(None)
    }
}

/// What the capture workflow does next after one status poll.
#[derive(Debug, Clone, Copy, PartialEq, Eq, Structural)]
pub enum CaptureAction {
    /// Fetch the thumbnail, then poll again.
    FetchThumbnail,
    /// Wait for the poll interval and poll again.
    PollAgain,
    /// Begin transferring the picture in partial reads.
    BeginTransfer,
}

/// The capture workflow's decision table: a thumbnail is fetched only when
/// the caller wants thumbnails, try-again polls again, and a captured
/// picture starts the transfer.
pub fn capture_action(status: &CaptureStatus, want_thumbnail: bool) -> (a: CaptureAction)
    ensures
        status matches CaptureStatus::ThumbnailAvailable { .. } && want_thumbnail ==> a
            == CaptureAction::FetchThumbnail,
        status matches CaptureStatus::ThumbnailAvailable { .. } && !want_thumbnail ==> a
            == CaptureAction::PollAgain,
        status is TryAgain ==> a == CaptureAction::PollAgain,
        status is Captured ==> a == CaptureAction::BeginTransfer,
{
    match status {
        CaptureStatus::ThumbnailAvailable { .. } => {
            if want_thumbnail {
                CaptureAction::FetchThumbnail
            } else {
                CaptureAction::PollAgain
            }
        },
        CaptureStatus::TryAgain => CaptureAction::PollAgain,
        CaptureStatus::Captured => CaptureAction::BeginTransfer,
    }
}

/// The picture being accumulated from partial reads after a capture.
pub struct PictureAssembly {
    pub data: Vec<u8>,
}

impl PictureAssembly {
    pub fn new() -> (p: PictureAssembly)
        ensures
            p.data@.len() == 0,
    {
        PictureAssembly { data: Vec::new() }
    }

    /// The next read-picture-buffer command, carrying the number of bytes
    /// received so far.
    pub fn next_request(&self) -> (cmd: Vec<u8>)
        requires
            self.data@.len() <= u32::MAX,
        ensures
            cmd@ == read_pic_buf_opcode().take(8) + le_u32(self.data@.len() as u32)
                + read_pic_buf_opcode().skip(12),
    {
        partial_picture_request(self.data.len() as u32)
    }

    /// Appends one partial picture buffer.
    pub fn append_part(&mut self, part: &[u8])
        ensures
            final(self).data@ == old(self).data@ + part@,
    {
        self.data.extend_from_slice(part);
    }

    /// Surrenders the assembled picture.
    pub fn into_data(self) -> (data: Vec<u8>)
        ensures
            data@ == self.data@,
    {
        self.data
    }
}

} // verus!
