//! Command codec: the fixed 31-byte outgoing command header and the
//! 13-byte status trailer (CSW) that terminates a response.

use vstd::prelude::*;

verus! {

/// Magic bytes that open every outgoing command header (`"USBC"`).
pub open spec fn tx_magic() -> Seq<u8> {
    seq![85u8, 83u8, 66u8, 67u8]
}

/// Magic bytes that open every status trailer sent by the device (`"USBS"`).
pub open spec fn rx_magic() -> Seq<u8> {
    seq![85u8, 83u8, 66u8, 83u8]
}

/// The transfer-direction sentinel byte of a command header.
pub open spec fn direction_byte(is_read: bool) -> u8 {
    if is_read {
        128u8
    } else {
        0u8
    }
}

/// Big-endian bytes of a 32-bit value.
pub open spec fn be_u32(x: u32) -> Seq<u8> {
    seq![
        ((x >> 24) & 0xff) as u8,
        ((x >> 16) & 0xff) as u8,
        ((x >> 8) & 0xff) as u8,
        (x & 0xff) as u8,
    ]
}

/// Little-endian bytes of a 32-bit value.
pub open spec fn le_u32(x: u32) -> Seq<u8> {
    seq![
        (x & 0xff) as u8,
        ((x >> 8) & 0xff) as u8,
        ((x >> 16) & 0xff) as u8,
        ((x >> 24) & 0xff) as u8,
    ]
}

/// The 32-bit value encoded by four little-endian bytes.
pub open spec fn u32_of_le(b: Seq<u8>) -> u32
    recommends
        b.len() == 4,
{
    (b[0] as u32) | (b[1] as u32) << 8 | (b[2] as u32) << 16 | (b[3] as u32) << 24
}

/// The 16-bit value encoded by two little-endian bytes.
pub open spec fn u16_of_le(b: Seq<u8>) -> u16
    recommends
        b.len() == 2,
{
    (b[0] as u16) | (b[1] as u16) << 8
}

/// The first 15 bytes of a command header: outbound magic, big-endian
/// correlation value, little-endian maximum response size, direction
/// sentinel, one reserved byte, and the fixed opcode-length byte 16.
pub open spec fn header_prefix(max_response_size: u32, is_read: bool, check_value: u32) -> Seq<u8> {
    tx_magic() + be_u32(check_value) + le_u32(max_response_size)
        + seq![direction_byte(is_read), 0u8, 16u8]
}

/// The full 31-byte command header: the 15-byte prefix, then the opcode
/// bytes, zero-padded to 31 bytes total.
pub open spec fn header_bytes(
    opcode: Seq<u8>,
    max_response_size: u32,
    is_read: bool,
    check_value: u32,
) -> Seq<u8>
    recommends
        opcode.len() <= 16,
{
    header_prefix(max_response_size, is_read, check_value) + opcode
        + Seq::new((16 - opcode.len()) as nat, |i: int| 0u8)
}

/// Command-header layout law: for every opcode of at most 16 bytes and any
/// maximum response size, direction flag and correlation value, the header
/// is exactly 31 bytes, with the outbound magic, the big-endian correlation
/// value, the little-endian maximum response size, the direction sentinel,
/// the reserved byte, the fixed opcode-length byte 16 and the opcode at
/// their fixed offsets, and every padding byte zero.
pub proof fn lemma_header_layout(
    opcode: Seq<u8>,
    max_response_size: u32,
    is_read: bool,
    check_value: u32,
)
    requires
        opcode.len() <= 16,
    ensures
        ({
            let h = header_bytes(opcode, max_response_size, is_read, check_value);
            &&& h.len() == 31
            &&& h.subrange(0, 4) == tx_magic()
            &&& h.subrange(4, 8) == be_u32(check_value)
            &&& h.subrange(8, 12) == le_u32(max_response_size)
            &&& h[12] == direction_byte(is_read)
            &&& h[13] == 0
            &&& h[14] == 16
            &&& h.subrange(15, 15 + opcode.len() as int) == opcode
            &&& forall|i: int| 15 + opcode.len() as int <= i < 31 ==> h[i] == 0
        }),
{
    let h = header_bytes(opcode, max_response_size, is_read, check_value);
    assert(h.subrange(0, 4) =~= tx_magic());
    assert(h.subrange(4, 8) =~= be_u32(check_value));
    assert(h.subrange(8, 12) =~= le_u32(max_response_size));
    assert(h.subrange(15, 15 + opcode.len() as int) =~= opcode);
}

/// A buffer carries a status trailer when its last 13 bytes begin with the
/// inbound magic and, for a nonzero correlation value, the following four
/// bytes echo that value in big-endian order.
pub open spec fn is_trailer(buf: Seq<u8>, check_value: u32) -> bool {
    &&& buf.len() >= 13
    &&& buf.subrange(buf.len() - 13, buf.len() - 9) == rx_magic()
    &&& check_value != 0 ==> buf.subrange(buf.len() - 9, buf.len() - 5) == be_u32(check_value)
}

/// Appends the big-endian bytes of `x`.
pub fn push_be_u32(buf: &mut Vec<u8>, x: u32)
    ensures
        final(buf)@ == old(buf)@ + be_u32(x),
{
    proof {
        assert((x >> 24) & 0xff < 256 && (x >> 16) & 0xff < 256 && (x >> 8) & 0xff < 256 && x
            & 0xff < 256) by (bit_vector);
    }
    buf.push(((x >> 24) & 0xff) as u8);
    buf.push(((x >> 16) & 0xff) as u8);
    buf.push(((x >> 8) & 0xff) as u8);
    buf.push((x & 0xff) as u8);
    proof {
        assert(buf@ =~= old(buf)@ + be_u32(x));
    }
}

/// Appends the little-endian bytes of `x`.
pub fn push_le_u32(buf: &mut Vec<u8>, x: u32)
    ensures
        final(buf)@ == old(buf)@ + le_u32(x),
{
    proof {
        assert((x >> 24) & 0xff < 256 && (x >> 16) & 0xff < 256 && (x >> 8) & 0xff < 256 && x
            & 0xff < 256) by (bit_vector);
    }
    buf.push((x & 0xff) as u8);
    buf.push(((x >> 8) & 0xff) as u8);
    buf.push(((x >> 16) & 0xff) as u8);
    buf.push(((x >> 24) & 0xff) as u8);
    proof {
        assert(buf@ =~= old(buf)@ + le_u32(x));
    }
}

/// Reads the 32-bit little-endian value stored at `buf[at .. at + 4]`.
pub fn read_le_u32(buf: &[u8], at: usize) -> (x: u32)
    requires
        at + 4 <= buf@.len(),
    ensures
        x == u32_of_le(buf@.subrange(at as int, at + 4)),
{
    let b0 = buf[at];
    let b1 = buf[at + 1];
    let b2 = buf[at + 2];
    let b3 = buf[at + 3];
    (b0 as u32) | (b1 as u32) << 8 | (b2 as u32) << 16 | (b3 as u32) << 24
}

/// Reads the 16-bit little-endian value stored at `buf[at .. at + 2]`.
pub fn read_le_u16(buf: &[u8], at: usize) -> (x: u16)
    requires
        at + 2 <= buf@.len(),
    ensures
        x == u16_of_le(buf@.subrange(at as int, at + 2)),
{
    let b0 = buf[at];
    let b1 = buf[at + 1];
    (b0 as u16) | (b1 as u16) << 8
}

/// Builds the 31-byte on-wire header for one command exchange.
///
/// The header always announces an opcode length of 16 and is zero-padded to
/// exactly 31 bytes, whatever the actual opcode length.
pub fn build_header(opcode: &[u8], max_response_size: u32, is_read: bool, check_value: u32) -> (
    header: Vec<u8>)
    requires
        opcode@.len() <= 16,
    ensures
        header@ == header_bytes(opcode@, max_response_size, is_read, check_value),
        header@.len() == 31,
{
    let mut buf: Vec<u8> = Vec::new();
    buf.push(85);
    buf.push(83);
    buf.push(66);
    buf.push(67);
    push_be_u32(&mut buf, check_value);
    push_le_u32(&mut buf, max_response_size);
    if is_read {
        buf.push(128);
    } else {
        buf.push(0);
    }
    buf.push(0);
    buf.push(16);
    proof {
        assert(buf@ =~= header_prefix(max_response_size, is_read, check_value));
    }
    let mut i: usize = 0;
    while i < opcode.len()
        invariant
            i <= opcode@.len(),
            opcode@.len() <= 16,
            buf@ == header_prefix(max_response_size, is_read, check_value) + opcode@.take(i as int),
        decreases opcode@.len() - i,
    {
        buf.push(opcode[i]);
        i = i + 1;
        proof {
            assert(buf@ =~= header_prefix(max_response_size, is_read, check_value) + opcode@.take(
                i as int,
            ));
        }
    }
    proof {
        assert(opcode@.take(opcode@.len() as int) =~= opcode@);
    }
    while buf.len() < 31
        invariant
            opcode@.len() <= 16,
            15 + opcode@.len() <= buf@.len() <= 31,
            buf@ == header_prefix(max_response_size, is_read, check_value) + opcode@ + Seq::new(
                (buf@.len() - 15 - opcode@.len()) as nat,
                |j: int| 0u8,
            ),
        decreases 31 - buf@.len(),
    {
        buf.push(0);
        proof {
            assert(buf@ =~= header_prefix(max_response_size, is_read, check_value) + opcode@
                + Seq::new((buf@.len() - 15 - opcode@.len()) as nat, |j: int| 0u8));
        }
    }
    proof {
        assert(buf@ =~= header_bytes(opcode@, max_response_size, is_read, check_value));
    }
    buf
}

/// Decides whether `buf` ends in a status trailer echoing `check_value`.
///
/// Returns false for any buffer under 13 bytes. A correlation value of 0
/// disables the correlation comparison and only the inbound magic is
/// checked.
pub fn is_status_trailer(buf: &[u8], check_value: u32) -> (r: bool)
    ensures
        r == is_trailer(buf@, check_value),
{
    let len = buf.len();
    if len < 13 {
        return false;
    }
    let magic_ok = buf[len - 13] == 85 && buf[len - 12] == 83 && buf[len - 11] == 66 && buf[len
        - 10] == 83;
    proof {
        let s = buf@.subrange(len - 13, len - 9);
        assert(s[0] == buf@[len - 13] && s[1] == buf@[len - 12] && s[2] == buf@[len - 11] && s[3]
            == buf@[len - 10]);
        if magic_ok {
            assert(s =~= rx_magic());
        }
    }
    if check_value == 0 {
        return magic_ok;
    }
    proof {
        assert((check_value >> 24) & 0xff < 256 && (check_value >> 16) & 0xff < 256 && (check_value
            >> 8) & 0xff < 256 && check_value & 0xff < 256) by (bit_vector);
    }
    let c0 = ((check_value >> 24) & 0xff) as u8;
    let c1 = ((check_value >> 16) & 0xff) as u8;
    let c2 = ((check_value >> 8) & 0xff) as u8;
    let c3 = (check_value & 0xff) as u8;
    let check_ok = buf[len - 9] == c0 && buf[len - 8] == c1 && buf[len - 7] == c2 && buf[len - 6]
        == c3;
    proof {
        let t = buf@.subrange(len - 9, len - 5);
        assert(t[0] == buf@[len - 9] && t[1] == buf@[len - 8] && t[2] == buf@[len - 7] && t[3]
            == buf@[len - 6]);
        if check_ok {
            assert(t =~= be_u32(check_value));
        }
    }
    magic_ok && check_ok
}

} // verus!
