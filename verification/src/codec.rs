//! ICMP echo packet codec: the Internet checksum, encoding of echo
//! messages, and decoding of inbound ICMP datagrams into a typed
//! classification.

use vstd::pervasive::VecAdditionalExecFns;
use vstd::prelude::*;

verus! {

/// An IPv4 address as its four dotted-quad octets.
#[derive(Clone, Copy, PartialEq, Eq, Structural, Debug)]
pub struct Ipv4Address {
    pub a: u8,
    pub b: u8,
    pub c: u8,
    pub d: u8,
}

/// ICMP type byte of an Echo Request.
pub const ECHO_REQUEST_TYPE: u8 = 8;

/// ICMP type byte of an Echo Reply.
pub const ECHO_REPLY_TYPE: u8 = 0;

/// ICMP type byte of a Time Exceeded message.
pub const TIME_EXCEEDED_TYPE: u8 = 11;

/// Number of bytes in the fixed ICMP echo header: type, code, checksum,
/// identifier and sequence number.
pub const ICMP_HEADER_LEN: usize = 8;

/// Largest ICMP message this codec handles. An IPv4 datagram's total-length
/// field is 16 bits, so no ICMP message on the wire exceeds this many bytes.
pub const MAX_ICMP_LEN: usize = 65535;

/// Largest payload an echo message can carry under `MAX_ICMP_LEN`.
pub const MAX_PAYLOAD_LEN: usize = 65527;

/// The `i`-th 16-bit big-endian word of a byte sequence; an odd trailing
/// byte is read as the high byte of a zero-padded word.
pub open spec fn word_at(b: Seq<u8>, i: int) -> int {
    if 2 * i + 1 < b.len() {
        (b[2 * i] as int) * 256 + (b[2 * i + 1] as int)
    } else {
        (b[2 * i] as int) * 256
    }
}

/// How many 16-bit words cover a byte sequence.
pub open spec fn num_words(b: Seq<u8>) -> int {
    (b.len() as int + 1) / 2
}

/// Sum of the first `n` 16-bit words of `b`.
pub open spec fn sum_words(b: Seq<u8>, n: int) -> int
    decreases n,
{
    if n <= 0 {
        0
    } else {
        sum_words(b, n - 1) + word_at(b, n - 1)
    }
}

/// One's-complement folding: add the carry out of the low 16 bits back into
/// them until the value fits in 16 bits.
pub open spec fn fold_carry(n: int) -> int
    decreases n,
{
    if n < 0x10000 {
        n
    } else {
        fold_carry(n % 0x10000 + n / 0x10000)
    }
}

/// The Internet checksum of a byte sequence: the one's complement of the
/// end-around-carry sum of its big-endian 16-bit words.
pub open spec fn checksum_spec(b: Seq<u8>) -> int {
    0xffff - fold_carry(sum_words(b, num_words(b)))
}

/// Compute the Internet checksum of a buffer, exactly as `checksum_spec`
/// describes it.
pub fn checksum(buf: &Vec<u8>) -> (c: u16)
    requires
        buf@.len() <= MAX_ICMP_LEN,
    ensures
        c == checksum_spec(buf@),
{
    let n: usize = buf.len();
    let mut sum: u32 = 0;
    let mut i: usize = 0;
    while i < n
        invariant
            n == buf@.len(),
            n <= MAX_ICMP_LEN,
            i % 2 == 0,
            i <= n + 1,
            sum == sum_words(buf@, i as int / 2),
            sum <= (i as int / 2) * 0xffff,
        decreases n + 1 - i,
    {
        let w: u32 = if i + 1 < n {
            (buf[i] as u32) * 256 + (buf[i + 1] as u32)
        } else {
            (buf[i] as u32) * 256
        };
        assert(w == word_at(buf@, i as int / 2));
        sum = sum + w;
        i = i + 2;
    }
    assert(i as int / 2 == num_words(buf@));
    while sum > 0xffff
        invariant
            fold_carry(sum as int) == fold_carry(sum_words(buf@, num_words(buf@))),
        decreases sum,
    {
        sum = sum % 0x10000 + sum / 0x10000;
    }
    (0xffff - sum) as u16
}

/// High byte of a 16-bit value.
pub open spec fn hi(x: u16) -> u8 {
    (x / 256) as u8
}

/// Low byte of a 16-bit value.
pub open spec fn lo(x: u16) -> u8 {
    (x % 256) as u8
}

/// The 16-bit big-endian field of `b` at byte offset `i`.
pub open spec fn field16(b: Seq<u8>, i: int) -> u16 {
    ((b[i] as int) * 256 + (b[i + 1] as int)) as u16
}

/// An echo message laid out on the wire, with the checksum field still zero:
/// type, code 0, zero checksum, big-endian identifier and sequence number,
/// then the payload verbatim.
pub open spec fn echo_bytes_zero_checksum(
    icmp_type: u8,
    identifier: u16,
    sequence_number: u16,
    payload: Seq<u8>,
) -> Seq<u8> {
    seq![
        icmp_type,
        0u8,
        0u8,
        0u8,
        hi(identifier),
        lo(identifier),
        hi(sequence_number),
        lo(sequence_number),
    ] + payload
}

/// The complete wire bytes of an echo message: the zero-checksum layout with
/// the Internet checksum of that layout written big-endian into bytes 2 and 3.
pub open spec fn echo_packet_bytes(
    icmp_type: u8,
    identifier: u16,
    sequence_number: u16,
    payload: Seq<u8>,
) -> Seq<u8> {
    let z = echo_bytes_zero_checksum(icmp_type, identifier, sequence_number, payload);
    let c = checksum_spec(z);
    z.update(2, ((c / 256) as u8)).update(3, ((c % 256) as u8))
}

pub proof fn lemma_sum_words_nonneg(b: Seq<u8>, n: int)
    ensures
        sum_words(b, n) >= 0,
    decreases n,
{
    if n > 0 {
        lemma_sum_words_nonneg(b, n - 1);
    }
}

pub proof fn lemma_fold_carry_bounds(n: int)
    requires
        n >= 0,
    ensures
        0 <= fold_carry(n) < 0x10000,
    decreases n,
{
    if n >= 0x10000 {
        lemma_fold_carry_bounds(n % 0x10000 + n / 0x10000);
    }
}

/// An Internet checksum always fits in 16 bits.
pub proof fn lemma_checksum_spec_bounds(b: Seq<u8>)
    ensures
        0 <= checksum_spec(b) <= 0xffff,
{
    lemma_sum_words_nonneg(b, num_words(b));
    lemma_fold_carry_bounds(sum_words(b, num_words(b)));
}

/// Build the wire bytes of an ICMP echo message with the given type byte,
/// identifier, sequence number and payload, checksum included.
pub fn encode_echo(
    icmp_type: u8,
    identifier: u16,
    sequence_number: u16,
    payload: &Vec<u8>,
) -> (buf: Vec<u8>)
    requires
        payload@.len() <= MAX_PAYLOAD_LEN,
    ensures
        buf@ == echo_packet_bytes(icmp_type, identifier, sequence_number, payload@),
        buf@.len() == ICMP_HEADER_LEN + payload@.len(),
{
    let ghost z = echo_bytes_zero_checksum(icmp_type, identifier, sequence_number, payload@);
    let mut buf: Vec<u8> = Vec::new();
    buf.push(icmp_type);
    buf.push(0);
    buf.push(0);
    buf.push(0);
    buf.push((identifier / 256) as u8);
    buf.push((identifier % 256) as u8);
    buf.push((sequence_number / 256) as u8);
    buf.push((sequence_number % 256) as u8);
    assert(buf@ =~= z.take(8));
    let mut i: usize = 0;
    while i < payload.len()
        invariant
            i <= payload@.len(),
            payload@.len() <= MAX_PAYLOAD_LEN,
            z == echo_bytes_zero_checksum(icmp_type, identifier, sequence_number, payload@),
            buf@ == z.take(8 + i as int),
        decreases payload@.len() - i,
    {
        buf.push(payload[i]);
        assert(buf@ =~= z.take(8 + i as int + 1));
        i = i + 1;
    }
    assert(buf@ =~= z);
    let c: u16 = checksum(&buf);
    buf.set(2, (c / 256) as u8);
    buf.set(3, (c % 256) as u8);
    assert(buf@ =~= echo_packet_bytes(icmp_type, identifier, sequence_number, payload@));
    buf
}

/// The checksum field written into an encoded echo message is exactly the
/// Internet checksum of the message with its checksum field zeroed out
/// again, whatever the payload and its length.
pub proof fn lemma_encode_checksum(
    icmp_type: u8,
    identifier: u16,
    sequence_number: u16,
    payload: Seq<u8>,
)
    ensures
        ({
            let b = echo_packet_bytes(icmp_type, identifier, sequence_number, payload);
            field16(b, 2) == checksum_spec(b.update(2, 0u8).update(3, 0u8))
        }),
{
    let z = echo_bytes_zero_checksum(icmp_type, identifier, sequence_number, payload);
    let c = checksum_spec(z);
    lemma_checksum_spec_bounds(z);
    let b = echo_packet_bytes(icmp_type, identifier, sequence_number, payload);
    assert(b.update(2, 0u8).update(3, 0u8) =~= z);
    assert(b[2] == (c / 256) as u8 && b[3] == (c % 256) as u8);
    assert(field16(b, 2) == c);
}

/// Round trip: a packet encoded with the Echo Reply type byte decodes back
/// to the identifier, sequence number and payload it was built from, for a
/// payload of any length.
pub proof fn lemma_encode_decode_roundtrip(
    identifier: u16,
    sequence_number: u16,
    payload: Seq<u8>,
    from: Ipv4Address,
)
    ensures
        decode_spec(echo_packet_bytes(ECHO_REPLY_TYPE, identifier, sequence_number, payload), from)
            == (ClassificationView::EchoReply { from, identifier, sequence_number, payload }),
{
    let z = echo_bytes_zero_checksum(ECHO_REPLY_TYPE, identifier, sequence_number, payload);
    let b = echo_packet_bytes(ECHO_REPLY_TYPE, identifier, sequence_number, payload);
    assert(b.len() == ICMP_HEADER_LEN + payload.len());
    assert(b[0] == ECHO_REPLY_TYPE);
    assert(b[4] == hi(identifier) && b[5] == lo(identifier));
    assert(b[6] == hi(sequence_number) && b[7] == lo(sequence_number));
    assert(field16(b, 4) == identifier);
    assert(field16(b, 6) == sequence_number);
    assert(b.subrange(ICMP_HEADER_LEN as int, b.len() as int) =~= payload);
}

/// The decoded result of one received ICMP datagram, together with the
/// source address the transport delivered it from.
pub enum Classification {
    EchoReply { from: Ipv4Address, identifier: u16, sequence_number: u16, payload: Vec<u8> },
    TimeToLiveExceeded { from: Ipv4Address },
    Unexpected { raw: Vec<u8> },
    Malformed { raw: Vec<u8> },
}

/// The mathematical model of a `Classification`.
pub enum ClassificationView {
    EchoReply { from: Ipv4Address, identifier: u16, sequence_number: u16, payload: Seq<u8> },
    TimeToLiveExceeded { from: Ipv4Address },
    Unexpected { raw: Seq<u8> },
    Malformed { raw: Seq<u8> },
}

impl View for Classification {
    type V = ClassificationView;

    open spec fn view(&self) -> ClassificationView {
        match self {
            Classification::EchoReply { from, identifier, sequence_number, payload } => {
                ClassificationView::EchoReply {
                    from: *from,
                    identifier: *identifier,
                    sequence_number: *sequence_number,
                    payload: payload@,
                }
            },
            Classification::TimeToLiveExceeded { from } => {
                ClassificationView::TimeToLiveExceeded { from: *from }
            },
            Classification::Unexpected { raw } => {
                ClassificationView::Unexpected { raw: raw@ }
            },
            Classification::Malformed { raw } => {
                ClassificationView::Malformed { raw: raw@ }
            },
        }
    }
}

/// What decoding a received byte buffer yields: `Malformed` when it is
/// shorter than the fixed header, otherwise classified by its type byte,
/// with the echo fields read big-endian and the payload taken verbatim.
pub open spec fn decode_spec(b: Seq<u8>, from: Ipv4Address) -> ClassificationView {
    if b.len() < ICMP_HEADER_LEN {
        ClassificationView::Malformed { raw: b }
    } else if b[0] == ECHO_REPLY_TYPE {
        ClassificationView::EchoReply {
            from,
            identifier: field16(b, 4),
            sequence_number: field16(b, 6),
            payload: b.subrange(ICMP_HEADER_LEN as int, b.len() as int),
        }
    } else if b[0] == TIME_EXCEEDED_TYPE {
        ClassificationView::TimeToLiveExceeded { from }
    } else {
        ClassificationView::Unexpected { raw: b }
    }
}

/// Copy `buf[start..end]` into a fresh vector.
fn copy_range(buf: &Vec<u8>, start: usize, end: usize) -> (r: Vec<u8>)
    requires
        start <= end <= buf@.len(),
    ensures
        r@ == buf@.subrange(start as int, end as int),
{
    let mut r: Vec<u8> = Vec::new();
    let mut i: usize = start;
    while i < end
        invariant
            start <= i <= end <= buf@.len(),
            r@ == buf@.subrange(start as int, i as int),
        decreases end - i,
    {
        r.push(buf[i]);
        assert(r@ =~= buf@.subrange(start as int, i as int + 1));
        i = i + 1;
    }
    r
}

/// Read the 16-bit big-endian field of `buf` at byte offset `i`.
fn read_be16(buf: &Vec<u8>, i: usize) -> (x: u16)
    requires
        i + 1 < buf@.len(),
    ensures
        x == field16(buf@, i as int),
{
    let n: usize = buf.len();
    assert(i + 1 < n);
    (buf[i] as u16) * 256 + (buf[i + 1] as u16)
}

/// Decode one received ICMP datagram, delivered from source address `from`,
/// exactly as `decode_spec` describes. The buffer is only read, never
/// changed.
pub fn decode(buf: &Vec<u8>, from: Ipv4Address) -> (c: Classification)
    ensures
        c@ == decode_spec(buf@, from),
{
    assert(buf@.subrange(0, buf@.len() as int) =~= buf@);
    if buf.len() < ICMP_HEADER_LEN {
        Classification::Malformed { raw: copy_range(buf, 0, buf.len()) }
    } else if buf[0] == ECHO_REPLY_TYPE {
        let identifier: u16 = read_be16(buf, 4);
        let sequence_number: u16 = read_be16(buf, 6);
        let payload: Vec<u8> = copy_range(buf, ICMP_HEADER_LEN, buf.len());
        Classification::EchoReply { from, identifier, sequence_number, payload }
    } else if buf[0] == TIME_EXCEEDED_TYPE {
        Classification::TimeToLiveExceeded { from }
    } else {
        Classification::Unexpected { raw: copy_range(buf, 0, buf.len()) }
    }
}

} // verus!
