//! The 95-byte location record: a fixed, positional big-endian layout packing
//! a length tag, a command tag, feature flags, scaled coordinates, a local
//! calendar timestamp and a UTC offset in minutes.

use vstd::prelude::*;

verus! {

/// A local calendar date and time together with its UTC offset in minutes.
///
/// The caller supplies the fields exactly as a wall clock shows them; the
/// record stores them positionally with no further interpretation, so the
/// encoder is total over the field types.
#[derive(Clone, Copy, PartialEq, Eq, Structural, Debug)]
pub struct LocalDateTime {
    pub year: u16,
    pub month: u8,
    pub day: u8,
    pub hour: u8,
    pub minute: u8,
    pub second: u8,
    /// Local time minus UTC, in minutes; negative west of Greenwich.
    pub offset_minutes: i16,
}

/// The two big-endian bytes of a 16-bit value.
pub open spec fn u16_be(x: u16) -> Seq<u8> {
    seq![((x >> 8) & 0xff) as u8, (x & 0xff) as u8]
}

/// The three big-endian bytes of the low 24 bits of a 32-bit value.
pub open spec fn u24_be(x: u32) -> Seq<u8> {
    seq![((x >> 16) & 0xff) as u8, ((x >> 8) & 0xff) as u8, (x & 0xff) as u8]
}

/// The four big-endian bytes of a 32-bit value.
pub open spec fn u32_be(x: u32) -> Seq<u8> {
    seq![
        ((x >> 24) & 0xff) as u8,
        ((x >> 16) & 0xff) as u8,
        ((x >> 8) & 0xff) as u8,
        (x & 0xff) as u8,
    ]
}

/// The bytes of the record that precede the reserved region: both constant
/// tags, the report-type flag, the reserved byte, the feature flags, the two
/// scaled coordinates and the timestamp fields, in layout order.
pub open spec fn payload_head(lat: u32, lng: u32, dt: LocalDateTime) -> Seq<u8> {
    u16_be(0x005d) + u24_be(0x0802fc) + seq![0x03u8] + seq![0x00u8] + u32_be(0x0010_1010)
        + u32_be(lat) + u32_be(lng) + u16_be(dt.year)
        + seq![dt.month] + seq![dt.day] + seq![dt.hour] + seq![dt.minute] + seq![dt.second]
}

/// The whole 95-byte record: the head, 65 reserved zero bytes, the UTC offset
/// in minutes reinterpreted as an unsigned 16-bit value, and a zero DST field.
pub open spec fn payload_spec(lat: u32, lng: u32, dt: LocalDateTime) -> Seq<u8> {
    payload_head(lat, lng, dt) + Seq::new(65, |j: int| 0u8)
        + u16_be(dt.offset_minutes as u16) + u16_be(0x0000)
}

/// Appends the two big-endian bytes of `x`.
pub fn push_u16_be(data: &mut Vec<u8>, x: u16)
    ensures
        final(data)@ == old(data)@ + u16_be(x),
{
    data.push(((x >> 8) & 0xff) as u8);
    data.push((x & 0xff) as u8);
    proof {
        assert(data@ =~= old(data)@ + u16_be(x));
    }
}

/// Appends the three big-endian bytes of the low 24 bits of `x`.
pub fn push_u24_be(data: &mut Vec<u8>, x: u32)
    ensures
        final(data)@ == old(data)@ + u24_be(x),
{
    data.push(((x >> 16) & 0xff) as u8);
    data.push(((x >> 8) & 0xff) as u8);
    data.push((x & 0xff) as u8);
    proof {
        assert(data@ =~= old(data)@ + u24_be(x));
    }
}

/// Appends the four big-endian bytes of `x`.
pub fn push_u32_be(data: &mut Vec<u8>, x: u32)
    ensures
        final(data)@ == old(data)@ + u32_be(x),
{
    data.push(((x >> 24) & 0xff) as u8);
    data.push(((x >> 16) & 0xff) as u8);
    data.push(((x >> 8) & 0xff) as u8);
    data.push((x & 0xff) as u8);
    proof {
        assert(data@ =~= old(data)@ + u32_be(x));
    }
}

/// Encodes the location record: `lat` and `lng` are the coordinates already
/// scaled to ten-millionths of a degree and reinterpreted as unsigned 32-bit
/// values, `dt` is the local wall-clock time with its UTC offset.
pub fn location_payload(lat: u32, lng: u32, dt: &LocalDateTime) -> (data: Vec<u8>)
    ensures
        data@ == payload_spec(lat, lng, *dt),
        data@.len() == 95,
{
    let mut data: Vec<u8> = Vec::new();
    push_u16_be(&mut data, 0x005d);
    push_u24_be(&mut data, 0x0802fc);
    data.push(0x03);
    data.push(0x00);
    push_u32_be(&mut data, 0x0010_1010);
    push_u32_be(&mut data, lat);
    push_u32_be(&mut data, lng);
    push_u16_be(&mut data, dt.year);
    data.push(dt.month);
    data.push(dt.day);
    data.push(dt.hour);
    data.push(dt.minute);
    data.push(dt.second);
    proof {
        assert(data@ =~= payload_head(lat, lng, *dt));
    }
    let mut i: usize = 0;
    while i < 65
        invariant
            i <= 65,
            data@ == payload_head(lat, lng, *dt) + Seq::new(i as nat, |j: int| 0u8),
        decreases 65 - i,
    {
        data.push(0x00);
        i = i + 1;
        proof {
            assert(data@ =~= payload_head(lat, lng, *dt) + Seq::new(i as nat, |j: int| 0u8));
        }
    }
    push_u16_be(&mut data, dt.offset_minutes as u16);
    push_u16_be(&mut data, 0x0000);
    proof {
        assert(data@ =~= payload_spec(lat, lng, *dt));
        assert(data@.len() == 95);
    }
    data
}

/// The timestamp fields read back out of a record: the big-endian 16-bit year
/// followed by the month, day, hour, minute and second bytes.
pub open spec fn date_fields_of(s: Seq<u8>) -> (u16, u8, u8, u8, u8, u8) {
    (
        ((s[19] as u16) << 8) | (s[20] as u16),
        s[21],
        s[22],
        s[23],
        s[24],
        s[25],
    )
}

/// Reads the timestamp fields back out of an encoded record.
pub fn decode_date_fields(data: &Vec<u8>) -> (r: (u16, u8, u8, u8, u8, u8))
    requires
        data@.len() == 95,
    ensures
        r == date_fields_of(data@),
{
    let year: u16 = ((data[19] as u16) << 8) | (data[20] as u16);
    (year, data[21], data[22], data[23], data[24], data[25])
}

/// Every byte of the record, by offset: the constant tags and flags, the
/// big-endian coordinate and timestamp fields, the reserved zeros, and the
/// offset and DST fields.
pub proof fn lemma_payload_bytes(lat: u32, lng: u32, dt: LocalDateTime)
    ensures
        payload_spec(lat, lng, dt).len() == 95,
        payload_spec(lat, lng, dt).subrange(0, 2) == u16_be(0x005d),
        payload_spec(lat, lng, dt).subrange(2, 5) == u24_be(0x0802fc),
        payload_spec(lat, lng, dt)[5] == 0x03u8,
        payload_spec(lat, lng, dt)[6] == 0x00u8,
        payload_spec(lat, lng, dt).subrange(7, 11) == u32_be(0x0010_1010),
        payload_spec(lat, lng, dt).subrange(11, 15) == u32_be(lat),
        payload_spec(lat, lng, dt).subrange(15, 19) == u32_be(lng),
        payload_spec(lat, lng, dt).subrange(19, 21) == u16_be(dt.year),
        payload_spec(lat, lng, dt)[21] == dt.month,
        payload_spec(lat, lng, dt)[22] == dt.day,
        payload_spec(lat, lng, dt)[23] == dt.hour,
        payload_spec(lat, lng, dt)[24] == dt.minute,
        payload_spec(lat, lng, dt)[25] == dt.second,
        forall|i: int| 26 <= i < 91 ==> payload_spec(lat, lng, dt)[i] == 0u8,
        payload_spec(lat, lng, dt).subrange(91, 93) == u16_be(dt.offset_minutes as u16),
        payload_spec(lat, lng, dt).subrange(93, 95) == u16_be(0x0000),
{
    let h = payload_head(lat, lng, dt);
    let p = payload_spec(lat, lng, dt);
    assert(h.len() == 26);
    assert(p.len() == 95);
    assert(p.subrange(0, 2) =~= u16_be(0x005d));
    assert(p.subrange(2, 5) =~= u24_be(0x0802fc));
    assert(p.subrange(7, 11) =~= u32_be(0x0010_1010));
    assert(p.subrange(11, 15) =~= u32_be(lat));
    assert(p.subrange(15, 19) =~= u32_be(lng));
    assert(p.subrange(19, 21) =~= u16_be(dt.year));
    assert(p.subrange(91, 93) =~= u16_be(dt.offset_minutes as u16));
    assert(p.subrange(93, 95) =~= u16_be(0x0000));
}

/// The encoding is deterministic: any two records built from the same scaled
/// coordinates and the same timestamp are the same byte sequence.
pub proof fn lemma_payload_deterministic(lat: u32, lng: u32, dt: LocalDateTime, a: Seq<u8>, b: Seq<u8>)
    requires
        a == payload_spec(lat, lng, dt),
        b == payload_spec(lat, lng, dt),
    ensures
        a == b,
{
}

/// Every record is exactly 95 bytes long, whatever the inputs.
pub proof fn lemma_payload_len(lat: u32, lng: u32, dt: LocalDateTime)
    ensures
        payload_spec(lat, lng, dt).len() == 95,
{
    lemma_payload_bytes(lat, lng, dt);
}

/// The reserved region is zero-filled: bytes 26 through 90 of every record
/// are zero, whatever the inputs.
pub proof fn lemma_reserved_zero(lat: u32, lng: u32, dt: LocalDateTime)
    ensures
        forall|i: int| 26 <= i < 91 ==> payload_spec(lat, lng, dt)[i] == 0u8,
{
    lemma_payload_bytes(lat, lng, dt);
}

/// The constant fields never vary: the length tag, the command tag, the
/// report-type flag, the reserved byte, the feature flags and the DST field
/// hold their documented values in every record.
pub proof fn lemma_constant_fields(lat: u32, lng: u32, dt: LocalDateTime)
    ensures
        payload_spec(lat, lng, dt).subrange(0, 2) == seq![0x00u8, 0x5du8],
        payload_spec(lat, lng, dt).subrange(2, 5) == seq![0x08u8, 0x02u8, 0xfcu8],
        payload_spec(lat, lng, dt)[5] == 0x03u8,
        payload_spec(lat, lng, dt)[6] == 0x00u8,
        payload_spec(lat, lng, dt).subrange(7, 11) == seq![0x00u8, 0x10u8, 0x10u8, 0x10u8],
        payload_spec(lat, lng, dt).subrange(93, 95) == seq![0x00u8, 0x00u8],
{
    lemma_payload_bytes(lat, lng, dt);
    assert(((0x005du16 >> 8) & 0xff) as u8 == 0x00u8 && (0x005du16 & 0xff) as u8 == 0x5du8)
        by (bit_vector);
    assert(((0x0802fcu32 >> 16) & 0xff) as u8 == 0x08u8
        && ((0x0802fcu32 >> 8) & 0xff) as u8 == 0x02u8
        && (0x0802fcu32 & 0xff) as u8 == 0xfcu8) by (bit_vector);
    assert(((0x0010_1010u32 >> 24) & 0xff) as u8 == 0x00u8
        && ((0x0010_1010u32 >> 16) & 0xff) as u8 == 0x10u8
        && ((0x0010_1010u32 >> 8) & 0xff) as u8 == 0x10u8
        && (0x0010_1010u32 & 0xff) as u8 == 0x10u8) by (bit_vector);
    assert(((0x0000u16 >> 8) & 0xff) as u8 == 0x00u8 && (0x0000u16 & 0xff) as u8 == 0x00u8)
        by (bit_vector);
    assert(u16_be(0x005d) =~= seq![0x00u8, 0x5du8]);
    assert(u24_be(0x0802fc) =~= seq![0x08u8, 0x02u8, 0xfcu8]);
    assert(u32_be(0x0010_1010) =~= seq![0x00u8, 0x10u8, 0x10u8, 0x10u8]);
    assert(u16_be(0x0000) =~= seq![0x00u8, 0x00u8]);
}

/// Decoding a record's timestamp region gives back exactly the calendar
/// fields it was encoded from.
pub proof fn lemma_date_round_trip(lat: u32, lng: u32, dt: LocalDateTime)
    ensures
        date_fields_of(payload_spec(lat, lng, dt))
            == (dt.year, dt.month, dt.day, dt.hour, dt.minute, dt.second),
{
    lemma_payload_bytes(lat, lng, dt);
    let p = payload_spec(lat, lng, dt);
    assert(p[19] == ((dt.year >> 8) & 0xff) as u8 && p[20] == (dt.year & 0xff) as u8) by {
        assert(p.subrange(19, 21) == u16_be(dt.year));
        assert(p.subrange(19, 21)[0] == p[19]);
        assert(p.subrange(19, 21)[1] == p[20]);
    }
    let y = dt.year;
    assert(((((y >> 8) & 0xff) as u8 as u16) << 8) | ((y & 0xff) as u8 as u16) == y) by (bit_vector);
}

} // verus!
