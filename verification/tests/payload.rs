use gps_payload::payload::{decode_date_fields, location_payload, push_u16_be, push_u24_be, push_u32_be, LocalDateTime};

fn everest_base_camp() -> LocalDateTime {
    LocalDateTime {
        year: 2023,
        month: 5,
        day: 29,
        hour: 11,
        minute: 30,
        second: 0,
        offset_minutes: 345,
    }
}

#[test]
fn deterministic_for_fixed_inputs() {
    let dt: LocalDateTime = everest_base_camp();
    let a: Vec<u8> = location_payload(279860650, 869226230, &dt);
    let b: Vec<u8> = location_payload(279860650, 869226230, &dt);
    assert_eq!(a, b);
}

#[test]
fn length_is_95() {
    let dt: LocalDateTime = everest_base_camp();
    assert_eq!(location_payload(279860650, 869226230, &dt).len(), 95);
    let other: LocalDateTime = LocalDateTime {
        year: 65535,
        month: 255,
        day: 255,
        hour: 255,
        minute: 255,
        second: 255,
        offset_minutes: -32768,
    };
    assert_eq!(location_payload(0, 0, &other).len(), 95);
    assert_eq!(location_payload(u32::MAX, u32::MAX, &other).len(), 95);
}

#[test]
fn reserved_bytes_are_zero() {
    let dt: LocalDateTime = everest_base_camp();
    let data: Vec<u8> = location_payload(u32::MAX, u32::MAX, &dt);
    for i in 26..=90usize {
        assert_eq!(data[i], 0, "byte {} not zero", i);
    }
}

#[test]
fn constant_fields_hold() {
    let dt: LocalDateTime = LocalDateTime {
        year: 1999,
        month: 12,
        day: 31,
        hour: 23,
        minute: 59,
        second: 58,
        offset_minutes: -720,
    };
    let data: Vec<u8> = location_payload(123456789, 987654321, &dt);
    assert_eq!(&data[0..2], &[0x00, 0x5d]);
    assert_eq!(&data[2..5], &[0x08, 0x02, 0xfc]);
    assert_eq!(data[5], 0x03);
    assert_eq!(data[6], 0x00);
    assert_eq!(&data[7..11], &[0x00, 0x10, 0x10, 0x10]);
    assert_eq!(&data[93..95], &[0x00, 0x00]);
}

#[test]
fn date_fields_round_trip() {
    let dt: LocalDateTime = everest_base_camp();
    let data: Vec<u8> = location_payload(279860650, 869226230, &dt);
    let (year, month, day, hour, minute, second) = decode_date_fields(&data);
    assert_eq!(year, 2023);
    assert_eq!(month, 5);
    assert_eq!(day, 29);
    assert_eq!(hour, 11);
    assert_eq!(minute, 30);
    assert_eq!(second, 0);
}

#[test]
fn date_bytes_are_big_endian() {
    let dt: LocalDateTime = everest_base_camp();
    let data: Vec<u8> = location_payload(279860650, 869226230, &dt);
    assert_eq!(&data[19..21], &[0x07, 0xe7]);
    assert_eq!(&data[21..26], &[5, 29, 11, 30, 0]);
}

#[test]
fn coordinate_scaling_example() {
    let lat_scaled: u32 = (27.986065f64 * 10_000_000f64) as u32;
    let lng_scaled: u32 = (86.922623f64 * 10_000_000f64) as u32;
    assert_eq!(lat_scaled, 279860650);
    assert_eq!(lng_scaled, 869226230);
    let dt: LocalDateTime = everest_base_camp();
    let data: Vec<u8> = location_payload(lat_scaled, lng_scaled, &dt);
    assert_eq!(&data[11..15], &279860650u32.to_be_bytes());
    assert_eq!(&data[15..19], &869226230u32.to_be_bytes());
}

#[test]
fn positive_offset_example() {
    let dt: LocalDateTime = everest_base_camp();
    let data: Vec<u8> = location_payload(279860650, 869226230, &dt);
    assert_eq!(&data[91..93], &[0x01, 0x59]);
    assert_eq!(&data[93..95], &[0x00, 0x00]);
}

#[test]
fn negative_offset_wraps_to_two_complement() {
    let dt: LocalDateTime = LocalDateTime {
        year: 2023,
        month: 5,
        day: 29,
        hour: 11,
        minute: 30,
        second: 0,
        offset_minutes: -480,
    };
    let data: Vec<u8> = location_payload(279860650, 869226230, &dt);
    assert_eq!(&data[91..93], &[0xfe, 0x20]);
}

#[test]
fn negative_coordinate_wraps_to_two_complement() {
    let lat_scaled: u32 = (-33.868820f64 * 10_000_000f64) as u32;
    let dt: LocalDateTime = everest_base_camp();
    let data: Vec<u8> = location_payload(lat_scaled, 0, &dt);
    assert_eq!(&data[11..15], &lat_scaled.to_be_bytes());
}

#[test]
fn big_endian_writers() {
    let mut v: Vec<u8> = Vec::new();
    push_u16_be(&mut v, 0xabcd);
    assert_eq!(v, vec![0xab, 0xcd]);
    let mut v: Vec<u8> = Vec::new();
    push_u24_be(&mut v, 0x00123456);
    assert_eq!(v, vec![0x12, 0x34, 0x56]);
    let mut v: Vec<u8> = Vec::new();
    push_u32_be(&mut v, 0xdeadbeef);
    assert_eq!(v, vec![0xde, 0xad, 0xbe, 0xef]);
    push_u16_be(&mut v, 0x0001);
    assert_eq!(v, vec![0xde, 0xad, 0xbe, 0xef, 0x00, 0x01]);
}
