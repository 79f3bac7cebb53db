use uuidgen::clock::{Timestamp, CLOCK_SEED};
use uuidgen::custom::generate_v8;
use uuidgen::format::to_hyphenated;
use uuidgen::generate::{
    generate_v1, generate_v3, generate_v4, generate_v5, generate_v6, generate_v7, node_id,
    parse_namespace,
};
use uuidgen::id::Uuid;
use uuidgen::request::ValidationError;

const DNS: &str = "6ba7b810-9dad-11d1-80b4-00c04fd430c8";

fn dns() -> Uuid {
    parse_namespace(DNS).unwrap()
}

fn expected_v1(ts: &Timestamp, node: &[u8; 6]) -> [u8; 16] {
    let ticks = 0x01B2_1DD2_1381_4000u64
        .wrapping_add(ts.seconds.wrapping_mul(10_000_000))
        .wrapping_add(u64::from(ts.subsec_nanos) / 100);
    let low = ticks.to_be_bytes();
    [
        low[4],
        low[5],
        low[6],
        low[7],
        low[2],
        low[3],
        (low[0] & 0x0F) | 0x10,
        low[1],
        (ts.counter.to_be_bytes()[0] & 0x3F) | 0x80,
        ts.counter.to_be_bytes()[1],
        node[0],
        node[1],
        node[2],
        node[3],
        node[4],
        node[5],
    ]
}

fn expected_v6(ts: &Timestamp, node: &[u8; 6]) -> [u8; 16] {
    let ticks = 0x01B2_1DD2_1381_4000u64
        .wrapping_add(ts.seconds.wrapping_mul(10_000_000))
        .wrapping_add(u64::from(ts.subsec_nanos) / 100);
    let high = (ticks << 4).to_be_bytes();
    let low = ticks.to_be_bytes();
    [
        high[0],
        high[1],
        high[2],
        high[3],
        high[4],
        high[5],
        (low[6] & 0x0F) | 0x60,
        low[7],
        (ts.counter.to_be_bytes()[0] & 0x3F) | 0x80,
        ts.counter.to_be_bytes()[1],
        node[0],
        node[1],
        node[2],
        node[3],
        node[4],
        node[5],
    ]
}

fn sample_timestamps() -> Vec<Timestamp> {
    vec![
        Timestamp { seconds: 0, subsec_nanos: 0, counter: 0 },
        Timestamp { seconds: 1_497_624_119, subsec_nanos: 1234, counter: 42 },
        Timestamp { seconds: 1_496_854_535, subsec_nanos: 812_946_000, counter: 0x3FFF },
        Timestamp { seconds: 1_700_000_000, subsec_nanos: 999_999_999, counter: 0xFFFF },
        Timestamp { seconds: u64::MAX, subsec_nanos: u32::MAX, counter: 0x4001 },
        Timestamp { seconds: 1_844_674_407_370, subsec_nanos: 955_161_600, counter: 0x1234 },
    ]
}

#[test]
fn v1_matches_the_documented_example() {
    let ts = Timestamp { seconds: 1_497_624_119, subsec_nanos: 1234, counter: 42 };
    let id = generate_v1(&ts, &[1, 2, 3, 4, 5, 6]);
    assert_eq!(to_hyphenated(&id, false), "f3b4958c-52a1-11e7-802a-010203040506");
}

#[test]
fn v1_lays_out_time_clock_and_node() {
    let node = node_id();
    for ts in sample_timestamps() {
        let id = generate_v1(&ts, &node);
        assert_eq!(*id.as_bytes(), expected_v1(&ts, &node));
        assert_eq!(id.version(), 1);
        assert!(id.is_rfc_variant());
    }
}

#[test]
fn v1_of_the_epoch_holds_the_gregorian_offset() {
    let ts = Timestamp { seconds: 0, subsec_nanos: 0, counter: 0 };
    let id = generate_v1(&ts, &[0, 0, 0, 0, 0, 0]);
    assert_eq!(to_hyphenated(&id, false), "13814000-1dd2-11b2-8000-000000000000");
}

#[test]
fn v6_matches_the_documented_example() {
    let ts = Timestamp { seconds: 1_497_624_119, subsec_nanos: 1234, counter: 42 };
    let id = generate_v6(&ts, &[1, 2, 3, 4, 5, 6]);
    assert_eq!(to_hyphenated(&id, false), "1e752a1f-3b49-658c-802a-010203040506");
}

#[test]
fn v6_lays_out_time_clock_and_node() {
    let node = node_id();
    for ts in sample_timestamps() {
        let id = generate_v6(&ts, &node);
        assert_eq!(*id.as_bytes(), expected_v6(&ts, &node));
        assert_eq!(id.version(), 6);
        assert!(id.is_rfc_variant());
    }
}

#[test]
fn v6_sorts_by_time() {
    let node = node_id();
    let early = Timestamp { seconds: 1_497_624_119, subsec_nanos: 0, counter: 42 };
    let late = Timestamp { seconds: 1_497_624_120, subsec_nanos: 0, counter: 42 };
    let a = to_hyphenated(&generate_v6(&early, &node), false);
    let b = to_hyphenated(&generate_v6(&late, &node), false);
    assert!(a < b);
}

#[test]
fn v7_starts_with_the_milliseconds() {
    let ts = Timestamp { seconds: 1_497_624_119, subsec_nanos: 1234, counter: 42 };
    let id = generate_v7(&ts);
    assert!(to_hyphenated(&id, false).starts_with("015cb15a-86d8-7"));
    assert_eq!(id.version(), 7);
    assert!(id.is_rfc_variant());
}

#[test]
fn v7_prefix_is_big_endian_millis() {
    for ts in sample_timestamps() {
        let millis = ts
            .seconds
            .saturating_mul(1000)
            .saturating_add(u64::from(ts.subsec_nanos) / 1_000_000);
        let id = generate_v7(&ts);
        assert_eq!(id.as_bytes()[..6], millis.to_be_bytes()[2..]);
        assert_eq!(id.version(), 7);
        assert!(id.is_rfc_variant());
    }
}

#[test]
fn v7_randomises_every_bit_but_time_and_markers() {
    let ts = Timestamp { seconds: 1_497_624_119, subsec_nanos: 1234, counter: 42 };
    let first = u128::from_be_bytes(*generate_v7(&ts).as_bytes());
    let mut seen = 0u128;
    for _ in 0..200 {
        seen |= first ^ u128::from_be_bytes(*generate_v7(&ts).as_bytes());
    }
    assert_eq!(seen, 0x0000_0000_0000_0FFF_3FFF_FFFF_FFFF_FFFF);
}

#[test]
fn v4_randomises_every_bit_but_the_markers() {
    let first = u128::from_be_bytes(*generate_v4().as_bytes());
    let mut seen = 0u128;
    for _ in 0..200 {
        seen |= first ^ u128::from_be_bytes(*generate_v4().as_bytes());
    }
    assert_eq!(seen, 0xFFFF_FFFF_FFFF_0FFF_3FFF_FFFF_FFFF_FFFF);
}

#[test]
fn v7_draws_fresh_random_bits() {
    let ts = Timestamp { seconds: 1_497_624_119, subsec_nanos: 1234, counter: 42 };
    assert_ne!(generate_v7(&ts), generate_v7(&ts));
}

#[test]
fn v4_has_its_markers_and_differs_each_time() {
    let a = generate_v4();
    let b = generate_v4();
    assert_eq!(a.version(), 4);
    assert!(a.is_rfc_variant());
    assert_eq!(b.version(), 4);
    assert!(b.is_rfc_variant());
    assert_ne!(a, b);
}

#[test]
fn v3_of_example_com_in_the_dns_namespace() {
    let id = generate_v3(&dns(), "example.com".as_bytes());
    assert_eq!(to_hyphenated(&id, false), "9073926b-929f-31c2-abc9-fad77ae3e8eb");
}

#[test]
fn v5_of_example_com_in_the_dns_namespace() {
    let id = generate_v5(&dns(), "example.com".as_bytes());
    assert_eq!(to_hyphenated(&id, false), "cfbff0d1-9375-5685-968c-48ce8b15ae17");
}

#[test]
fn v3_of_other_names() {
    let id = generate_v3(&dns(), "example.org".as_bytes());
    assert_eq!(to_hyphenated(&id, false), "04738bdf-b25a-3829-a801-b21a1d25095b");
    let id = generate_v3(&dns(), "rust-lang.org".as_bytes());
    assert_eq!(to_hyphenated(&id, false), "c6db027c-615c-3b4d-959e-1a917747ca5a");
}

#[test]
fn v5_of_other_names() {
    let id = generate_v5(&dns(), "example.org".as_bytes());
    assert_eq!(to_hyphenated(&id, false), "aad03681-8b63-5304-89e0-8ca8f49461b5");
    let id = generate_v5(&dns(), "rust-lang.org".as_bytes());
    assert_eq!(to_hyphenated(&id, false), "c66bbb60-d62e-5f17-a399-3a0bd237c503");
}

#[test]
fn name_based_generation_repeats_itself() {
    let namespace = dns();
    for name in ["", "a", "example.com", "\u{e9}t\u{e9}"] {
        let first = generate_v3(&namespace, name.as_bytes());
        assert_eq!(first, generate_v3(&namespace, name.as_bytes()));
        assert_eq!(first.version(), 3);
        assert!(first.is_rfc_variant());
        let first = generate_v5(&namespace, name.as_bytes());
        assert_eq!(first, generate_v5(&namespace, name.as_bytes()));
        assert_eq!(first.version(), 5);
        assert!(first.is_rfc_variant());
    }
}

#[test]
fn the_two_hashes_give_different_identifiers() {
    let namespace = dns();
    assert_ne!(
        generate_v3(&namespace, "example.com".as_bytes()),
        generate_v5(&namespace, "example.com".as_bytes())
    );
    assert_ne!(generate_v3(&namespace, b"a"), generate_v3(&namespace, b"b"));
    assert_ne!(generate_v3(&namespace, b"a"), namespace);
    assert_ne!(generate_v5(&namespace, b"a"), namespace);
}

#[test]
fn name_based_generation_depends_on_the_namespace() {
    let url = parse_namespace("6ba7b811-9dad-11d1-80b4-00c04fd430c8").unwrap();
    let id = generate_v3(&url, "example.org".as_bytes());
    assert_eq!(to_hyphenated(&id, false), "39682ca1-9168-3da2-a1bb-f4dbcde99bf9");
    let id = generate_v5(&url, "example.org".as_bytes());
    assert_eq!(to_hyphenated(&id, false), "54a35416-963c-5dd6-a1e2-5ab7bb5bafc7");
}

#[test]
fn namespace_is_read_in_each_form_the_parser_takes() {
    let bytes = [
        0x6b, 0xa7, 0xb8, 0x10, 0x9d, 0xad, 0x11, 0xd1, 0x80, 0xb4, 0x00, 0xc0, 0x4f, 0xd4, 0x30,
        0xc8,
    ];
    assert_eq!(parse_namespace(DNS), Ok(Uuid::from_bytes(bytes)));
    assert_eq!(parse_namespace("6BA7B810-9DAD-11D1-80B4-00C04FD430C8"), Ok(Uuid::from_bytes(bytes)));
    assert_eq!(parse_namespace("6ba7b8109dad11d180b400c04fd430c8"), Ok(Uuid::from_bytes(bytes)));
    assert_eq!(
        parse_namespace("{6ba7b810-9dad-11d1-80b4-00c04fd430c8}"),
        Ok(Uuid::from_bytes(bytes))
    );
    assert_eq!(
        parse_namespace("urn:uuid:6ba7b810-9dad-11d1-80b4-00c04fd430c8"),
        Ok(Uuid::from_bytes(bytes))
    );
}

#[test]
fn namespace_that_is_no_identifier_is_refused() {
    for text in [
        "",
        "not-a-uuid",
        "6ba7b810-9dad-11d1-80b4-00c04fd430c",
        "6ba7b810-9dad-11d1-80b4-00c04fd430c8a",
        "6ba7b810-9dad-11d1-80b4-00c04fd430cg",
        "6ba7b810_9dad_11d1_80b4_00c04fd430c8",
        " 6ba7b810-9dad-11d1-80b4-00c04fd430c8",
    ] {
        assert_eq!(parse_namespace(text), Err(ValidationError::InvalidNamespace));
    }
}

#[test]
fn parsing_reads_back_what_was_written() {
    let id = generate_v4();
    assert_eq!(parse_namespace(&to_hyphenated(&id, false)), Ok(id));
    assert_eq!(parse_namespace(&to_hyphenated(&id, true)), Ok(id));
}

#[test]
fn clock_reading_keeps_fourteen_bits_of_the_seed() {
    assert_eq!(Timestamp::now(CLOCK_SEED).counter, 42);
    assert_eq!(Timestamp::now(0).counter, 0);
    assert_eq!(Timestamp::now(0x3FFF).counter, 0x3FFF);
    assert_eq!(Timestamp::now(0x4000).counter, 0);
    assert_eq!(Timestamp::now(0xFFFF).counter, 0x3FFF);
}

#[test]
fn clock_reading_is_of_the_present() {
    let ts = Timestamp::now(CLOCK_SEED);
    assert!(ts.seconds > 1_600_000_000);
    assert!(ts.subsec_nanos < 1_000_000_000);
}

#[test]
fn v8_pads_short_data_with_zeros() {
    let id = generate_v8(b"hello");
    assert_eq!(
        *id.as_bytes(),
        [0x68, 0x65, 0x6c, 0x6c, 0x6f, 0, 0x80, 0, 0x80, 0, 0, 0, 0, 0, 0, 0]
    );
    assert_eq!(to_hyphenated(&id, false), "68656c6c-6f00-8000-8000-000000000000");
}

#[test]
fn v8_of_no_data_is_the_markers_alone() {
    let id = generate_v8(&[]);
    assert_eq!(to_hyphenated(&id, false), "00000000-0000-8000-8000-000000000000");
}

#[test]
fn v8_cuts_long_data_after_sixteen_bytes() {
    let id = generate_v8(b"0123456789abcdefTHIS IS CUT");
    assert_eq!(
        *id.as_bytes(),
        [
            0x30, 0x31, 0x32, 0x33, 0x34, 0x35, 0x86, 0x37, 0xb8, 0x39, 0x61, 0x62, 0x63, 0x64,
            0x65, 0x66
        ]
    );
    assert_eq!(id, generate_v8(b"0123456789abcdef"));
}

#[test]
fn v8_forces_only_the_two_marker_fields() {
    let data: Vec<u8> = (0..16).map(|i| 0xF0 | i).collect();
    let id = generate_v8(&data);
    for i in 0..16 {
        if i == 6 {
            assert_eq!(id.as_bytes()[6], 0x86);
        } else if i == 8 {
            assert_eq!(id.as_bytes()[8], 0xB8);
        } else {
            assert_eq!(id.as_bytes()[i], data[i]);
        }
    }
    let id = generate_v8(&[0xFF; 16]);
    assert_eq!(to_hyphenated(&id, false), "ffffffff-ffff-8fff-bfff-ffffffffffff");
    assert_eq!(id.version(), 8);
    assert!(id.is_rfc_variant());
}

#[test]
fn v8_agrees_with_the_uuid_crate() {
    let data = [0xA5u8; 16];
    let id = generate_v8(&data);
    assert_eq!(*id.as_bytes(), uuid::Builder::from_custom_bytes(data).into_uuid().into_bytes());
}
