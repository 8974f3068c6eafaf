use gstplugins::pt::{parse_pt, pt_to_string};
use gstplugins::pt_map::{pt_clock_rate, CapsInfo, FieldValue, PtMap, PT_COUNT};
use gstplugins::element::SessionProperty;
use gstplugins::session::RtpBin2Session;

/// Caps as the tests build them: a media type with payload and clock rate.
#[derive(Debug, Clone, PartialEq)]
struct TestCaps {
    media: String,
    payload: i32,
    clock_rate: i32,
}

fn rtp_caps(payload: i32, clock_rate: i32) -> TestCaps {
    TestCaps { media: "application/x-rtp".to_string(), payload, clock_rate }
}

fn caps_field(name: &str, caps: &TestCaps) -> (String, FieldValue<TestCaps>) {
    (
        name.to_string(),
        FieldValue::Caps(CapsInfo {
            payload: Some(caps.payload),
            clock_rate: Some(caps.clock_rate),
            caps: caps.clone(),
        }),
    )
}

fn field_names<C>(fields: &[(String, C)]) -> Vec<String> {
    fields.iter().map(|(n, _)| n.clone()).collect()
}

#[test]
fn pt_map_get_empty() {
    let map: PtMap<TestCaps> = PtMap::new();
    let session = RtpBin2Session::new(0u32);
    let pt_map = session.pt_map(Some(&map));
    assert!(pt_map.name == "application/x-rtpbin2-pt-map");
    assert_eq!(pt_map.fields.len(), 0);
}

#[test]
fn pt_map_set() {
    let mut map: PtMap<TestCaps> = PtMap::new();
    let session = RtpBin2Session::new(0u32);
    let pt = 96i32;
    let pt_caps = rtp_caps(pt, 90000);
    let pt_map = vec![caps_field(&pt.to_string(), &pt_caps)];
    session.set_pt_map(Some(&mut map), Some(pt_map));
    let prop = session.pt_map(Some(&map));
    assert!(prop.name == "application/x-rtpbin2-pt-map");
    assert_eq!(prop.fields.len(), 1);
    let caps = prop
        .fields
        .iter()
        .find(|(name, _)| *name == pt.to_string())
        .map(|(_, caps)| *caps)
        .unwrap();
    assert_eq!(&pt_caps, caps);
}

#[test]
fn pt_map_set_none() {
    let mut map: PtMap<TestCaps> = PtMap::new();
    let session = RtpBin2Session::new(0u32);
    session.set_pt_map(Some(&mut map), None);
    let prop = session.pt_map(Some(&map));
    assert!(prop.name == "application/x-rtpbin2-pt-map");
}

#[test]
fn parse_pt_accepts_what_u8_parse_accepts() {
    for text in ["0", "9", "96", "127", "255", "+5", "007", "+0255", "00000000000000000096"] {
        assert_eq!(parse_pt(text), text.parse::<u8>().ok(), "{text}");
    }
    assert_eq!(parse_pt("96"), Some(96));
    assert_eq!(parse_pt("+5"), Some(5));
    assert_eq!(parse_pt("007"), Some(7));
}

#[test]
fn parse_pt_refuses_what_u8_parse_refuses() {
    for text in ["", "+", "-", "-0", "-1", "256", "1000", "12a", "a12", " 1", "1 ", "++1", "٣", "99999999999"] {
        assert_eq!(parse_pt(text), None, "{text}");
        assert!(text.parse::<u8>().is_err(), "{text}");
    }
}

#[test]
fn pt_to_string_writes_decimal() {
    assert_eq!(pt_to_string(0), "0");
    assert_eq!(pt_to_string(9), "9");
    assert_eq!(pt_to_string(10), "10");
    assert_eq!(pt_to_string(96), "96");
    assert_eq!(pt_to_string(100), "100");
    assert_eq!(pt_to_string(255), "255");
}

#[test]
fn pt_text_round_trips() {
    for v in 0..=255u8 {
        assert_eq!(pt_to_string(v), v.to_string());
        assert_eq!(parse_pt(&pt_to_string(v)), Some(v));
    }
}

#[test]
fn pt_clock_rate_needs_both_fields_in_range() {
    assert_eq!(pt_clock_rate(Some(96), Some(90000)), Some((96, 90000)));
    assert_eq!(pt_clock_rate(Some(0), Some(1)), Some((0, 1)));
    assert_eq!(pt_clock_rate(Some(127), Some(8000)), Some((127, 8000)));
    assert_eq!(pt_clock_rate(Some(128), Some(8000)), None);
    assert_eq!(pt_clock_rate(Some(-1), Some(8000)), None);
    assert_eq!(pt_clock_rate(Some(96), Some(0)), None);
    assert_eq!(pt_clock_rate(Some(96), Some(-90000)), None);
    assert_eq!(pt_clock_rate(None, Some(90000)), None);
    assert_eq!(pt_clock_rate(Some(96), None), None);
}

#[test]
fn add_caps_keys_by_caps_payload() {
    let mut map: PtMap<TestCaps> = PtMap::new();
    map.add_caps(CapsInfo { payload: Some(8), clock_rate: Some(8000), caps: rtp_caps(8, 8000) });
    map.add_caps(CapsInfo { payload: Some(200), clock_rate: Some(8000), caps: rtp_caps(200, 8000) });
    map.add_caps(CapsInfo { payload: None, clock_rate: Some(8000), caps: rtp_caps(9, 8000) });
    let entries = map.entries();
    assert_eq!(entries.len(), 1);
    assert_eq!(entries[0].0, 8);
    assert_eq!(entries[0].1, &rtp_caps(8, 8000));
    map.add_caps(CapsInfo { payload: Some(8), clock_rate: Some(16000), caps: rtp_caps(8, 16000) });
    let entries = map.entries();
    assert_eq!(entries.len(), 1);
    assert_eq!(entries[0].1, &rtp_caps(8, 16000));
    map.clear_pt_map();
    assert_eq!(map.entries().len(), 0);
}

#[test]
fn set_pt_map_skips_unreadable_fields() {
    let mut map: PtMap<TestCaps> = PtMap::new();
    let session = RtpBin2Session::new(());
    let fields = vec![
        caps_field("pcmu", &rtp_caps(0, 8000)),
        ("97".to_string(), FieldValue::Other),
        ("98".to_string(), FieldValue::Caps(CapsInfo { payload: Some(98), clock_rate: None, caps: rtp_caps(98, 0) })),
        caps_field("99", &rtp_caps(99, 90000)),
        caps_field("300", &rtp_caps(100, 90000)),
    ];
    session.set_pt_map(Some(&mut map), Some(fields));
    let prop = session.pt_map(Some(&map));
    assert_eq!(field_names(&prop.fields), vec!["99".to_string()]);
    assert_eq!(prop.fields[0].1, &rtp_caps(99, 90000));
}

#[test]
fn set_pt_map_uses_the_caps_payload_and_the_last_field_wins() {
    let mut map: PtMap<TestCaps> = PtMap::new();
    let session = RtpBin2Session::new(());
    let fields = vec![
        caps_field("97", &rtp_caps(96, 90000)),
        caps_field("96", &rtp_caps(96, 48000)),
        caps_field("+8", &rtp_caps(8, 8000)),
    ];
    session.set_pt_map(Some(&mut map), Some(fields));
    let prop = session.pt_map(Some(&map));
    assert_eq!(field_names(&prop.fields), vec!["8".to_string(), "96".to_string()]);
    assert_eq!(prop.fields[0].1, &rtp_caps(8, 8000));
    assert_eq!(prop.fields[1].1, &rtp_caps(96, 48000));
}

#[test]
fn set_pt_map_replaces_the_previous_map() {
    let mut map: PtMap<TestCaps> = PtMap::new();
    let session = RtpBin2Session::new(());
    session.set_pt_map(Some(&mut map), Some(vec![caps_field("0", &rtp_caps(0, 8000))]));
    session.set_pt_map(Some(&mut map), Some(vec![caps_field("8", &rtp_caps(8, 8000))]));
    let prop = session.pt_map(Some(&map));
    assert_eq!(field_names(&prop.fields), vec!["8".to_string()]);
    session.set_pt_map(Some(&mut map), None);
    assert_eq!(session.pt_map(Some(&map)).fields.len(), 0);
}

#[test]
fn pt_map_lists_in_ascending_order() {
    let mut map: PtMap<TestCaps> = PtMap::new();
    let session = RtpBin2Session::new(());
    let pts = [127, 3, 96, 0, 33];
    let fields = pts.iter().map(|pt| caps_field(&pt.to_string(), &rtp_caps(*pt, 90000))).collect();
    session.set_pt_map(Some(&mut map), Some(fields));
    let prop = session.pt_map(Some(&map));
    assert_eq!(field_names(&prop.fields), vec!["0", "3", "33", "96", "127"]);
    for (name, caps) in prop.fields {
        assert_eq!(caps.payload.to_string(), name);
    }
    assert_eq!(PT_COUNT, 128);
}

#[test]
fn no_session_changes_nothing_and_lists_nothing() {
    let session: RtpBin2Session<()> = RtpBin2Session::new(());
    session.set_pt_map::<TestCaps>(None, Some(vec![caps_field("96", &rtp_caps(96, 90000))]));
    let prop = session.pt_map::<TestCaps>(None);
    assert!(prop.name == "application/x-rtpbin2-pt-map");
    assert_eq!(prop.fields.len(), 0);
}

#[test]
fn session_object_keeps_its_session() {
    let mut session = RtpBin2Session::new(1u8);
    assert_eq!(session.weak_session, Some(1));
    session.set_session(2);
    assert_eq!(session.weak_session, Some(2));
}

#[test]
fn pt_map_property_reads_and_writes_the_map() {
    let mut map: PtMap<TestCaps> = PtMap::new();
    let session = RtpBin2Session::new(());
    let prop = session.property(SessionProperty::PtMap, Some(&map));
    assert!(prop.name == "application/x-rtpbin2-pt-map");
    assert_eq!(prop.fields.len(), 0);
    let caps = rtp_caps(96, 90000);
    session.set_property(SessionProperty::PtMap, Some(&mut map), Some(vec![caps_field("96", &caps)]));
    let prop = session.property(SessionProperty::PtMap, Some(&map));
    assert_eq!(field_names(&prop.fields), vec!["96".to_string()]);
    assert_eq!(prop.fields[0].1, &caps);
    session.set_property(SessionProperty::PtMap, Some(&mut map), None);
    assert_eq!(session.property(SessionProperty::PtMap, Some(&map)).fields.len(), 0);
}
