use etw_trace::process::{key_units, ProcessTypeGroup1};
use etw_trace::projector::{
    accepts_event, decode_name, project_event, top_level_count, until_nul, EventError,
    ProjectError, Projection, PropertyMap,
};
use etw_trace::status::{ERROR_INSUFFICIENT_BUFFER, ERROR_SUCCESS};
use etw_trace::tdh::Tdh;

fn units(s: &str) -> Vec<u16> {
    s.encode_utf16().collect()
}

fn utf16_bytes(s: &str) -> Vec<u8> {
    let mut b = Vec::new();
    for u in s.encode_utf16() {
        b.extend_from_slice(&u.to_le_bytes());
    }
    b.extend_from_slice(&[0, 0]);
    b
}

#[test]
fn sizing_comes_once_before_data() {
    let calls = std::cell::RefCell::new(Vec::new());
    let r = Tdh::get_event_information(|a: Option<u32>| {
        calls.borrow_mut().push(a);
        match a {
            None => (ERROR_INSUFFICIENT_BUFFER, 4, Vec::new()),
            Some(n) => (ERROR_SUCCESS, n, vec![7u8; n as usize]),
        }
    });
    assert_eq!(r, Ok(vec![7u8; 4]));
    assert_eq!(*calls.borrow(), vec![None, Some(4)]);
}

#[test]
fn immediate_success_is_rejected() {
    let calls = std::cell::RefCell::new(0usize);
    let r = Tdh::get_event_information(|_a: Option<u32>| {
        *calls.borrow_mut() += 1;
        (ERROR_SUCCESS, 0, Vec::new())
    });
    assert_eq!(r, Err(ERROR_SUCCESS));
    assert_eq!(*calls.borrow(), 1);
}

#[test]
fn second_phase_failure_carries_status() {
    let r = Tdh::get_event_information(|a: Option<u32>| match a {
        None => (ERROR_INSUFFICIENT_BUFFER, 8, Vec::new()),
        Some(_) => (1168, 0, Vec::new()),
    });
    assert_eq!(r, Err(1168));
    let r = Tdh::get_event_information(|_a: Option<u32>| (87, 0, Vec::new()));
    assert_eq!(r, Err(87));
}

#[test]
fn format_property_returns_text_and_consumed() {
    let calls = std::cell::RefCell::new(Vec::new());
    let r = Tdh::format_property(8, 20, |a: Option<u32>, in_type: u16, display: u16| {
        calls.borrow_mut().push((a, in_type, display));
        match a {
            None => (ERROR_INSUFFICIENT_BUFFER, 3, Vec::new(), 0),
            Some(n) => (ERROR_SUCCESS, n, units("ab\0")[..n as usize].to_vec(), 6),
        }
    });
    assert_eq!(r, Ok((vec![0x61, 0x62, 0], 6)));
    assert_eq!(*calls.borrow(), vec![(None, 8, 20), (Some(3), 8, 20)]);
    let r = Tdh::format_property(8, 0, |_a: Option<u32>, _i: u16, _d: u16| {
        (ERROR_SUCCESS, 0, Vec::new(), 0)
    });
    assert_eq!(r, Err(ERROR_SUCCESS));
    let r = Tdh::format_property(8, 0, |a: Option<u32>, _i: u16, _d: u16| match a {
        None => (ERROR_INSUFFICIENT_BUFFER, 3, Vec::new(), 0),
        Some(_) => (1168, 0, Vec::new(), 0),
    });
    assert_eq!(r, Err(1168));
}

#[test]
fn zero_out_type_formats_with_in_type() {
    let run = |out_type: u16| {
        let calls = std::cell::RefCell::new(Vec::new());
        let r = Tdh::format_property(13, out_type, |a: Option<u32>, in_type: u16, display: u16| {
            calls.borrow_mut().push((a, in_type, display));
            match a {
                None => (ERROR_INSUFFICIENT_BUFFER, 2, Vec::new(), 0),
                Some(n) => (ERROR_SUCCESS, n, vec![display; n as usize], 4),
            }
        });
        (r, calls.into_inner())
    };
    let (r0, c0) = run(0);
    let (r1, c1) = run(13);
    assert_eq!(r0, r1);
    assert_eq!(c0, c1);
    assert_eq!(c0, vec![(None, 13, 13), (Some(2), 13, 13)]);
    let (r2, c2) = run(20);
    assert_eq!(r2, Ok((vec![20, 20], 4)));
    assert_eq!(c2[0], (None, 13, 20));
}

#[test]
fn zero_out_type_falls_back_to_in_type() {
    assert_eq!(Tdh::display_type(7, 0), 7);
    assert_eq!(Tdh::display_type(7, 0), Tdh::display_type(7, 7));
    assert_eq!(Tdh::display_type(7, 20), 20);
}

#[test]
fn pointer_size_from_header_flags() {
    assert_eq!(Tdh::pointer_size(0x20, 8), 4);
    assert_eq!(Tdh::pointer_size(0x40, 4), 8);
    assert_eq!(Tdh::pointer_size(0x60, 8), 4);
    assert_eq!(Tdh::pointer_size(0x01, 8), 8);
    assert_eq!(Tdh::pointer_size(0, 4), 4);
}

#[test]
fn only_process_starts_with_payload_are_projected() {
    assert!(accepts_event(1, 40));
    assert!(!accepts_event(2, 40));
    assert!(!accepts_event(1, 0));
    assert!(!accepts_event(0, 12));
}

#[test]
fn top_level_count_is_bounded() {
    assert_eq!(top_level_count(10, 9), 9);
    assert_eq!(top_level_count(3, 9), 3);
    assert_eq!(top_level_count(0, 0), 0);
}

#[test]
fn value_stops_at_first_zero_unit() {
    assert_eq!(until_nul(&vec![0x61, 0x62, 0, 0x63, 0x64]), vec![0x61, 0x62]);
    assert_eq!(until_nul(&vec![0x61, 0x62]), vec![0x61, 0x62]);
    assert_eq!(until_nul(&vec![0, 0x61]), Vec::<u16>::new());
    assert_eq!(until_nul(&vec![]), Vec::<u16>::new());
}

#[test]
fn name_stops_at_first_zero_unit() {
    let mut schema = vec![0xffu8, 0xff, 0xff];
    schema.extend_from_slice(&[b'I', 0, b'd', 0, 0, 0, b'Z', 0, b'Q', 0]);
    assert_eq!(decode_name(&schema, 3), units("Id"));
    assert_eq!(decode_name(&schema, 9), units("ZQ"));
    assert_eq!(decode_name(&schema, schema.len()), Vec::<u16>::new());
    assert_eq!(decode_name(&vec![b'A', 0, b'B'], 0), units("A"));
    assert_eq!(decode_name(&vec![0x3a, 0x04], 0), vec![0x043a]);
}

/// Builds a schema buffer holding the given names, each NUL-terminated in
/// UTF-16, after a 16-byte prefix, and returns it with each name's offset.
fn schema_with(names: &[&str]) -> (Vec<u8>, Vec<usize>) {
    let mut schema = vec![0u8; 16];
    let mut offsets = Vec::new();
    for n in names {
        offsets.push(schema.len());
        schema.extend_from_slice(&utf16_bytes(n));
    }
    (schema, offsets)
}

#[test]
fn three_string_properties_fill_the_payload() {
    let values = ["abc", "hello", "notepad!!"];
    let (schema, offsets) = schema_with(&["ImageFileName", "CommandLine", "UserSID"]);
    let mut payload = Vec::new();
    for v in values {
        payload.extend_from_slice(&utf16_bytes(v));
    }
    assert_eq!(payload.len(), 40);
    assert!(accepts_event(1, payload.len() as u16));

    let mut p = Projection::new(payload.len());
    for (i, v) in values.iter().enumerate() {
        let consumed = utf16_bytes(v).len();
        // the formatter's buffer may hold more than the text: stop at its NUL
        let mut formatted = units(v);
        formatted.extend_from_slice(&[0, 0x41, 0x42]);
        assert_eq!(p.remaining(), payload.len() - p.cursor());
        assert_eq!(p.record(&schema, offsets[i], &formatted, consumed), Ok(()));
    }
    assert_eq!(p.cursor(), 40);
    assert_eq!(p.remaining(), 0);

    let map = p.into_map();
    assert_eq!(map.len(), 3);
    assert_eq!(map.get_text(&units("ImageFileName")), Some("abc".to_string()));
    assert_eq!(map.get_text(&units("CommandLine")), Some("hello".to_string()));
    assert_eq!(map.get_text(&units("UserSID")), Some("notepad!!".to_string()));
    assert_eq!(map.get_text(&units("ProcessId")), None);
    assert_eq!(map.name_text(0), "ImageFileName".to_string());
    assert_eq!(map.value_text(2), "notepad!!".to_string());
    assert_eq!(map.entry(1), (units("CommandLine"), units("hello")));
}

#[test]
fn project_event_walks_three_properties() {
    let values = ["abc", "hello", "notepad!!"];
    let (schema, offsets) = schema_with(&["ImageFileName", "CommandLine", "UserSID"]);
    let mut payload = Vec::new();
    for v in values {
        payload.extend_from_slice(&utf16_bytes(v));
    }
    let calls = std::cell::RefCell::new(Vec::new());
    let p = project_event(&schema, &offsets, 3, payload.len(), |i, cursor| {
        calls.borrow_mut().push((i, cursor));
        let rest = &payload[cursor..];
        let mut text = Vec::new();
        let mut k = 0;
        while rest[k] != 0 || rest[k + 1] != 0 {
            text.push(u16::from_le_bytes([rest[k], rest[k + 1]]));
            k += 2;
        }
        text.push(0);
        text.push(0x5a);
        Ok((text, k + 2))
    })
    .unwrap();
    assert_eq!(*calls.borrow(), vec![(0, 0), (1, 8), (2, 20)]);
    assert_eq!(p.cursor(), 40);
    let map = p.into_map();
    assert_eq!(map.len(), 3);
    assert_eq!(map.get_text(&units("ImageFileName")), Some("abc".to_string()));
    assert_eq!(map.get_text(&units("CommandLine")), Some("hello".to_string()));
    assert_eq!(map.get_text(&units("UserSID")), Some("notepad!!".to_string()));
}

#[test]
fn project_event_takes_only_top_level_properties() {
    let (schema, offsets) = schema_with(&["A", "B", "C"]);
    let p = project_event(&schema, &offsets, 2, 10, |_i, _c| Ok((units("v"), 1))).unwrap();
    assert_eq!(p.map().len(), 2);
    assert_eq!(p.cursor(), 2);
    let p = project_event(&schema, &offsets, 9, 10, |_i, _c| Ok((units("v"), 1))).unwrap();
    assert_eq!(p.map().len(), 3);
    let p = project_event(&schema, &offsets, 0, 10, |_i, _c| Err(5)).unwrap();
    assert_eq!(p.map().len(), 0);
}

#[test]
fn project_event_errors() {
    let (schema, offsets) = schema_with(&["A", "B"]);
    assert_eq!(
        project_event(&schema, &offsets, 2, 10, |i, _c| if i == 1 { Err(1168) } else { Ok((units("v"), 2)) }).err(),
        Some(EventError::Format(1168))
    );
    assert_eq!(
        project_event(&schema, &offsets, 2, 3, |_i, _c| Ok((units("v"), 2))).err(),
        Some(EventError::Property(ProjectError::Overrun))
    );
    assert_eq!(
        project_event(&schema, &vec![schema.len() + 2], 1, 3, |_i, _c| Ok((units("v"), 2))).err(),
        Some(EventError::Property(ProjectError::NameOutOfRange))
    );
}

#[test]
fn overrun_is_refused_and_changes_nothing() {
    let (schema, offsets) = schema_with(&["A", "B"]);
    let mut p = Projection::new(6);
    assert_eq!(p.record(&schema, offsets[0], &units("x"), 4), Ok(()));
    assert_eq!(p.record(&schema, offsets[1], &units("y"), 3), Err(ProjectError::Overrun));
    assert_eq!(p.cursor(), 4);
    assert_eq!(p.map().len(), 1);
    assert_eq!(p.record(&schema, offsets[1], &units("y"), 2), Ok(()));
    assert_eq!(p.cursor(), 6);
}

#[test]
fn name_offset_past_schema_is_refused() {
    let (schema, _) = schema_with(&["A"]);
    let mut p = Projection::new(6);
    assert_eq!(
        p.record(&schema, schema.len() + 1, &units("x"), 1),
        Err(ProjectError::NameOutOfRange)
    );
    assert_eq!(p.cursor(), 0);
    assert_eq!(p.map().len(), 0);
}

#[test]
fn later_value_replaces_earlier() {
    let mut m = PropertyMap::new();
    m.insert(units("K"), units("1"));
    m.insert(units("J"), units("2"));
    m.insert(units("K"), units("3"));
    assert_eq!(m.get(&units("K")), Some(units("3")));
    assert_eq!(m.get(&units("J")), Some(units("2")));
    assert_eq!(m.get(&units("L")), None);
}

#[test]
fn text_conversion_decodes_units() {
    let mut m = PropertyMap::new();
    m.insert(units("N"), vec![0x00e9, 0xd800, 0x0041]);
    assert_eq!(m.get_text(&units("N")), Some("\u{e9}\u{fffd}A".to_string()));
    m.insert(units("P"), vec![0xd83d, 0xde00, 0xdc00, 0xd800]);
    assert_eq!(m.get_text(&units("P")), Some("\u{1f600}\u{fffd}\u{fffd}".to_string()));
}

#[test]
fn key_units_of_ascii() {
    assert_eq!(key_units("ProcessId"), units("ProcessId"));
    assert_eq!(key_units(""), Vec::<u16>::new());
}

fn map_of(pairs: &[(&str, &str)]) -> PropertyMap {
    let mut m = PropertyMap::new();
    for (k, v) in pairs {
        m.insert(units(k), units(v));
    }
    m
}

#[test]
fn process_record_from_hex_fields() {
    let m = map_of(&[
        ("UniqueProcessKey", "0xFFFFB00C1234ABCD"),
        ("ProcessId", "0x1f4"),
        ("ParentId", "0x0x10"),
        ("SessionId", "+a"),
        ("ExitStatus", "0x103"),
        ("DirectoryTableBase", "0x1AB000"),
        ("UserSID", "S-1-5-18"),
        ("ImageFileName", "notepad.exe"),
        ("CommandLine", "notepad.exe a.txt"),
    ]);
    let r = ProcessTypeGroup1::from_properties(&m);
    assert_eq!(r.unique_process_key, 0xFFFF_B00C_1234_ABCD);
    assert_eq!(r.process_id, 0x1f4);
    assert_eq!(r.parent_id, 0x10);
    assert_eq!(r.session_id, 10);
    assert_eq!(r.exit_status, 0x103);
    assert_eq!(r.directory_table_base, 0x1AB000);
    assert_eq!(r.user_sid, "S-1-5-18");
    assert_eq!(r.image_file_name, "notepad.exe");
    assert_eq!(r.command_line, "notepad.exe a.txt");
}

#[test]
fn process_record_defaults() {
    let r = ProcessTypeGroup1::from_properties(&PropertyMap::new());
    assert_eq!(r.unique_process_key, 0);
    assert_eq!(r.process_id, 0);
    assert_eq!(r.exit_status, 0);
    assert_eq!(r.user_sid, "");
    assert_eq!(r.command_line, "");
}

#[test]
fn process_record_rejects_bad_numbers() {
    let m = map_of(&[
        ("ProcessId", "100000000"),
        ("ParentId", "zz"),
        ("SessionId", "-5"),
        ("ExitStatus", "ffffffff"),
        ("UniqueProcessKey", "0x"),
        ("DirectoryTableBase", "+"),
    ]);
    let r = ProcessTypeGroup1::from_properties(&m);
    assert_eq!(r.process_id, 0);
    assert_eq!(r.parent_id, 0);
    assert_eq!(r.session_id, 0);
    assert_eq!(r.exit_status, 0);
    assert_eq!(r.unique_process_key, 0);
    assert_eq!(r.directory_table_base, 0);
}

#[test]
fn process_record_signed_exit_status() {
    let r = ProcessTypeGroup1::from_properties(&map_of(&[("ExitStatus", "-80000000")]));
    assert_eq!(r.exit_status, i32::MIN);
    let r = ProcessTypeGroup1::from_properties(&map_of(&[("ExitStatus", "7fffffff")]));
    assert_eq!(r.exit_status, i32::MAX);
    let r = ProcessTypeGroup1::from_properties(&map_of(&[("ExitStatus", "-80000001")]));
    assert_eq!(r.exit_status, 0);
    let r = ProcessTypeGroup1::from_properties(&map_of(&[("ProcessId", "ffffffff")]));
    assert_eq!(r.process_id, u32::MAX);
}
