use habitat_launcher::error::Error;
use habitat_launcher::protocol::{decode, encode, has_distinct_names, Command, Envelope, Kind};
use habitat_launcher::wire::{read_frame, read_text, write_frame};

fn frame_of(command: &Command) -> Vec<u8> {
    encode(command).unwrap()
}

fn twice_bound() -> Command {
    Command::Spawn {
        binary: "b".to_string(),
        svc_user: "u".to_string(),
        svc_group: "g".to_string(),
        env: vec![
            ("A".to_string(), "1".to_string()),
            ("B".to_string(), "2".to_string()),
            ("A".to_string(), "3".to_string()),
        ],
    }
}

fn sample_spawn() -> Command {
    Command::Spawn {
        binary: "/bin/true".to_string(),
        svc_user: "nobody".to_string(),
        svc_group: "nobody".to_string(),
        env: vec![
            ("PATH".to_string(), "/bin:/usr/bin".to_string()),
            ("LANG".to_string(), "é".to_string()),
        ],
    }
}

#[test]
fn frame_is_length_prefix_then_content() {
    let mut out = vec![0xffu8];
    write_frame(&mut out, b"abc");
    assert_eq!(out, vec![0xff, 3, 0, 0, 0, 0, 0, 0, 0, b'a', b'b', b'c']);
}

#[test]
fn frame_of_nothing_is_a_zero_prefix() {
    let mut out = Vec::new();
    write_frame(&mut out, b"");
    assert_eq!(out, vec![0u8; 8]);
}

#[test]
fn read_frame_gives_bounds_of_content() {
    let bytes = vec![9, 2, 0, 0, 0, 0, 0, 0, 0, b'h', b'i', 7];
    assert_eq!(read_frame(&bytes, 1), Some((9, 11)));
}

#[test]
fn read_frame_refuses_short_prefix() {
    assert_eq!(read_frame(&[1, 0, 0, 0], 0), None);
}

#[test]
fn read_frame_refuses_length_beyond_input() {
    assert_eq!(read_frame(&[3, 0, 0, 0, 0, 0, 0, 0, b'a', b'b'], 0), None);
}

#[test]
fn read_frame_refuses_huge_length() {
    assert_eq!(read_frame(&[0xff; 12], 0), None);
}

#[test]
fn read_frame_refuses_start_past_end() {
    assert_eq!(read_frame(&[0; 8], 9), None);
}

#[test]
fn read_text_decodes_utf8() {
    let bytes = "xé!".as_bytes();
    assert_eq!(read_text(bytes, 1, 3), Some("é".to_string()));
}

#[test]
fn read_text_refuses_broken_utf8() {
    assert_eq!(read_text(&[b'a', 0xc3, b'b'], 0, 3), None);
    assert_eq!(read_text(&[0xff], 0, 1), None);
}

#[test]
fn read_text_refuses_bounds_outside_the_input() {
    assert_eq!(read_text(b"abc", 2, 1), None);
    assert_eq!(read_text(b"abc", 0, 4), None);
    assert_eq!(read_text(b"abc", 3, 3), Some(String::new()));
}

#[test]
fn ok_on_the_wire() {
    let mut expected = vec![2u8, 0, 0, 0, 0, 0, 0, 0, b'O', b'k'];
    expected.extend_from_slice(&[0u8; 8]);
    assert_eq!(frame_of(&Command::Okay), expected);
}

#[test]
fn register_on_the_wire() {
    let bytes = frame_of(&Command::Register { pipe: "chan-2".to_string() });
    let mut expected = vec![8u8, 0, 0, 0, 0, 0, 0, 0];
    expected.extend_from_slice(b"Register");
    expected.extend_from_slice(&[14, 0, 0, 0, 0, 0, 0, 0]);
    expected.extend_from_slice(&[6, 0, 0, 0, 0, 0, 0, 0]);
    expected.extend_from_slice(b"chan-2");
    assert_eq!(bytes, expected);
}

#[test]
fn round_trip_register() {
    let c = Command::Register { pipe: "chan-2".to_string() };
    assert_eq!(decode(&frame_of(&c), Kind::Register), Ok(c));
}

#[test]
fn round_trip_spawn() {
    let c = sample_spawn();
    assert_eq!(decode(&frame_of(&c), Kind::Spawn), Ok(c));
}

#[test]
fn round_trip_spawn_with_empty_fields() {
    let c = Command::Spawn {
        binary: String::new(),
        svc_user: String::new(),
        svc_group: String::new(),
        env: Vec::new(),
    };
    assert_eq!(decode(&frame_of(&c), Kind::Spawn), Ok(c));
}

#[test]
fn round_trip_ok() {
    assert_eq!(decode(&frame_of(&Command::Okay), Kind::Okay), Ok(Command::Okay));
}

#[test]
fn round_trip_error() {
    let c = Command::Error { reason: "no such user".to_string() };
    assert_eq!(decode(&frame_of(&c), Kind::Error), Ok(c));
}

#[test]
fn envelope_names_the_kind() {
    let c = sample_spawn();
    let envelope = Envelope::decode(&frame_of(&c)).unwrap();
    assert_eq!(envelope.message_id, "Spawn");
    assert_eq!(envelope.payload, c.payload());
    assert_eq!(Kind::named(&envelope.message_id), Some(Kind::Spawn));
}

#[test]
fn envelope_round_trip() {
    let e = Envelope { message_id: "Anything".to_string(), payload: vec![1, 2, 3] };
    assert_eq!(Envelope::decode(&e.encode()), Ok(e));
}

#[test]
fn decode_does_not_consult_the_name() {
    let e = Envelope { message_id: "Spawn".to_string(), payload: Vec::new() };
    assert_eq!(decode(&e.encode(), Kind::Okay), Ok(Command::Okay));
}

#[test]
fn decode_refuses_other_kind() {
    let bytes = frame_of(&Command::Register { pipe: "p".to_string() });
    assert_eq!(decode(&bytes, Kind::Okay), Err(Error::Deserialize));
    assert_eq!(decode(&frame_of(&Command::Okay), Kind::Register), Err(Error::Deserialize));
}

#[test]
fn decode_refuses_truncated_bytes() {
    let bytes = frame_of(&sample_spawn());
    for cut in 0..bytes.len() {
        assert_eq!(decode(&bytes[..cut], Kind::Spawn), Err(Error::Deserialize));
    }
}

#[test]
fn decode_refuses_trailing_bytes() {
    let mut bytes = frame_of(&Command::Okay);
    bytes.push(0);
    assert_eq!(decode(&bytes, Kind::Okay), Err(Error::Deserialize));
}

#[test]
fn decode_refuses_broken_text() {
    let e = Envelope { message_id: "Register".to_string(), payload: vec![1, 0, 0, 0, 0, 0, 0, 0, 0xff] };
    assert_eq!(decode(&e.encode(), Kind::Register), Err(Error::Deserialize));
}

#[test]
fn decode_refuses_half_a_binding() {
    let mut payload = Command::Spawn {
        binary: "b".to_string(),
        svc_user: "u".to_string(),
        svc_group: "g".to_string(),
        env: Vec::new(),
    }
    .payload();
    write_frame(&mut payload, b"NAME");
    let e = Envelope { message_id: "Spawn".to_string(), payload };
    assert_eq!(decode(&e.encode(), Kind::Spawn), Err(Error::Deserialize));
}

#[test]
fn kind_names() {
    assert_eq!(Kind::Register.name(), "Register");
    assert_eq!(Kind::Spawn.name(), "Spawn");
    assert_eq!(Kind::Okay.name(), "Ok");
    assert_eq!(Kind::Error.name(), "Error");
    assert_eq!(Kind::named("Ok"), Some(Kind::Okay));
    assert_eq!(Kind::named("ok"), None);
    assert_eq!(Kind::named("Register"), Some(Kind::Register));
    assert_eq!(Kind::named("Error"), Some(Kind::Error));
}

#[test]
fn command_kinds() {
    assert_eq!(sample_spawn().kind(), Kind::Spawn);
    assert_eq!(Command::Okay.kind(), Kind::Okay);
    assert_eq!(Command::Okay.payload(), Vec::<u8>::new());
}

#[test]
fn distinct_names_are_told_from_repeated_ones() {
    let pair = |k: &str, v: &str| (k.to_string(), v.to_string());
    assert!(has_distinct_names(&Vec::new()));
    assert!(has_distinct_names(&vec![pair("A", "1")]));
    assert!(has_distinct_names(&vec![pair("A", "1"), pair("B", "1"), pair("a", "1")]));
    assert!(!has_distinct_names(&vec![pair("A", "1"), pair("A", "1")]));
    assert!(!has_distinct_names(&vec![pair("A", "1"), pair("B", "2"), pair("C", "3"), pair("B", "4")]));
}

#[test]
fn encode_refuses_a_name_bound_twice() {
    assert_eq!(encode(&twice_bound()), Err(Error::Serialize));
}

#[test]
fn decode_refuses_a_name_bound_twice() {
    let e = Envelope { message_id: "Spawn".to_string(), payload: twice_bound().payload() };
    assert_eq!(decode(&e.encode(), Kind::Spawn), Err(Error::Deserialize));
}
