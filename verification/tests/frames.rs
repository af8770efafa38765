use vaultsync::datetime::CivilDateTime;
use vaultsync::frame::{prefix_length, serialize};
use vaultsync::message::{
    anonymous_value, convert_option, create_anonymous_update, create_ping, create_update,
    create_update_from_payload, or_nil, serialize_date, UpdateType,
};
use vaultsync::value::{Json, MsgValue};

fn text(text: &str) -> MsgValue {
    MsgValue::Text(text.to_owned())
}

fn date(year: i32, month: u32, day: u32, hour: u32, minute: u32, second: u32, nano: u32) -> CivilDateTime {
    CivilDateTime { year, month, day, hour, minute, second, nano }
}

/// The bytes of a short text in MessagePack.
fn packed(text: &str) -> Vec<u8> {
    let mut bytes = vec![0xa0 + text.len() as u8];
    bytes.extend_from_slice(text.as_bytes());
    bytes
}

fn with_length(body: Vec<u8>) -> Vec<u8> {
    assert!(body.len() < 128);
    let mut framed = vec![body.len() as u8];
    framed.extend(body);
    framed
}

#[test]
fn length_prefix_takes_seven_bits_per_byte() {
    assert_eq!(prefix_length(vec![]), vec![0]);
    assert_eq!(prefix_length(vec![9; 127])[..2], [127, 9]);
    assert_eq!(prefix_length(vec![9; 128])[..3], [0x80, 0x01, 9]);
    assert_eq!(prefix_length(vec![9; 300])[..3], [0xac, 0x02, 9]);
    assert_eq!(prefix_length(vec![9; 16384])[..4], [0x80, 0x80, 0x01, 9]);
    assert_eq!(prefix_length(vec![9; 16384]).len(), 16387);
}

#[test]
fn frame_reads_back() {
    for len in [0usize, 1, 127, 128, 5000, 70000] {
        let body: Vec<u8> = (0..len).map(|i| i as u8).collect();
        let framed = prefix_length(body.clone());
        let mut size = 0usize;
        let mut shift = 0;
        let mut used = 0;
        for byte in &framed {
            size |= ((byte & 0x7f) as usize) << shift;
            shift += 7;
            used += 1;
            if byte & 0x80 == 0 {
                break;
            }
        }
        assert_eq!(size, len);
        assert_eq!(framed[used..], body[..]);
    }
}

#[test]
fn values_are_written_as_messagepack() {
    assert_eq!(serialize(MsgValue::Nil), vec![1, 0xc0]);
    assert_eq!(serialize(MsgValue::Boolean(true)), vec![1, 0xc3]);
    assert_eq!(serialize(MsgValue::Signed(-1)), vec![1, 0xff]);
    assert_eq!(serialize(MsgValue::Signed(5)), serialize(MsgValue::Unsigned(5)));
    assert_eq!(serialize(MsgValue::Unsigned(300)), vec![3, 0xcd, 0x01, 0x2c]);
    assert_eq!(serialize(text("ab")), vec![3, 0xa2, b'a', b'b']);
    assert_eq!(serialize(MsgValue::Array(vec![MsgValue::Nil])), vec![2, 0x91, 0xc0]);
    assert_eq!(
        serialize(MsgValue::Mapping(vec![(text("a"), MsgValue::Signed(1))])),
        vec![4, 0x81, 0xa1, b'a', 1]
    );
    assert_eq!(
        serialize(MsgValue::Ext(-1, vec![0, 0, 0, 0, 0, 0, 0, 7])),
        vec![10, 0xd7, 0xff, 0, 0, 0, 0, 0, 0, 0, 7]
    );
    assert_eq!(serialize(MsgValue::Float("1.5".to_owned())), vec![9, 0xcb, 0x3f, 0xf8, 0, 0, 0, 0, 0, 0]);
}

#[test]
fn ping_is_an_array_of_six() {
    assert_eq!(create_ping(), vec![2, 0x91, 6]);
}

#[test]
fn dates_become_timestamps() {
    let epoch = date(1970, 1, 1, 0, 0, 0, 0);
    assert_eq!(serialize_date(epoch), MsgValue::Ext(-1, vec![0; 8]));
    let later = date(2023, 11, 14, 22, 13, 20, 0);
    let seconds: u64 = 1_700_000_000;
    assert_eq!(serialize_date(later), MsgValue::Ext(-1, seconds.to_be_bytes().to_vec()));
    let leap_day = date(2024, 2, 29, 12, 30, 15, 987_654_321);
    let word: u64 = (987_654_321 << 34) | 1_709_209_815;
    assert_eq!(serialize_date(leap_day), MsgValue::Ext(-1, word.to_be_bytes().to_vec()));
    let before = date(1969, 12, 31, 23, 59, 59, 0);
    assert_eq!(serialize_date(before), MsgValue::Ext(-1, vec![0xff; 8]));
}

#[test]
fn timestamp_reads_back() {
    let moment = date(2026, 5, 15, 8, 9, 10, 123_456_789);
    if let MsgValue::Ext(tag, bytes) = serialize_date(moment) {
        assert_eq!(tag, -1);
        let mut word: u64 = 0;
        for byte in bytes {
            word = word << 8 | byte as u64;
        }
        assert_eq!(word >> 34, 123_456_789);
        assert_eq!(word & 0x3_ffff_ffff, 1_778_832_550);
    } else {
        panic!("no timestamp");
    }
}

#[test]
fn missing_text_is_nil() {
    assert_eq!(convert_option(None), MsgValue::Nil);
    assert_eq!(convert_option(Some("x".to_owned())), text("x"));
    assert_eq!(or_nil(None), MsgValue::Nil);
    assert_eq!(or_nil(Some(MsgValue::Signed(3))), MsgValue::Signed(3));
}

#[test]
fn update_codes_are_those_of_the_protocol() {
    let all = [
        UpdateType::SyncCipherUpdate,
        UpdateType::SyncCipherCreate,
        UpdateType::SyncLoginDelete,
        UpdateType::SyncFolderDelete,
        UpdateType::SyncCiphers,
        UpdateType::SyncVault,
        UpdateType::SyncOrgKeys,
        UpdateType::SyncFolderCreate,
        UpdateType::SyncFolderUpdate,
        UpdateType::SyncCipherDelete,
        UpdateType::SyncSettings,
        UpdateType::LogOut,
        UpdateType::SyncSendCreate,
        UpdateType::SyncSendUpdate,
        UpdateType::SyncSendDelete,
        UpdateType::AuthRequest,
        UpdateType::AuthRequestResponse,
    ];
    for (i, ut) in all.iter().enumerate() {
        assert_eq!(ut.code(), i as i32);
    }
    assert_eq!(UpdateType::Nothing.code(), 100);
}

#[test]
fn update_names_device_type_and_payload() {
    let mut body = vec![0x95, 1, 0x80, 0xc0];
    body.extend(packed("ReceiveMessage"));
    body.extend([0x91, 0x83]);
    body.extend(packed("ContextId"));
    body.extend(packed("dev"));
    body.extend(packed("Type"));
    body.push(11);
    body.extend(packed("Payload"));
    body.push(0x81);
    body.extend(packed("UserId"));
    body.extend(packed("u1"));
    let data = create_update(vec![(text("UserId"), text("u1"))], UpdateType::LogOut, Some("dev".to_owned()));
    assert_eq!(data, with_length(body));
}

#[test]
fn update_without_device_names_nil() {
    let mut body = vec![0x95, 1, 0x80, 0xc0];
    body.extend(packed("ReceiveMessage"));
    body.extend([0x91, 0x83]);
    body.extend(packed("ContextId"));
    body.push(0xc0);
    body.extend(packed("Type"));
    body.push(100);
    body.extend(packed("Payload"));
    body.push(0x80);
    assert_eq!(create_update(vec![], UpdateType::Nothing, None), with_length(body));
}

#[test]
fn anonymous_update_names_type_payload_and_user() {
    let mut body = vec![0x95, 1, 0x80, 0xc0];
    body.extend(packed("AuthRequestResponseRecieved"));
    body.extend([0x91, 0x83]);
    body.extend(packed("Type"));
    body.push(16);
    body.extend(packed("Payload"));
    body.push(0x81);
    body.extend(packed("Id"));
    body.extend(packed("r"));
    body.extend(packed("UserId"));
    body.extend(packed("u1"));
    let data = create_anonymous_update(vec![(text("Id"), text("r"))], UpdateType::AuthRequestResponse, "u1");
    assert_eq!(data, with_length(body));
    let value = anonymous_value(MsgValue::Nil, UpdateType::AuthRequestResponse, "u1");
    assert!(matches!(value, MsgValue::Array(parts) if parts.len() == 5));
}

#[test]
fn json_payload_arrives_with_its_members() {
    let payload = Json::Object(vec![
        ("UserId".to_owned(), Json::Text("u\"1".to_owned())),
        ("Date".to_owned(), Json::Array(vec![Json::Signed(-1), Json::Array(vec![Json::Unsigned(7)])])),
        ("Gone".to_owned(), Json::Null),
        ("Yes".to_owned(), Json::Boolean(true)),
    ]);
    let mut expected = vec![
        (text("UserId"), text("u\"1")),
        (
            text("Date"),
            MsgValue::Array(vec![MsgValue::Signed(-1), MsgValue::Array(vec![MsgValue::Signed(7)])]),
        ),
        (text("Gone"), MsgValue::Nil),
        (text("Yes"), MsgValue::Boolean(true)),
    ];
    let data = create_update_from_payload(&payload, UpdateType::SyncVault, None);
    // A JSON object is written in the order of its names.
    expected.swap(0, 2);
    expected.swap(0, 1);
    assert_eq!(data, create_update(expected, UpdateType::SyncVault, None));
}

#[test]
fn relayed_texts_look_like_local_ones() {
    let names = ["b", "", "a", "ab", "\u{e9}", "Z"];
    let mut members: Vec<(String, Json)> = Vec::new();
    for name in names {
        members.push((name.to_owned(), Json::Text(format!("value of {name}"))));
    }
    let mut sorted = names.to_vec();
    sorted.sort();
    let mut pairs: Vec<(MsgValue, MsgValue)> = Vec::new();
    for name in sorted {
        pairs.push((text(name), text(&format!("value of {name}"))));
    }
    let relayed =
        create_update_from_payload(&Json::Object(members), UpdateType::LogOut, Some("d".to_owned()));
    assert_eq!(relayed, create_update(pairs, UpdateType::LogOut, Some("d".to_owned())));
}

#[test]
fn json_scalars_are_payloads_too() {
    let data = create_update_from_payload(&Json::Null, UpdateType::SyncVault, Some("d".to_owned()));
    let mut body = vec![0x95, 1, 0x80, 0xc0];
    body.extend(packed("ReceiveMessage"));
    body.extend([0x91, 0x83]);
    body.extend(packed("ContextId"));
    body.extend(packed("d"));
    body.extend(packed("Type"));
    body.push(5);
    body.extend(packed("Payload"));
    body.push(0xc0);
    assert_eq!(data, with_length(body));
    let float = create_update_from_payload(&Json::Float("0.5".to_owned()), UpdateType::SyncVault, None);
    assert_eq!(float[float.len() - 9..], [0xcb, 0x3f, 0xe0, 0, 0, 0, 0, 0, 0]);
}
