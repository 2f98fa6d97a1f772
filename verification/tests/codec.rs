use message_board::state::{write_board, MessageBoardInfo};

fn sample_record(url: &str) -> MessageBoardInfo {
    MessageBoardInfo {
        is_initialized: true,
        owner: vec![5u8; 32],
        token: vec![6u8; 32],
        url: url.as_bytes().to_vec(),
    }
}

fn assert_same_record(a: &MessageBoardInfo, b: &MessageBoardInfo) {
    assert_eq!(a.is_initialized, b.is_initialized);
    assert_eq!(a.owner, b.owner);
    assert_eq!(a.token, b.token);
    assert_eq!(a.url, b.url);
}

#[test]
fn round_trip_reproduces_record() {
    let rec = sample_record("https://example.com/board");
    let bytes = rec.serialize();
    assert_eq!(bytes.len(), 69 + rec.url.len());
    let back = MessageBoardInfo::deserialize(&bytes).expect("serialized record must decode");
    assert_same_record(&rec, &back);
}

#[test]
fn round_trip_empty_url() {
    let rec = MessageBoardInfo {
        is_initialized: false,
        owner: vec![0u8; 32],
        token: vec![255u8; 32],
        url: Vec::new(),
    };
    let bytes = rec.serialize();
    assert_eq!(bytes.len(), 69);
    let back = MessageBoardInfo::deserialize(&bytes).expect("serialized record must decode");
    assert_same_record(&rec, &back);
}

#[test]
fn round_trip_tolerates_trailing_storage() {
    let rec = sample_record("https://example.com");
    let mut storage = vec![0xaau8; 96];
    write_board(&mut storage, &rec.owner, &rec.token, &rec.url).expect("record fits 96 bytes");
    assert_eq!(storage.len(), 96);
    let back = MessageBoardInfo::deserialize(&storage).expect("storage must decode");
    assert_same_record(&rec, &back);
    // bytes past the record keep their old value
    assert!(storage[69 + rec.url.len()..].iter().all(|b| *b == 0xaa));
}

#[test]
fn serialized_form_matches_borsh() {
    let owner = [5u8; 32];
    let token = [6u8; 32];
    let url = String::from("https://example.com/board");
    let rec = MessageBoardInfo {
        is_initialized: true,
        owner: owner.to_vec(),
        token: token.to_vec(),
        url: url.as_bytes().to_vec(),
    };
    let ours = rec.serialize();
    let theirs = borsh::to_vec(&(true, owner, token, url)).unwrap();
    assert_eq!(ours, theirs);
}

#[test]
fn write_board_rejects_small_buffer() {
    let rec = sample_record("https://example.com/board");
    let mut storage = vec![7u8; 50];
    let err = write_board(&mut storage, &rec.owner, &rec.token, &rec.url).unwrap_err();
    assert_eq!(err, message_board::error::BoardError::SerializationFailure);
    assert_eq!(storage, vec![7u8; 50]);
}

#[test]
fn write_board_overwrites_initialized_record() {
    // no re-initialization guard: a second write against already-initialized
    // storage succeeds and replaces the record
    let first = sample_record("https://example.com/first");
    let second = MessageBoardInfo {
        is_initialized: true,
        owner: vec![9u8; 32],
        token: vec![8u8; 32],
        url: b"https://example.com/second".to_vec(),
    };
    let mut storage = vec![0u8; 96];
    write_board(&mut storage, &first.owner, &first.token, &first.url).unwrap();
    let before = MessageBoardInfo::deserialize(&storage).unwrap();
    assert!(before.is_initialized);
    write_board(&mut storage, &second.owner, &second.token, &second.url)
        .expect("overwriting an initialized record is not rejected");
    let after = MessageBoardInfo::deserialize(&storage).unwrap();
    assert_same_record(&second, &after);
}

#[test]
fn deserialize_rejects_bad_buffers() {
    // too short for the header
    assert!(MessageBoardInfo::deserialize(&[1u8; 68]).is_none());
    // flag byte other than 0 or 1
    let mut bytes = sample_record("x").serialize();
    bytes[0] = 2;
    assert!(MessageBoardInfo::deserialize(&bytes).is_none());
    // length field announces more bytes than the buffer holds
    let mut bytes = sample_record("xy").serialize();
    bytes[65] = 200;
    assert!(MessageBoardInfo::deserialize(&bytes).is_none());
    // URL bytes that are not UTF-8
    let rec = MessageBoardInfo {
        is_initialized: true,
        owner: vec![5u8; 32],
        token: vec![6u8; 32],
        url: vec![0xff, 0xfe],
    };
    let mut raw = vec![1u8];
    raw.extend_from_slice(&rec.owner);
    raw.extend_from_slice(&rec.token);
    raw.extend_from_slice(&2u32.to_le_bytes());
    raw.extend_from_slice(&rec.url);
    assert!(MessageBoardInfo::deserialize(&raw).is_none());
}
