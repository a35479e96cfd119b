use bit_grid::ws::{decode_index, react, Frame, Reaction};

#[test]
fn decode_index_is_little_endian() {
    assert_eq!(decode_index(&[0, 0, 0]), Some(0));
    assert_eq!(decode_index(&[1, 0, 0]), Some(1));
    assert_eq!(decode_index(&[0, 1, 0]), Some(256));
    assert_eq!(decode_index(&[0, 0, 1]), Some(65536));
    assert_eq!(decode_index(&[0x3f, 0x42, 0x0f]), Some(999_999));
    assert_eq!(decode_index(&[5, 4, 3, 99, 98]), Some(5 + 4 * 256 + 3 * 65536));
}

#[test]
fn decode_index_refuses_short_and_large() {
    assert_eq!(decode_index(&[]), None);
    assert_eq!(decode_index(&[1]), None);
    assert_eq!(decode_index(&[1, 2]), None);
    assert_eq!(decode_index(&[0x40, 0x42, 0x0f]), None);
    assert_eq!(decode_index(&[255, 255, 255]), None);
}

#[test]
fn react_to_each_kind_of_frame() {
    assert_eq!(react(&Frame::Ping), Reaction::Ignore);
    assert_eq!(react(&Frame::Pong), Reaction::Ignore);
    assert_eq!(react(&Frame::Other), Reaction::Ignore);
    assert_eq!(react(&Frame::Close), Reaction::Disconnect);
    assert_eq!(react(&Frame::Binary(vec![7, 1, 0])), Reaction::Toggle(263));
    assert_eq!(react(&Frame::Binary(vec![7, 1])), Reaction::TooShort(2));
    assert_eq!(react(&Frame::Binary(vec![])), Reaction::TooShort(0));
    assert_eq!(react(&Frame::Binary(vec![0x40, 0x42, 0x0f])), Reaction::Ignore);
}
