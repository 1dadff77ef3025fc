use keep_awake::notify::{body_field, encode_utf16, fill_field, title_field, BODY_CAPACITY, TITLE_CAPACITY};

#[test]
fn utf16_of_ascii_and_bmp() {
    assert_eq!(encode_utf16("Hi"), vec![0x48, 0x69]);
    assert_eq!(encode_utf16("唤醒"), "唤醒".encode_utf16().collect::<Vec<u16>>());
    assert_eq!(encode_utf16(""), Vec::<u16>::new());
}

#[test]
fn utf16_surrogate_pair() {
    assert_eq!(encode_utf16("😀"), vec![0xD83D, 0xDE00]);
    let s = "a😀b\u{10FFFF}";
    assert_eq!(encode_utf16(s), s.encode_utf16().collect::<Vec<u16>>());
}

#[test]
fn field_keeps_short_text_and_terminates() {
    let f = fill_field(&vec![1, 2, 3], 8);
    assert_eq!(f, vec![1, 2, 3, 0, 0, 0, 0, 0]);
}

#[test]
fn field_truncates_leaving_last_unit_zero() {
    let f = fill_field(&vec![7; 10], 4);
    assert_eq!(f, vec![7, 7, 7, 0]);
}

#[test]
fn title_and_body_capacities() {
    let long: String = std::iter::repeat('x').take(300).collect();
    let t = title_field(&long);
    assert_eq!(t.len(), TITLE_CAPACITY);
    assert!(t[..63].iter().all(|&u| u == 'x' as u16));
    assert_eq!(t[63], 0);
    let b = body_field(&long);
    assert_eq!(b.len(), BODY_CAPACITY);
    assert!(b[..255].iter().all(|&u| u == 'x' as u16));
    assert_eq!(b[255], 0);
    let short = title_field("Keep Awake");
    assert_eq!(&short[..10], &"Keep Awake".encode_utf16().collect::<Vec<u16>>()[..]);
    assert!(short[10..].iter().all(|&u| u == 0));
}
