use clipman::frame::{frame, unframe, HEADER};
use clipman::wire::is_countable;

#[test]
fn a_frame_is_the_length_and_then_the_payload() {
    assert_eq!(HEADER, 8);
    assert_eq!(frame(Vec::new()), vec![0, 0, 0, 0, 0, 0, 0, 0]);
    assert_eq!(frame(vec![7, 9]), vec![2, 0, 0, 0, 0, 0, 0, 0, 7, 9]);
    let long = frame(vec![0xab; 258]);
    assert_eq!(long.len(), 266);
    assert_eq!(&long[..8], &[2, 1, 0, 0, 0, 0, 0, 0]);
    assert!(long[8..].iter().all(|byte| *byte == 0xab));
}

#[test]
fn a_frame_gives_its_payload_back() {
    assert_eq!(unframe(&frame(Vec::new())), Some(&[][..]));
    assert_eq!(unframe(&frame(vec![7, 9])), Some(&[7, 9][..]));
    let payload: Vec<u8> = (0..=255).collect();
    assert_eq!(unframe(&frame(payload.clone())), Some(payload.as_slice()));
}

#[test]
fn bytes_that_are_no_frame_carry_nothing() {
    assert_eq!(unframe(&[]), None);
    assert_eq!(unframe(&[0, 0, 0]), None);
    assert_eq!(unframe(&[0, 0, 0, 0, 0, 0, 0]), None);
    assert_eq!(unframe(&[1, 0, 0, 0, 0, 0, 0, 0]), None);
    assert_eq!(unframe(&[1, 0, 0, 0, 0, 0, 0, 0, 5, 6]), None);
    assert_eq!(unframe(&[0, 0, 0, 0, 0, 0, 0, 1, 5]), None);
    assert_eq!(unframe(&[0xff; 8]), None);
}

#[test]
fn a_cut_or_grown_frame_is_no_frame() {
    let whole = frame(vec![1, 2, 3, 4, 5]);
    for kept in 0..whole.len() {
        assert_eq!(unframe(&whole[..kept]), None);
    }
    let mut grown = whole.clone();
    grown.push(6);
    assert_eq!(unframe(&grown), None);
    assert_eq!(unframe(&whole), Some(&[1, 2, 3, 4, 5][..]));
}

#[test]
fn lists_of_ordinary_size_can_be_counted() {
    assert!(is_countable(&Vec::new()));
    assert!(is_countable(&vec![
        (1, Some("text".to_owned()), None),
        (2, None, Some((4, 2, vec![0; 32]))),
        (3, None, Some((0, 0, Vec::new()))),
        (4, None, None),
    ]));
}
