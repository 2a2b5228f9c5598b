use ff_standard_lib::apis::rithmic::api_client::{frame_message, unframe_message};

#[test]
fn frames_carry_a_big_endian_length() {
    assert_eq!(frame_message(&vec![1, 2, 3]), vec![0, 0, 0, 3, 1, 2, 3]);
    let long = vec![7u8; 300];
    let framed = frame_message(&long);
    assert_eq!(&framed[..4], &[0, 0, 1, 44]);
    assert_eq!(framed.len(), 304);
    assert_eq!(frame_message(&vec![]), vec![0, 0, 0, 0]);
}

#[test]
fn unframing_reads_the_length_given() {
    assert_eq!(unframe_message(&vec![0, 0, 0, 2, 9, 8, 7]), Some(vec![9, 8]));
    assert_eq!(unframe_message(&vec![0, 0, 0, 0]), Some(vec![]));
    assert_eq!(unframe_message(&vec![0, 0, 0, 5, 1]), None);
    assert_eq!(unframe_message(&vec![0, 0]), None);
    assert_eq!(unframe_message(&vec![1, 0, 0, 0, 1, 2]), None);
}

#[test]
fn framed_messages_read_back() {
    for payload in [vec![], vec![42u8], (0..=255u8).collect::<Vec<u8>>()] {
        assert_eq!(unframe_message(&frame_message(&payload)), Some(payload.clone()));
    }
}
