use backend_supervisor::guard::{blank, list_holders, read_holders, GuardPolicy, TARGET_PORT};

#[test]
fn target_port_is_fixed() {
    assert_eq!(TARGET_PORT, 4000);
}

#[test]
fn policies_differ() {
    assert_ne!(GuardPolicy::Active, GuardPolicy::Inactive);
}

#[test]
fn one_listener_on_one_line() {
    assert_eq!(read_holders(b"1234\n"), vec![1234]);
}

#[test]
fn one_listener_without_line_end() {
    assert_eq!(read_holders(b"1234"), vec![1234]);
}

#[test]
fn several_listeners_in_order() {
    assert_eq!(read_holders(b"812\n97\n40001\n"), vec![812, 97, 40001]);
}

#[test]
fn repeated_listeners_are_kept() {
    assert_eq!(read_holders(b"5\n5\n"), vec![5, 5]);
}

#[test]
fn empty_answer_names_nobody() {
    assert_eq!(read_holders(b""), Vec::<u32>::new());
}

#[test]
fn blank_answer_names_nobody() {
    assert_eq!(read_holders(b" \t\r\n\x0b\x0c\n"), Vec::<u32>::new());
}

#[test]
fn surrounding_blanks_are_dropped() {
    assert_eq!(read_holders(b"  \n 77 \r\n\t"), vec![77]);
}

#[test]
fn words_that_are_no_numbers_are_passed_over() {
    assert_eq!(read_holders(b"lsof: 12x -9 +4 0x10 7 1.5"), vec![7]);
}

#[test]
fn leading_zeros_do_not_matter() {
    assert_eq!(read_holders(b"007 0"), vec![7, 0]);
}

#[test]
fn largest_process_id_fits() {
    assert_eq!(read_holders(b"4294967295"), vec![4294967295]);
}

#[test]
fn numbers_beyond_32_bits_are_passed_over() {
    assert_eq!(read_holders(b"4294967296 1 99999999999999999999999999 2"), vec![1, 2]);
    assert_eq!(read_holders(b"42949672950"), Vec::<u32>::new());
}

#[test]
fn bytes_outside_ascii_spoil_their_word_only() {
    assert_eq!(read_holders(&[0xff, 49, 32, 50, 51, 10, 0xc3, 0xa9, 10, 52]), vec![23, 4]);
}

#[test]
fn nul_is_no_blank() {
    assert_eq!(read_holders(&[49, 0, 50]), Vec::<u32>::new());
}

#[test]
fn failed_query_names_nobody() {
    assert_eq!(list_holders(None), Vec::<u32>::new());
}

#[test]
fn answered_query_is_read() {
    assert_eq!(list_holders(Some(b"31337\n".to_vec())), vec![31337]);
    assert_eq!(list_holders(Some(Vec::new())), Vec::<u32>::new());
}

#[test]
fn blanks_are_the_six_ascii_ones() {
    for b in 0..=255u8 {
        let expected = matches!(b, 9 | 10 | 11 | 12 | 13 | 32);
        assert_eq!(blank(b), expected);
    }
}
