use ldk_node_core::bytes::{
    copy_byte_strings, copy_bytes, decode_hex, hex_digit, hex_str, same_bytes, same_slice, to_vec,
};

#[test]
fn hex_decodes_both_cases() {
    assert_eq!(to_vec("00ff10aB"), Some(vec![0x00, 0xff, 0x10, 0xab]));
    assert_eq!(to_vec("DEADbeef"), Some(vec![0xde, 0xad, 0xbe, 0xef]));
    assert_eq!(to_vec(""), Some(vec![]));
}

#[test]
fn hex_refuses_other_characters() {
    assert_eq!(to_vec("0g"), None);
    assert_eq!(to_vec("zz"), None);
    assert_eq!(to_vec("0 "), None);
    assert_eq!(to_vec("é0"), None);
}

#[test]
fn hex_refuses_odd_length() {
    assert_eq!(to_vec("abc"), None);
    assert_eq!(to_vec("0"), None);
    assert_eq!(decode_hex(b"123"), None);
}

#[test]
fn hex_digits_have_their_values() {
    assert_eq!(hex_digit(b'0'), Some(0));
    assert_eq!(hex_digit(b'9'), Some(9));
    assert_eq!(hex_digit(b'a'), Some(10));
    assert_eq!(hex_digit(b'f'), Some(15));
    assert_eq!(hex_digit(b'A'), Some(10));
    assert_eq!(hex_digit(b'F'), Some(15));
    assert_eq!(hex_digit(b'g'), None);
    assert_eq!(hex_digit(b'G'), None);
    assert_eq!(hex_digit(b'/'), None);
    assert_eq!(hex_digit(b':'), None);
    assert_eq!(hex_digit(b'@'), None);
    assert_eq!(hex_digit(b'`'), None);
}

#[test]
fn bytes_compare_by_content() {
    let mut other = [5u8; 32];
    assert!(same_bytes(&[5u8; 32], &other));
    other[31] = 6;
    assert!(!same_bytes(&[5u8; 32], &other));
    assert!(same_slice(&[1, 2, 3], &[1, 2, 3]));
    assert!(!same_slice(&[1, 2, 3], &[1, 2]));
    assert!(!same_slice(&[1, 2, 3], &[1, 2, 4]));
    assert!(same_slice(&[], &[]));
}

#[test]
fn copies_hold_the_same_bytes() {
    assert_eq!(copy_bytes(&vec![1, 2, 3]), vec![1, 2, 3]);
    assert_eq!(copy_bytes(&vec![]), Vec::<u8>::new());
    let list = vec![vec![1u8], vec![], vec![2, 3]];
    assert_eq!(copy_byte_strings(&list), list);
}

#[test]
fn hex_is_written_in_lower_case() {
    assert_eq!(hex_str(&[0x00, 0xff, 0x10, 0xab]), "00ff10ab");
    assert_eq!(hex_str(&[]), "");
    assert_eq!(hex_str(&[0x0f, 0xf0]), "0ff0");
}

#[test]
fn hex_reads_back_what_was_written() {
    let bytes: Vec<u8> = (0u8..=255).collect();
    assert_eq!(to_vec(&hex_str(&bytes)), Some(bytes));
}

#[test]
fn keys_compare_by_content() {
    let mut other = [5u8; 33];
    assert!(same_bytes(&[5u8; 33], &other));
    other[0] = 6;
    assert!(!same_bytes(&[5u8; 33], &other));
}
