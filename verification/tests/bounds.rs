use hostname::bounds::{slice_reported, wrap_buffer};
use hostname::HostnameValue;

fn bytes(text: &[u8]) -> HostnameValue {
    HostnameValue::Bytes(text.to_vec())
}

// Happy path case: there is a correct null terminated C string in a buffer
// and a bunch of NULL characters from the pre-allocated buffer
#[test]
fn nix_test_non_overflowed_buffer() {
    let buf = b"potato\0\0\0\0\0\0\0\0\0\0\0\0\0\0\0\0\0\0\0\0\0\0".to_vec();

    assert_eq!(wrap_buffer(buf), bytes(b"potato"));
}

#[test]
fn nix_test_empty_buffer() {
    let buf = b"".to_vec();

    assert_eq!(wrap_buffer(buf), bytes(b""));
}

#[test]
fn nix_test_filled_with_null_buffer() {
    let buf = b"\0\0\0\0\0\0\0\0\0\0\0\0\0\0\0\0\0\0\0\0\0\0\0".to_vec();

    assert_eq!(wrap_buffer(buf), bytes(b""));
}

// Hostname value had overflowed the buffer, so it was truncated
// and it is unspecified whether the returned name is null-terminated.
#[test]
fn nix_test_overflowed_buffer() {
    let buf = b"potat".to_vec();

    assert_eq!(wrap_buffer(buf), bytes(b"potat"));
}

#[test]
fn scenario_buffer_lengths() {
    let mut buf = b"potato".to_vec();
    buf.resize(22, 0);
    assert_eq!(buf.len(), 22);
    assert_eq!(wrap_buffer(buf), bytes(b"potato"));
    assert_eq!(wrap_buffer(vec![0u8; 23]), bytes(b""));
}

#[test]
fn name_ends_at_first_zero_of_several() {
    assert_eq!(wrap_buffer(b"ab\0cd\0ef".to_vec()), bytes(b"ab"));
}

#[test]
fn bytes_behind_the_terminator_are_dropped() {
    assert_eq!(wrap_buffer(b"host\0\xff\xfejunk".to_vec()), bytes(b"host"));
}

#[test]
fn terminator_in_first_place_gives_empty_name() {
    assert_eq!(wrap_buffer(b"\0potato".to_vec()), bytes(b""));
}

#[test]
fn terminator_in_last_place_is_dropped() {
    assert_eq!(wrap_buffer(b"potato\0".to_vec()), bytes(b"potato"));
}

#[test]
fn single_byte_buffers() {
    assert_eq!(wrap_buffer(vec![0u8]), bytes(b""));
    assert_eq!(wrap_buffer(vec![b'x']), bytes(b"x"));
}

#[test]
fn bytes_that_are_no_text_are_kept() {
    assert_eq!(wrap_buffer(vec![0xff, 0x80, 0x00, 0x41]), HostnameValue::Bytes(vec![0xff, 0x80]));
}

#[test]
fn name_is_never_longer_than_buffer() {
    for len in 0..40usize {
        let buffer: Vec<u8> = (0..len).map(|i| ((i * 7 + 3) % 5) as u8).collect();
        let name = wrap_buffer(buffer.clone());
        assert!(name.len() <= buffer.len());
        match name {
            HostnameValue::Bytes(kept) => {
                assert_eq!(&buffer[..kept.len()], &kept[..]);
                assert!(kept.iter().all(|&byte| byte != 0));
                if kept.len() < buffer.len() {
                    assert_eq!(buffer[kept.len()], 0);
                }
            }
            HostnameValue::Wide(_) => panic!("a byte buffer holds a name in bytes"),
        }
    }
}

#[test]
fn reported_length_is_taken_at_its_word() {
    let units: Vec<u16> = vec![0x70, 0x6f, 0x00, 0x74, 0x00, 0x00];
    assert_eq!(
        slice_reported(units.clone(), 4),
        HostnameValue::Wide(vec![0x70, 0x6f, 0x00, 0x74])
    );
    assert_eq!(slice_reported(units.clone(), 0), HostnameValue::Wide(vec![]));
    assert_eq!(slice_reported(units.clone(), 6), HostnameValue::Wide(units));
}

#[test]
fn value_length_counts_units() {
    assert_eq!(HostnameValue::Bytes(b"potato".to_vec()).len(), 6);
    assert_eq!(HostnameValue::Wide(vec![0x70, 0x6f]).len(), 2);
    assert_eq!(HostnameValue::Bytes(Vec::new()).len(), 0);
}
