use osd::error::{InputError, OsdError};
use osd::fingerprint::{accumulate, content_hash, fingerprint, render_hex16};
use osd::movie::Movie;

fn fixture(len: usize) -> Vec<u8> {
    (0..len).map(|i| ((i * 7 + 3) % 256) as u8).collect()
}

#[test]
fn file_of_one_window_has_a_fingerprint() {
    let content = vec![0u8; 65536];
    assert_eq!(content_hash(&content), Ok("0000000000010000".to_string()));
}

#[test]
fn file_one_byte_short_of_a_window_is_too_small() {
    let content = vec![0u8; 65535];
    assert_eq!(content_hash(&content), Err(OsdError::Input(InputError::TooSmall)));
}

#[test]
fn empty_file_is_too_small() {
    assert_eq!(content_hash(&[]), Err(OsdError::Input(InputError::TooSmall)));
}

#[test]
fn fixture_of_200_kib_has_its_fingerprint() {
    assert_eq!(content_hash(&fixture(204800)), Ok("60a0df1f5fa2e000".to_string()));
}

#[test]
fn fingerprint_is_the_same_on_every_run() {
    let content = fixture(204800);
    assert_eq!(content_hash(&content), content_hash(&content));
    assert_eq!(content_hash(&content), content_hash(&fixture(204800)));
}

#[test]
fn file_of_one_byte_more_than_a_window_overlaps_its_windows() {
    assert_eq!(content_hash(&fixture(65537)), Ok("4080bfff3f80a001".to_string()));
}

#[test]
fn change_in_the_first_window_changes_the_fingerprint() {
    let mut content = fixture(204800);
    content[5] = content[5].wrapping_add(1);
    assert_eq!(content_hash(&content), Ok("60a0e01f5fa2e000".to_string()));
}

#[test]
fn change_in_the_last_window_changes_the_fingerprint() {
    let mut content = fixture(204800);
    content[204799] = content[204799].wrapping_add(1);
    assert_eq!(content_hash(&content), Ok("61a0df1f5fa2e000".to_string()));
}

#[test]
fn change_between_the_windows_is_not_seen() {
    let mut content = fixture(204800);
    content[100000] ^= 0xff;
    assert_eq!(content_hash(&content), Ok("60a0df1f5fa2e000".to_string()));
}

#[test]
fn sum_of_two_to_the_64_wraps_to_the_length() {
    let mut content = vec![0u8; 131072];
    content[7] = 0x80;
    content[65536 + 7] = 0x80;
    assert_eq!(content_hash(&content), Ok("0000000000020000".to_string()));
}

#[test]
fn accumulator_wraps_without_failing() {
    assert_eq!(content_hash(&vec![0xffu8; 65536]), Ok("000000000000c000".to_string()));
    assert_eq!(content_hash(&vec![0xffu8; 131072]), Ok("000000000001c000".to_string()));
}

#[test]
fn top_byte_in_both_windows_changed_by_128_is_not_seen() {
    let mut content = vec![0u8; 65536];
    content[7] = 0x80;
    assert_eq!(content_hash(&content), Ok("0000000000010000".to_string()));
    content[7] = 0x40;
    assert_eq!(content_hash(&content), Ok("8000000000010000".to_string()));
}

#[test]
fn words_are_read_little_endian() {
    let mut window = vec![0u8; 65536];
    window[0] = 0x01;
    window[1] = 0x02;
    window[15] = 0x10;
    assert_eq!(accumulate(5, &window), 0x1000_0000_0000_0206);
    assert_eq!(accumulate(u64::MAX, &window), 0x1000_0000_0000_0200);
}

#[test]
fn fingerprint_adds_length_and_both_windows() {
    let head = vec![1u8; 65536];
    let tail = vec![2u8; 65536];
    assert_eq!(fingerprint(1_000_000, &head, &tail), 0x6060_6060_606f_a240);
}

#[test]
fn hex_has_sixteen_lowercase_digits() {
    assert_eq!(render_hex16(0), "0000000000000000");
    assert_eq!(render_hex16(0xabc), "0000000000000abc");
    assert_eq!(render_hex16(u64::MAX), "ffffffffffffffff");
    assert_eq!(render_hex16(0x0123_4567_89ab_cdef), "0123456789abcdef");
}

#[test]
fn create_hash_of_two_windows() {
    let head = vec![1u8; 65536];
    let tail = vec![2u8; 65536];
    assert_eq!(Movie::create_hash(1_000_000, &head, &tail), Ok("60606060606fa240".to_string()));
}

#[test]
fn create_hash_agrees_with_the_hash_of_the_whole_content() {
    let content = fixture(204800);
    let r = Movie::create_hash(204800, &content[..65536], &content[204800 - 65536..]);
    assert_eq!(r, content_hash(&content));
}

#[test]
fn create_hash_refuses_a_small_file_whatever_was_read() {
    let window = vec![0u8; 65536];
    assert_eq!(
        Movie::create_hash(65535, &window, &window),
        Err(OsdError::Input(InputError::TooSmall))
    );
    assert_eq!(Movie::create_hash(0, &[], &[]), Err(OsdError::Input(InputError::TooSmall)));
}

#[test]
fn create_hash_takes_a_short_window_as_a_failed_read() {
    let window = vec![0u8; 65536];
    let short = vec![0u8; 65535];
    assert_eq!(Movie::create_hash(70000, &short, &window), Err(OsdError::Io));
    assert_eq!(Movie::create_hash(70000, &window, &short), Err(OsdError::Io));
}
