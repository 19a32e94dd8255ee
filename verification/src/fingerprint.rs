//! The 64-bit content fingerprint of a video file.
//!
//! The fingerprint is the file's length plus the sum of the little-endian
//! 64-bit words of its first and of its last 64 KiB, modulo 2^64.

use crate::error::{InputError, OsdError};
use vstd::prelude::*;
use vstd::slice::slice_subrange;

verus! {

/// Bytes in each of the two windows that the fingerprint reads.
pub const WINDOW_BYTES: usize = 65536;

/// Little-endian words in one window.
pub const WINDOW_WORDS: usize = 8192;

/// Two to the power 64, the modulus of the accumulator.
pub open spec fn modulus() -> int {
    0x1_0000_0000_0000_0000
}

/// The amount `d` at place `k` of a little-endian word: `d` times 256 to the
/// power `k`, for `k` from 0 to 7.
pub open spec fn at_place(d: int, k: int) -> int {
    if k == 0 {
        d
    } else if k == 1 {
        d * 0x100
    } else if k == 2 {
        d * 0x1_0000
    } else if k == 3 {
        d * 0x100_0000
    } else if k == 4 {
        d * 0x1_0000_0000
    } else if k == 5 {
        d * 0x100_0000_0000
    } else if k == 6 {
        d * 0x1_0000_0000_0000
    } else {
        d * 0x100_0000_0000_0000
    }
}

/// The value of the eight bytes that start at `at`, read as a little-endian
/// unsigned integer.
pub open spec fn word_at(bytes: Seq<u8>, at: int) -> int {
    at_place(bytes[at] as int, 0) + at_place(bytes[at + 1] as int, 1) + at_place(
        bytes[at + 2] as int,
        2,
    ) + at_place(bytes[at + 3] as int, 3) + at_place(bytes[at + 4] as int, 4) + at_place(
        bytes[at + 5] as int,
        5,
    ) + at_place(bytes[at + 6] as int, 6) + at_place(bytes[at + 7] as int, 7)
}

/// The sum of the first `n` little-endian words of `bytes`, as an unbounded
/// integer.
pub open spec fn words_sum(bytes: Seq<u8>, n: nat) -> int
    decreases n,
{
    if n == 0 {
        0
    } else {
        words_sum(bytes, (n - 1) as nat) + word_at(bytes, 8 * (n - 1))
    }
}

/// The fingerprint of a file of `size` bytes whose first window is `head` and
/// whose last window is `tail`.
pub open spec fn fingerprint_of(size: int, head: Seq<u8>, tail: Seq<u8>) -> int {
    (size + words_sum(head, WINDOW_WORDS as nat) + words_sum(tail, WINDOW_WORDS as nat))
        % modulus()
}

/// Reads the little-endian word that starts at `at`.
fn read_word(bytes: &[u8], at: usize) -> (word: u64)
    requires
        at + 8 <= bytes.len(),
    ensures
        word == word_at(bytes@, at as int),
{
    let b0: u64 = bytes[at] as u64;
    let b1: u64 = bytes[at + 1] as u64;
    let b2: u64 = bytes[at + 2] as u64;
    let b3: u64 = bytes[at + 3] as u64;
    let b4: u64 = bytes[at + 4] as u64;
    let b5: u64 = bytes[at + 5] as u64;
    let b6: u64 = bytes[at + 6] as u64;
    let b7: u64 = bytes[at + 7] as u64;
    b0 + b1 * 0x100 + b2 * 0x1_0000 + b3 * 0x100_0000 + b4 * 0x1_0000_0000 + b5
        * 0x100_0000_0000 + b6 * 0x1_0000_0000_0000 + b7 * 0x100_0000_0000_0000
}

/// Adds the words of one window to the accumulator, wrapping at 2^64.
pub fn accumulate(seed: u64, window: &[u8]) -> (acc: u64)
    requires
        window.len() == WINDOW_BYTES,
    ensures
        acc == (seed + words_sum(window@, WINDOW_WORDS as nat)) % modulus(),
{
    let mut acc: u64 = seed;
    let mut i: usize = 0;
    while i < WINDOW_WORDS
        invariant
            i <= WINDOW_WORDS,
            window.len() == WINDOW_BYTES,
            acc == (seed + words_sum(window@, i as nat)) % modulus(),
        decreases WINDOW_WORDS - i,
    {
        let word = read_word(window, 8 * i);
        acc = acc.wrapping_add(word);
        i = i + 1;
    }
    acc
}

/// The fingerprint of a file of `size` bytes from its two windows.
pub fn fingerprint(size: u64, head: &[u8], tail: &[u8]) -> (value: u64)
    requires
        head.len() == WINDOW_BYTES,
        tail.len() == WINDOW_BYTES,
    ensures
        value == fingerprint_of(size as int, head@, tail@),
{
    let first = accumulate(size, head);
    accumulate(first, tail)
}

/// The first window of a file's content.
pub open spec fn head_window(content: Seq<u8>) -> Seq<u8> {
    content.subrange(0, WINDOW_BYTES as int)
}

/// The last window of a file's content.
pub open spec fn tail_window(content: Seq<u8>) -> Seq<u8> {
    content.subrange(content.len() - WINDOW_BYTES, content.len() as int)
}

/// The fingerprint of a file with the given content, which is at least one
/// window long. Of a file shorter than two windows the windows overlap.
pub open spec fn content_fingerprint(content: Seq<u8>) -> int {
    fingerprint_of(content.len() as int, head_window(content), tail_window(content))
}

/// Sixteen to the power `k`.
pub open spec fn place(k: nat) -> int
    decreases k,
{
    if k == 0 {
        1
    } else {
        16 * place((k - 1) as nat)
    }
}

/// Every power of sixteen is positive.
pub proof fn lemma_place_positive(k: nat)
    ensures
        place(k) > 0,
    decreases k,
{
    if k > 0 {
        lemma_place_positive((k - 1) as nat);
    }
}

/// The lowercase hexadecimal digit for a value below sixteen.
pub open spec fn hex_digit(d: int) -> char {
    if d == 0 {
        '0'
    } else if d == 1 {
        '1'
    } else if d == 2 {
        '2'
    } else if d == 3 {
        '3'
    } else if d == 4 {
        '4'
    } else if d == 5 {
        '5'
    } else if d == 6 {
        '6'
    } else if d == 7 {
        '7'
    } else if d == 8 {
        '8'
    } else if d == 9 {
        '9'
    } else if d == 10 {
        'a'
    } else if d == 11 {
        'b'
    } else if d == 12 {
        'c'
    } else if d == 13 {
        'd'
    } else if d == 14 {
        'e'
    } else {
        'f'
    }
}

/// The sixteen lowercase hexadecimal digits of `value`, most significant
/// first, padded with zeros.
pub open spec fn hex16(value: int) -> Seq<char> {
    Seq::new(16, |i: int| hex_digit((value / place((15 - i) as nat)) % 16))
}

/// The digit character for `d`.
fn digit_char(d: u64) -> (c: char)
    requires
        d < 16,
    ensures
        c == hex_digit(d as int),
{
    if d == 0 {
        '0'
    } else if d == 1 {
        '1'
    } else if d == 2 {
        '2'
    } else if d == 3 {
        '3'
    } else if d == 4 {
        '4'
    } else if d == 5 {
        '5'
    } else if d == 6 {
        '6'
    } else if d == 7 {
        '7'
    } else if d == 8 {
        '8'
    } else if d == 9 {
        '9'
    } else if d == 10 {
        'a'
    } else if d == 11 {
        'b'
    } else if d == 12 {
        'c'
    } else if d == 13 {
        'd'
    } else if d == 14 {
        'e'
    } else {
        'f'
    }
}

/// Renders `value` as sixteen lowercase hexadecimal digits.
pub fn render_hex16(value: u64) -> (text: String)
    ensures
        text@ == hex16(value as int),
{
    let mut text = String::new();
    let mut divisor: u64 = 0x1000_0000_0000_0000;
    let mut i: usize = 0;
    assert(place(15) == 0x1000_0000_0000_0000) by {
        reveal_with_fuel(place, 16);
    }
    while i < 16
        invariant
            i <= 16,
            i < 16 ==> divisor == place((15 - i) as nat),
            text@.len() == i,
            forall|j: int| 0 <= j < i ==> text@[j] == hex16(value as int)[j],
        decreases 16 - i,
    {
        proof {
            lemma_place_positive((15 - i) as nat);
        }
        let digit = (value / divisor) % 16;
        text.push(digit_char(digit));
        i = i + 1;
        divisor = divisor / 16;
    }
    text
}

/// The fingerprint, as text, of a file that is held in memory as a whole.
pub fn content_hash(content: &[u8]) -> (r: Result<String, OsdError>)
    ensures
        content.len() < WINDOW_BYTES ==> r == Err::<String, OsdError>(
            OsdError::Input(InputError::TooSmall),
        ),
        content.len() >= WINDOW_BYTES ==> r is Ok && r->Ok_0@ == hex16(
            content_fingerprint(content@),
        ),
{
    let n = content.len();
    if n < WINDOW_BYTES {
        return Err(OsdError::Input(InputError::TooSmall));
    }
    let head = slice_subrange(content, 0, WINDOW_BYTES);
    let tail = slice_subrange(content, n - WINDOW_BYTES, n);
    Ok(render_hex16(fingerprint(n as u64, head, tail)))
}

} // verus!
