//! What holds of the fingerprint for every file.

use crate::fingerprint::{
    at_place, content_fingerprint, fingerprint_of, head_window, hex16, hex_digit, modulus, place,
    tail_window, word_at, words_sum, lemma_place_positive, WINDOW_BYTES, WINDOW_WORDS,
};
use vstd::arithmetic::div_mod::lemma_div_denominator;
use vstd::prelude::*;

verus! {

/// The sum of the first `n` words reads the first `8 * n` bytes and no others.
pub proof fn lemma_words_sum_reads_prefix(a: Seq<u8>, b: Seq<u8>, n: nat)
    requires
        forall|i: int| 0 <= i < 8 * n ==> a[i] == b[i],
    ensures
        words_sum(a, n) == words_sum(b, n),
    decreases n,
{
    if n > 0 {
        lemma_words_sum_reads_prefix(a, b, (n - 1) as nat);
    }
}

/// Replacing the byte at `p` moves the sum of the words by the change of the
/// byte times the weight of its place in its word.
pub proof fn lemma_words_sum_update(bytes: Seq<u8>, n: nat, p: int, v: u8)
    requires
        0 <= p < 8 * n <= bytes.len(),
    ensures
        words_sum(bytes.update(p, v), n) == words_sum(bytes, n) + at_place(v - bytes[p], p % 8),
    decreases n,
{
    if p < 8 * (n - 1) {
        lemma_words_sum_update(bytes, (n - 1) as nat, p, v);
    } else {
        lemma_words_sum_reads_prefix(bytes.update(p, v), bytes, (n - 1) as nat);
    }
}

/// Whether position `p` lies in the first window.
pub open spec fn in_head(p: int) -> bool {
    0 <= p < WINDOW_BYTES
}

/// Whether position `p` of a file of `len` bytes lies in the last window.
pub open spec fn in_tail(len: int, p: int) -> bool {
    len - WINDOW_BYTES <= p < len
}

/// The one kind of change to one byte that leaves the fingerprint as it was:
/// the byte lies in both windows, is the most significant byte of a word in
/// each of them, and changes by 128, so that the sum moves by 2^64.
pub open spec fn unseen_change(len: int, p: int, before: u8, after: u8) -> bool {
    &&& in_head(p)
    &&& in_tail(len, p)
    &&& p % 8 == 7
    &&& (p - (len - WINDOW_BYTES)) % 8 == 7
    &&& (after - before == 128 || before - after == 128)
}

/// By how much the two window sums together move when the byte at `p`
/// changes from `before` to `after`.
pub open spec fn sum_shift(len: int, p: int, before: u8, after: u8) -> int {
    (if in_head(p) {
        at_place(after - before, p % 8)
    } else {
        0
    }) + (if in_tail(len, p) {
        at_place(after - before, (p - (len - WINDOW_BYTES)) % 8)
    } else {
        0
    })
}

/// The window sums of a file in which one byte was replaced.
proof fn lemma_window_sums_after_change(content: Seq<u8>, p: int, v: u8)
    requires
        content.len() >= WINDOW_BYTES,
        0 <= p < content.len(),
    ensures
        words_sum(head_window(content.update(p, v)), WINDOW_WORDS as nat) + words_sum(
            tail_window(content.update(p, v)),
            WINDOW_WORDS as nat,
        ) == words_sum(head_window(content), WINDOW_WORDS as nat) + words_sum(
            tail_window(content),
            WINDOW_WORDS as nat,
        ) + sum_shift(content.len() as int, p, content[p], v),
{
    let changed = content.update(p, v);
    let len = content.len() as int;
    let start = len - WINDOW_BYTES;
    if in_head(p) {
        assert(head_window(changed) =~= head_window(content).update(p, v));
        lemma_words_sum_update(head_window(content), WINDOW_WORDS as nat, p, v);
    } else {
        assert(head_window(changed) =~= head_window(content));
    }
    if in_tail(len, p) {
        assert(tail_window(changed) =~= tail_window(content).update(p - start, v));
        lemma_words_sum_update(tail_window(content), WINDOW_WORDS as nat, p - start, v);
    } else {
        assert(tail_window(changed) =~= tail_window(content));
    }
}

/// A shift of the sum is invisible exactly when it is a multiple of 2^64.
proof fn lemma_shift_modulo(base: int, shift: int)
    ensures
        ((base + shift) % modulus() == base % modulus()) <==> shift % modulus() == 0,
{
}

/// The shift that one changed byte causes is a multiple of 2^64 only for the
/// change that `unseen_change` describes.
proof fn lemma_shift_is_seen(len: int, p: int, before: u8, after: u8)
    requires
        len >= WINDOW_BYTES,
        0 <= p < len,
        in_head(p) || in_tail(len, p),
        before != after,
    ensures
        sum_shift(len, p, before, after) % modulus() == 0 <==> unseen_change(len, p, before, after),
{
}

/// Changing one byte inside the first or the last window changes the
/// fingerprint, and so its sixteen digits, unless the change is the one that
/// `unseen_change` describes.
pub proof fn lemma_window_byte_changes_fingerprint(content: Seq<u8>, p: int, v: u8)
    requires
        content.len() >= WINDOW_BYTES,
        0 <= p < content.len(),
        in_head(p) || in_tail(content.len() as int, p),
        v != content[p],
        !unseen_change(content.len() as int, p, content[p], v),
    ensures
        content_fingerprint(content.update(p, v)) != content_fingerprint(content),
        hex16(content_fingerprint(content.update(p, v))) != hex16(content_fingerprint(content)),
{
    let changed = content.update(p, v);
    let len = content.len() as int;
    let base = len + words_sum(head_window(content), WINDOW_WORDS as nat) + words_sum(
        tail_window(content),
        WINDOW_WORDS as nat,
    );
    lemma_window_sums_after_change(content, p, v);
    lemma_shift_is_seen(len, p, content[p], v);
    lemma_shift_modulo(base, sum_shift(len, p, content[p], v));
    if hex16(content_fingerprint(changed)) == hex16(content_fingerprint(content)) {
        lemma_hex16_injective(content_fingerprint(changed), content_fingerprint(content));
    }
}

/// The change that `unseen_change` describes leaves the fingerprint as it
/// was.
pub proof fn lemma_unseen_change_keeps_fingerprint(content: Seq<u8>, p: int, v: u8)
    requires
        content.len() >= WINDOW_BYTES,
        0 <= p < content.len(),
        unseen_change(content.len() as int, p, content[p], v),
    ensures
        content_fingerprint(content.update(p, v)) == content_fingerprint(content),
{
    let len = content.len() as int;
    let base = len + words_sum(head_window(content), WINDOW_WORDS as nat) + words_sum(
        tail_window(content),
        WINDOW_WORDS as nat,
    );
    lemma_window_sums_after_change(content, p, v);
    lemma_shift_is_seen(len, p, content[p], v);
    lemma_shift_modulo(base, sum_shift(len, p, content[p], v));
}

/// Two files of one length that agree in both windows have one fingerprint:
/// the bytes between the windows are not read.
pub proof fn lemma_fingerprint_reads_windows_only(a: Seq<u8>, b: Seq<u8>)
    requires
        a.len() == b.len(),
        a.len() >= WINDOW_BYTES,
        forall|i: int| #![trigger a[i]] in_head(i) || in_tail(a.len() as int, i) ==> a[i] == b[i],
    ensures
        content_fingerprint(a) == content_fingerprint(b),
        hex16(content_fingerprint(a)) == hex16(content_fingerprint(b)),
{
    assert(head_window(a) =~= head_window(b));
    assert(tail_window(a) =~= tail_window(b));
}

/// Where the words of the two windows sum to 2^64, or to any multiple of it,
/// the accumulator wraps round to the seed: the fingerprint is the length of
/// the file.
pub proof fn lemma_wrapped_sum_leaves_seed(size: int, head: Seq<u8>, tail: Seq<u8>)
    requires
        0 <= size < modulus(),
        (words_sum(head, WINDOW_WORDS as nat) + words_sum(tail, WINDOW_WORDS as nat)) % modulus()
            == 0,
    ensures
        fingerprint_of(size, head, tail) == size,
{
}

/// The value of a lowercase hexadecimal digit.
pub open spec fn digit_value(c: char) -> int {
    if c == '0' {
        0
    } else if c == '1' {
        1
    } else if c == '2' {
        2
    } else if c == '3' {
        3
    } else if c == '4' {
        4
    } else if c == '5' {
        5
    } else if c == '6' {
        6
    } else if c == '7' {
        7
    } else if c == '8' {
        8
    } else if c == '9' {
        9
    } else if c == 'a' {
        10
    } else if c == 'b' {
        11
    } else if c == 'c' {
        12
    } else if c == 'd' {
        13
    } else if c == 'e' {
        14
    } else {
        15
    }
}

/// The number that the first `n` digits of `text` spell.
pub open spec fn hex_value(text: Seq<char>, n: nat) -> int
    decreases n,
{
    if n == 0 {
        0
    } else {
        16 * hex_value(text, (n - 1) as nat) + digit_value(text[n - 1])
    }
}

/// The first `n` digits of a rendered value spell the value without its last
/// `16 - n` digits.
proof fn lemma_hex_value_of_prefix(value: int, n: nat)
    requires
        0 <= value < modulus(),
        n <= 16,
    ensures
        hex_value(hex16(value), n) == value / place((16 - n) as nat),
    decreases n,
{
    lemma_place_positive((16 - n) as nat);
    if n == 0 {
        assert(place(16) == modulus()) by {
            reveal_with_fuel(place, 17);
        }
        assert(value / modulus() == 0);
    } else {
        lemma_hex_value_of_prefix(value, (n - 1) as nat);
        lemma_div_denominator(value, place((16 - n) as nat), 16);
    }
}

/// The digits of a 64-bit value spell that value.
pub proof fn lemma_hex_value_of_hex16(value: int)
    requires
        0 <= value < modulus(),
    ensures
        hex_value(hex16(value), 16) == value,
{
    lemma_hex_value_of_prefix(value, 16);
}

/// Two 64-bit values with the same sixteen digits are one value.
pub proof fn lemma_hex16_injective(a: int, b: int)
    requires
        0 <= a < modulus(),
        0 <= b < modulus(),
        hex16(a) == hex16(b),
    ensures
        a == b,
{
    lemma_hex_value_of_hex16(a);
    lemma_hex_value_of_hex16(b);
}

} // verus!
