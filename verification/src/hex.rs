//! Hexadecimal text: classifying hex digits, rendering bytes as lowercase
//! hex, and ASCII case folding so that digest tokens compare
//! case-insensitively.

use vstd::prelude::*;

verus! {

/// A character that may appear in a digest token.
pub open spec fn spec_is_hex_digit(c: char) -> bool {
    ('0' <= c && c <= '9') || ('a' <= c && c <= 'f') || ('A' <= c && c <= 'F')
}

/// Exec mirror of [`spec_is_hex_digit`].
pub fn is_hex_digit(c: char) -> (r: bool)
    ensures
        r == spec_is_hex_digit(c),
{
    ('0' <= c && c <= '9') || ('a' <= c && c <= 'f') || ('A' <= c && c <= 'F')
}

/// The lowercase hex character for a value below sixteen.
pub open spec fn spec_hex_digit_char(n: u8) -> char
    recommends
        n < 16,
{
    if n < 10 {
        (((n + 48) as u32) as char)
    } else {
        (((n + 87) as u32) as char)
    }
}

/// Exec mirror of [`spec_hex_digit_char`].
pub fn hex_digit_char(n: u8) -> (c: char)
    requires
        n < 16,
    ensures
        c == spec_hex_digit_char(n),
{
    let v: u8 = if n < 10 {
        n + 48
    } else {
        n + 87
    };
    v as char
}

/// Folds an uppercase hex letter to its lowercase form; leaves every other
/// character alone.
pub open spec fn spec_fold_hex_char(c: char) -> char {
    if 'A' <= c && c <= 'F' {
        (((c as u32) + 32) as char)
    } else {
        c
    }
}

/// Exec mirror of [`spec_fold_hex_char`].
pub fn fold_hex_char(c: char) -> (r: char)
    ensures
        r == spec_fold_hex_char(c),
{
    match c {
        'A' => 'a',
        'B' => 'b',
        'C' => 'c',
        'D' => 'd',
        'E' => 'e',
        'F' => 'f',
        _ => c,
    }
}

/// Pointwise case folding of a digest token.
pub open spec fn spec_fold_hex(s: Seq<char>) -> Seq<char> {
    Seq::new(s.len(), |i: int| spec_fold_hex_char(s[i]))
}

/// The lowercase hex rendering of a byte string: two characters per byte,
/// high nibble first.
pub open spec fn spec_hex_of_bytes(bytes: Seq<u8>) -> Seq<char>
    decreases bytes.len(),
{
    if bytes.len() == 0 {
        Seq::empty()
    } else {
        seq![
            spec_hex_digit_char(bytes.first() / 16),
            spec_hex_digit_char(bytes.first() % 16),
        ] + spec_hex_of_bytes(bytes.drop_first())
    }
}

/// A hex digit character rendered by [`spec_hex_digit_char`] is a hex digit
/// and is already lowercase: case folding leaves it unchanged.
pub proof fn lemma_hex_digit_char_props(n: u8)
    requires
        n < 16,
    ensures
        spec_is_hex_digit(spec_hex_digit_char(n)),
        spec_fold_hex_char(spec_hex_digit_char(n)) == spec_hex_digit_char(n),
{
}

/// The hex rendering of `bytes` has two characters per byte, every one of
/// them a hex digit that case folding leaves unchanged.
pub proof fn lemma_hex_of_bytes_shape(bytes: Seq<u8>)
    ensures
        spec_hex_of_bytes(bytes).len() == 2 * bytes.len(),
        forall|i: int|
            0 <= i < 2 * bytes.len() ==> spec_is_hex_digit(#[trigger] spec_hex_of_bytes(bytes)[i]),
        forall|i: int|
            0 <= i < 2 * bytes.len() ==> spec_fold_hex_char(#[trigger] spec_hex_of_bytes(bytes)[i])
                == spec_hex_of_bytes(bytes)[i],
    decreases bytes.len(),
{
    if bytes.len() > 0 {
        lemma_hex_of_bytes_shape(bytes.drop_first());
        lemma_hex_digit_char_props(bytes.first() / 16);
        lemma_hex_digit_char_props(bytes.first() % 16);
    }
}

/// Extending a byte string by one byte appends that byte's two hex
/// characters to the rendering.
pub proof fn lemma_hex_of_bytes_snoc(bytes: Seq<u8>, i: int)
    requires
        0 <= i < bytes.len(),
    ensures
        spec_hex_of_bytes(bytes.take(i + 1)) == spec_hex_of_bytes(bytes.take(i)) + seq![
            spec_hex_digit_char(bytes[i] / 16),
            spec_hex_digit_char(bytes[i] % 16),
        ],
    decreases i,
{
    if i == 0 {
        assert(bytes.take(1) =~= seq![bytes[0]]);
        assert(bytes.take(1).drop_first() =~= Seq::<u8>::empty());
        assert(bytes.take(0) =~= Seq::<u8>::empty());
        assert(spec_hex_of_bytes(bytes.take(1)) =~= seq![
            spec_hex_digit_char(bytes[0] / 16),
            spec_hex_digit_char(bytes[0] % 16),
        ]);
    } else {
        lemma_hex_of_bytes_snoc(bytes.drop_first(), i - 1);
        assert(bytes.take(i + 1).drop_first() =~= bytes.drop_first().take(i));
        assert(bytes.take(i).drop_first() =~= bytes.drop_first().take(i - 1));
        assert(bytes.take(i + 1).first() == bytes[0]);
        assert(bytes.take(i).first() == bytes[0]);
        assert(bytes.drop_first()[i - 1] == bytes[i]);
    }
}

/// Relies on `String::push`: appends exactly one character to the string.
#[verifier::external_body]
pub(crate) fn push_char(s: &mut String, c: char)
    ensures
        final(s)@ == old(s)@ + seq![c],
{
    s.push(c)
}

/// Renders a byte slice as lowercase hexadecimal text.
pub fn hex_of_bytes(bytes: &[u8]) -> (r: String)
    ensures
        r@ == spec_hex_of_bytes(bytes@),
{
    let mut r = String::new();
    let mut i: usize = 0;
    while i < bytes.len()
        invariant
            i <= bytes@.len(),
            r@ == spec_hex_of_bytes(bytes@.take(i as int)),
        decreases bytes@.len() - i,
    {
        let b = bytes[i];
        push_char(&mut r, hex_digit_char(b / 16));
        push_char(&mut r, hex_digit_char(b % 16));
        proof {
            lemma_hex_of_bytes_snoc(bytes@, i as int);
        }
        i = i + 1;
    }
    proof {
        assert(bytes@.take(bytes@.len() as int) =~= bytes@);
    }
    r
}

} // verus!
