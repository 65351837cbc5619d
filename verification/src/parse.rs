//! The manifest line grammar: exactly thirty-two hex characters, one
//! space, one separator (space or `*`), then the target name verbatim to
//! the end of the line. Nothing else is tolerated; the parser and the
//! produce-mode formatter are exact inverses.

use vstd::prelude::*;

use crate::digest::Digest;
use crate::hex::{
    hex_of_bytes, is_hex_digit, spec_fold_hex, spec_hex_of_bytes, spec_is_hex_digit,
    lemma_hex_of_bytes_shape,
};

verus! {

/// The fixed grammar of one manifest line: positions 0 to 31 hold hex
/// digits (the digest token), position 32 a space, position 33 the
/// separator (space for text mode, `*` for binary mode), and the rest is
/// the target name.
pub open spec fn spec_line_well_formed(line: Seq<char>) -> bool {
    &&& line.len() >= 34
    &&& forall|i: int| 0 <= i < 32 ==> spec_is_hex_digit(#[trigger] line[i])
    &&& line[32] == ' '
    &&& line[33] == ' ' || line[33] == '*'
}

/// The digest token of a well-formed line.
pub open spec fn spec_digest_token(line: Seq<char>) -> Seq<char> {
    line.subrange(0, 32)
}

/// The target name of a well-formed line: everything after the separator,
/// verbatim.
pub open spec fn spec_target_name(line: Seq<char>) -> Seq<char> {
    line.subrange(34, line.len() as int)
}

/// Every character of the string is a hex digit.
pub fn is_hex_str(hs: &str) -> (r: bool)
    ensures
        r == (forall|i: int| 0 <= i < hs@.len() ==> spec_is_hex_digit(#[trigger] hs@[i])),
{
    let n = hs.unicode_len();
    let mut i: usize = 0;
    while i < n
        invariant
            n == hs@.len(),
            i <= n,
            forall|j: int| 0 <= j < i ==> spec_is_hex_digit(#[trigger] hs@[j]),
        decreases n - i,
    {
        if !is_hex_digit(hs.get_char(i)) {
            return false;
        }
        i = i + 1;
    }
    true
}

/// Parses one manifest line into its digest token and target name, or
/// rejects it: `Some` exactly on well-formed lines, with the two parts
/// taken verbatim from the line.
pub fn read_md5sum_line(line: &str) -> (r: Option<(&str, &str)>)
    ensures
        r is Some <==> spec_line_well_formed(line@),
        r matches Some(p) ==> p.0@ == spec_digest_token(line@) && p.1@ == spec_target_name(line@),
{
    let n = line.unicode_len();
    if n < 34 {
        return None;
    }
    let token = line.substring_char(0, 32);
    if !is_hex_str(token) {
        proof {
            let i = choose|i: int| 0 <= i < token@.len() && !spec_is_hex_digit(token@[i]);
            assert(line@[i] == token@[i]);
        }
        return None;
    }
    if line.get_char(32) != ' ' {
        return None;
    }
    let sep = line.get_char(33);
    if sep != ' ' && sep != '*' {
        return None;
    }
    let name = line.substring_char(34, n);
    proof {
        assert forall|i: int| 0 <= i < 32 implies spec_is_hex_digit(#[trigger] line@[i]) by {
            assert(token@[i] == line@[i]);
            assert(spec_is_hex_digit(token@[i]));
        }
    }
    Some((token, name))
}

/// The produce-mode line for a digest rendered as `digest_hex` and a
/// target name: the hex, two spaces (the text-mode separator), the name.
pub open spec fn spec_format_line(digest_hex: Seq<char>, name: Seq<char>) -> Seq<char> {
    digest_hex + seq![' ', ' '] + name
}

/// Formats a digest and a target name as a produce-mode manifest line.
pub fn format_md5sum_line(digest: &Digest, name: &str) -> (r: String)
    ensures
        r@ == spec_format_line(spec_hex_of_bytes(digest@), name@),
{
    let mut r = hex_of_bytes(digest.0.as_slice());
    r.append("  ");
    r.append(name);
    proof {
        reveal_strlit("  ");
        assert("  "@ =~= seq![' ', ' ']);
        assert(r@ =~= spec_format_line(spec_hex_of_bytes(digest@), name@));
    }
    r
}

/// Parsing inverts formatting: the produce-mode line for a digest and a
/// name is well formed, its digest token is exactly the lowercase hex of
/// the digest — so case folding leaves it equal to that hex — and its
/// target name is exactly the name.
pub proof fn lemma_parse_inverts_format(digest: Seq<u8>, name: Seq<char>)
    requires
        digest.len() == 16,
    ensures
        ({
            let line = spec_format_line(spec_hex_of_bytes(digest), name);
            &&& spec_line_well_formed(line)
            &&& spec_digest_token(line) == spec_hex_of_bytes(digest)
            &&& spec_fold_hex(spec_digest_token(line)) == spec_hex_of_bytes(digest)
            &&& spec_target_name(line) == name
        }),
{
    let hex = spec_hex_of_bytes(digest);
    let line = spec_format_line(hex, name);
    lemma_hex_of_bytes_shape(digest);
    assert(forall|i: int| 0 <= i < 32 ==> line[i] == #[trigger] hex[i]);
    assert(spec_digest_token(line) =~= hex);
    assert(spec_fold_hex(spec_digest_token(line)) =~= hex);
    assert(spec_target_name(line) =~= name);
}

/// A line whose digest token is cut short or holds a non-hex character,
/// whose separator is missing or wrong, or which starts with a space, is
/// never well formed — whatever target it names.
pub proof fn lemma_malformed_line_rejected(line: Seq<char>)
    requires
        ({
            ||| line.len() < 34
            ||| line.len() > 0 && line[0] == ' '
            ||| exists|i: int| 0 <= i < 32 && !spec_is_hex_digit(#[trigger] line[i])
            ||| line.len() >= 33 && line[32] != ' '
            ||| line.len() >= 34 && line[33] != ' ' && line[33] != '*'
        }),
    ensures
        !spec_line_well_formed(line),
{
}

} // verus!
