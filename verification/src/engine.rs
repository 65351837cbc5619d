//! The verification engine: classifies one manifest line, together with
//! the attempt to digest the target it names, as exactly one of four
//! outcomes. The digest comparison is case-insensitive on the hex digits;
//! everything else about the line is taken verbatim.

use vstd::prelude::*;

use crate::digest::Digest;
use crate::hex::{
    fold_hex_char, hex_of_bytes, lemma_hex_of_bytes_shape, spec_fold_hex, spec_fold_hex_char,
    spec_hex_of_bytes, spec_is_hex_digit,
};
use crate::parse::{
    read_md5sum_line, spec_digest_token, spec_line_well_formed, spec_target_name,
};

verus! {

/// The outcome of checking one manifest line: the target's content matched
/// the recorded digest, it did not, the line itself was malformed, or the
/// target could not be read (with the reader's error text).
#[derive(Clone, Debug, PartialEq, Eq)]
pub enum MD5Check {
    MatchSuccess(String),
    MatchFailed(String),
    BadFormat,
    ReadError(String, String),
}

/// Whether a digest token, case-folded, spells exactly the lowercase hex
/// form of a digest.
pub open spec fn spec_token_matches(token: Seq<char>, digest: Seq<u8>) -> bool {
    spec_fold_hex(token) == spec_hex_of_bytes(digest)
}

/// Compares an expected digest token to a computed digest,
/// case-insensitively on the hex digits.
pub fn digest_matches(expected: &str, digest: &Digest) -> (r: bool)
    ensures
        r == spec_token_matches(expected@, digest@),
{
    proof {
        lemma_hex_of_bytes_shape(digest@);
    }
    let n = expected.unicode_len();
    if n != 32 {
        proof {
            assert(spec_fold_hex(expected@).len() == expected@.len());
            assert(spec_hex_of_bytes(digest@).len() == 32);
        }
        return false;
    }
    let hex = hex_of_bytes(digest.0.as_slice());
    let mut i: usize = 0;
    while i < 32
        invariant
            i <= 32,
            n == expected@.len() == 32,
            hex@ == spec_hex_of_bytes(digest@),
            hex@.len() == 32,
            forall|j: int| 0 <= j < i ==> spec_fold_hex_char(#[trigger] expected@[j]) == hex@[j],
        decreases 32 - i,
    {
        let c = fold_hex_char(expected.get_char(i));
        if c != hex.as_str().get_char(i) {
            proof {
                assert(spec_fold_hex(expected@)[i as int] != spec_hex_of_bytes(digest@)[i as int]);
            }
            return false;
        }
        i = i + 1;
    }
    proof {
        assert(spec_fold_hex(expected@) =~= spec_hex_of_bytes(digest@));
    }
    true
}

/// Compares the computed digest of a target — or the failure to read it —
/// against the expected token, and names the target in the outcome.
pub fn md5sum_expect(filename: &str, expected: &str, computed: Result<Digest, String>) -> (r:
    MD5Check)
    ensures
        (computed matches Ok(d) && spec_token_matches(expected@, d@)) ==> (r matches
            MD5Check::MatchSuccess(n) && n@ == filename@),
        (computed matches Ok(d) && !spec_token_matches(expected@, d@)) ==> (r matches
            MD5Check::MatchFailed(n) && n@ == filename@),
        computed matches Err(e) ==> (r matches MD5Check::ReadError(n, m) && n@ == filename@ && m@
            == e@),
{
    match computed {
        Ok(sum) => {
            if digest_matches(expected, &sum) {
                MD5Check::MatchSuccess(filename.to_owned())
            } else {
                MD5Check::MatchFailed(filename.to_owned())
            }
        },
        Err(e) => MD5Check::ReadError(filename.to_owned(), e),
    }
}

/// Checks one manifest line. A malformed line is `BadFormat` outright;
/// otherwise `computed` must be the result of digesting the target the
/// line names, and the outcome compares it against the line's digest
/// token, case-insensitively.
pub fn md5sum_check(line: &str, computed: Result<Digest, String>) -> (r: MD5Check)
    ensures
        !spec_line_well_formed(line@) ==> r == MD5Check::BadFormat,
        spec_line_well_formed(line@) ==> {
            let token = spec_digest_token(line@);
            let name = spec_target_name(line@);
            &&& (computed matches Ok(d) && spec_token_matches(token, d@)) ==> (r matches
                MD5Check::MatchSuccess(n) && n@ == name)
            &&& (computed matches Ok(d) && !spec_token_matches(token, d@)) ==> (r matches
                MD5Check::MatchFailed(n) && n@ == name)
            &&& computed matches Err(e) ==> (r matches MD5Check::ReadError(n, m) && n@ == name
                && m@ == e@)
        },
{
    match read_md5sum_line(line) {
        Some((expected, filename)) => md5sum_expect(filename, expected, computed),
        None => MD5Check::BadFormat,
    }
}

/// Mutating one digest-token character of a well-formed line to another
/// hex character — one that differs even after case folding — keeps the
/// line well formed with the same target name, so checking it can never
/// say `BadFormat`; and if the unmutated token matched a digest, the
/// mutated token no longer does, so checking it against that digest says
/// `MatchFailed`.
pub proof fn lemma_digest_mutation_fails_match(line: Seq<char>, i: int, c: char, digest: Seq<u8>)
    requires
        spec_line_well_formed(line),
        0 <= i < 32,
        spec_is_hex_digit(c),
        spec_fold_hex_char(c) != spec_fold_hex_char(line[i]),
        spec_token_matches(spec_digest_token(line), digest),
    ensures
        ({
            let mutated = line.update(i, c);
            &&& spec_line_well_formed(mutated)
            &&& spec_target_name(mutated) == spec_target_name(line)
            &&& !spec_token_matches(spec_digest_token(mutated), digest)
        }),
{
    let mutated = line.update(i, c);
    assert(spec_target_name(mutated) =~= spec_target_name(line));
    assert(spec_digest_token(mutated)[i] == c);
    assert(spec_digest_token(line)[i] == line[i]);
    assert(spec_fold_hex(spec_digest_token(mutated))[i] == spec_fold_hex_char(c));
    assert(spec_fold_hex(spec_digest_token(line))[i] == spec_fold_hex_char(line[i]));
    assert(spec_fold_hex(spec_digest_token(line))[i] == spec_hex_of_bytes(digest)[i]);
}

} // verus!
