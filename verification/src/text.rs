//! Text helpers shared by the engines: character-level string equality,
//! the normal form applied to words and guesses, and the small parsers
//! behind the interactive prompts.

use vstd::prelude::*;
use vstd::string::StrSliceExecFns;

verus! {

/// What `str::to_lowercase` returns for a given character sequence.
pub uninterp spec fn lower_of(s: Seq<char>) -> Seq<char>;

/// What `unidecode::unidecode` returns for a given character sequence.
pub uninterp spec fn ascii_of(s: Seq<char>) -> Seq<char>;

/// The normal form words and guesses are compared in: lower-cased, then
/// transliterated to plain ASCII.
pub open spec fn normalized_of(s: Seq<char>) -> Seq<char> {
    ascii_of(lower_of(s))
}

/// Relies on `str::to_lowercase`: the result depends on the characters alone.
#[verifier::external_body]
fn lowercase(s: &str) -> (r: String)
    ensures
        r@ == lower_of(s@),
{
    s.to_lowercase()
}

/// Relies on `unidecode::unidecode`: an ASCII transliteration of the input
/// that depends on the characters alone.
#[verifier::external_body]
fn strip_accents(s: &str) -> (r: String)
    ensures
        r@ == ascii_of(s@),
{
    unidecode::unidecode(s)
}

/// Normalizes a word or guess: lower-cases it and strips diacritics to
/// their base form, so that later comparisons are locale-insensitive.
pub fn remove_accents(input: &str) -> (r: String)
    ensures
        r@ == normalized_of(input@),
{
    let lowered: String = lowercase(input);
    strip_accents(lowered.as_str())
}

/// Character-wise string equality.
pub fn str_eq(a: &str, b: &str) -> (r: bool)
    ensures
        r == (a@ == b@),
{
    let alen: usize = a.unicode_len();
    let blen: usize = b.unicode_len();
    if alen != blen {
        return false;
    }
    let mut i: usize = 0;
    while i < alen
        invariant
            i <= alen,
            alen == a@.len(),
            blen == b@.len(),
            alen == blen,
            forall|j: int| 0 <= j < i ==> a@[j] == b@[j],
        decreases alen - i,
    {
        if a.get_char(i) != b.get_char(i) {
            return false;
        }
        i = i + 1;
    }
    proof {
        assert(a@ =~= b@);
    }
    true
}

/// The characters of a string, in order, as a vector.
pub fn string_to_chars(s: &str) -> (r: Vec<char>)
    ensures
        r@ == s@,
{
    let n: usize = s.unicode_len();
    let mut r: Vec<char> = Vec::new();
    let mut i: usize = 0;
    while i < n
        invariant
            i <= n,
            n == s@.len(),
            r@ =~= s@.subrange(0, i as int),
        decreases n - i,
    {
        r.push(s.get_char(i));
        i = i + 1;
    }
    proof {
        assert(r@ =~= s@);
    }
    r
}

/// A decimal digit.
pub open spec fn is_digit(c: char) -> bool {
    '0' <= c && c <= '9'
}

/// The numeric value of a decimal digit.
pub open spec fn digit_val(c: char) -> int {
    (c as u32) as int - ('0' as u32) as int
}

/// Every character of the sequence is a decimal digit.
pub open spec fn all_digits(s: Seq<char>) -> bool {
    forall|i: int| 0 <= i < s.len() ==> is_digit(s[i])
}

/// The number a sequence of decimal digits denotes.
pub open spec fn digits_value(s: Seq<char>) -> int
    decreases s.len(),
{
    if s.len() == 0 {
        0
    } else {
        digits_value(s.drop_last()) * 10 + digit_val(s.last())
    }
}

proof fn lemma_digits_value_nonneg(s: Seq<char>)
    requires
        all_digits(s),
    ensures
        digits_value(s) >= 0,
    decreases s.len(),
{
    if s.len() > 0 {
        assert(all_digits(s.drop_last()));
        lemma_digits_value_nonneg(s.drop_last());
    }
}

/// A digit string's value only grows as more digits are appended.
proof fn lemma_digits_value_prefix(s: Seq<char>, i: int)
    requires
        all_digits(s),
        0 <= i <= s.len(),
    ensures
        digits_value(s.subrange(0, i)) <= digits_value(s),
    decreases s.len() - i,
{
    if i < s.len() {
        let t = s.subrange(0, i + 1);
        assert(t.drop_last() =~= s.subrange(0, i));
        assert(all_digits(s.subrange(0, i)));
        lemma_digits_value_nonneg(s.subrange(0, i));
        assert(digits_value(t) == digits_value(s.subrange(0, i)) * 10 + digit_val(s[i]));
        lemma_digits_value_prefix(s, i + 1);
    } else {
        assert(s.subrange(0, i) =~= s);
    }
}

/// Reads a non-empty, digits-only decimal numeral whose value fits in `u32`;
/// any other input is a recoverable error answered with `None`.
pub fn parse_u32(s: &str) -> (r: Option<u32>)
    ensures
        r is Some <==> (s@.len() > 0 && all_digits(s@) && digits_value(s@) <= u32::MAX),
        r is Some ==> r == Some(digits_value(s@) as u32),
{
    let n: usize = s.unicode_len();
    if n == 0 {
        return None;
    }
    let mut acc: u32 = 0;
    let mut i: usize = 0;
    while i < n
        invariant
            0 < n == s@.len(),
            i <= n,
            all_digits(s@.subrange(0, i as int)),
            acc == digits_value(s@.subrange(0, i as int)),
        decreases n - i,
    {
        let c: char = s.get_char(i);
        if !('0' <= c && c <= '9') {
            proof {
                assert(s@[i as int] == c);
                assert(!all_digits(s@));
            }
            return None;
        }
        let d: u32 = (c as u32) - ('0' as u32);
        proof {
            assert(s@.subrange(0, (i + 1) as int).drop_last() =~= s@.subrange(0, i as int));
            assert(s@.subrange(0, (i + 1) as int).last() == c);
        }
        if acc > (u32::MAX - d) / 10 {
            proof {
                let t = s@.subrange(0, (i + 1) as int);
                assert(digits_value(t) == acc * 10 + d);
                if all_digits(s@) && digits_value(s@) <= u32::MAX {
                    assert(t =~= s@.subrange(0, (i + 1) as int));
                    lemma_digits_value_prefix(s@, (i + 1) as int);
                    assert(false);
                }
            }
            return None;
        }
        acc = acc * 10 + d;
        i = i + 1;
        proof {
            assert(all_digits(s@.subrange(0, i as int)));
        }
    }
    proof {
        assert(s@.subrange(0, n as int) =~= s@);
    }
    Some(acc)
}

/// Reads a replay answer: `y` means yes and `n` means no, case-insensitively;
/// anything else is a recoverable error answered with `None`.
pub fn parse_yes_no(input: &str) -> (r: Option<bool>)
    ensures
        r == Some(true) <==> lower_of(input@) == "y"@,
        r == Some(false) <==> lower_of(input@) == "n"@,
{
    proof {
        reveal_strlit("y");
        reveal_strlit("n");
        assert("y"@[0] == 'y' && "n"@[0] == 'n');
        assert("y"@ != "n"@);
    }
    let lowered: String = lowercase(input);
    if str_eq(lowered.as_str(), "y") {
        Some(true)
    } else if str_eq(lowered.as_str(), "n") {
        Some(false)
    } else {
        None
    }
}

} // verus!
