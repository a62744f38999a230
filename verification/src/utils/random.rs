//! Random text for salts and signing secrets.
use rand::Rng;
use vstd::prelude::*;

verus! {

/// An ASCII letter or digit.
pub open spec fn is_alphanumeric(c: char) -> bool {
    ||| 'a' <= c <= 'z'
    ||| 'A' <= c <= 'Z'
    ||| '0' <= c <= '9'
}

/// Every character of `s` is an ASCII letter or digit.
pub open spec fn all_alphanumeric(s: Seq<char>) -> bool {
    forall|i: int| 0 <= i < s.len() ==> is_alphanumeric(#[trigger] s[i])
}

/// `String::push` appends one character.
pub assume_specification[ String::push ](s: &mut String, c: char)
    ensures
        final(s)@ == old(s)@.push(c),
;

/// Draws one byte from `rand`'s `Alphanumeric` distribution with the
/// thread-local generator. The distribution is documented to range over
/// a-z, A-Z and 0-9; which of them comes is left open.
#[verifier::external_body]
fn sample_alphanumeric() -> (c: char)
    ensures
        is_alphanumeric(c),
{
    rand::thread_rng().sample(rand::distributions::Alphanumeric) as char
}

/// A string of `n` random ASCII letters and digits.
pub fn random_string(n: usize) -> (r: String)
    ensures
        r@.len() == n,
        all_alphanumeric(r@),
{
    let mut out = String::new();
    let mut i: usize = 0;
    while i < n
        invariant
            i <= n,
            out@.len() == i,
            all_alphanumeric(out@),
        decreases n - i,
    {
        let c = sample_alphanumeric();
        out.push(c);
        i += 1;
    }
    out
}

/// Text made of letters and digits is ASCII, so it takes one byte per
/// character.
pub proof fn lemma_alphanumeric_is_ascii(s: Seq<char>)
    requires
        all_alphanumeric(s),
    ensures
        vstd::utf8::is_ascii_chars(s),
        vstd::utf8::encode_utf8(s).len() == s.len(),
{
    assert forall|i: int| 0 <= i < s.len() implies '\0' <= #[trigger] s[i] <= '\u{7f}' by {
        assert(is_alphanumeric(s[i]));
    }
    vstd::utf8::is_ascii_chars_encode_utf8(s);
}

} // verus!
