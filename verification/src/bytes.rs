//! Raw bytes read from a child process, and how they become a path.
//!
//! The package-database tool prints a single path followed by trailing
//! whitespace.  The bytes are trimmed exactly as the tool's output is to be
//! read: a trailing byte goes when, taken as a one-byte character, it is
//! Unicode whitespace.

use vstd::prelude::*;

verus! {

/// Whether byte `b`, read as the character with that code point, is Unicode
/// whitespace.  In the one-byte range those are the ASCII whitespace
/// controls, the space, the next-line control and the no-break space.
pub open spec fn is_ws_byte(b: u8) -> bool {
    b == 0x09 || b == 0x0a || b == 0x0b || b == 0x0c || b == 0x0d || b == 0x20 || b == 0x85
        || b == 0xa0
}

/// Executable form of [`is_ws_byte`].
pub fn byte_is_whitespace(b: u8) -> (r: bool)
    ensures
        r == is_ws_byte(b),
{
    b == 0x09 || b == 0x0a || b == 0x0b || b == 0x0c || b == 0x0d || b == 0x20 || b == 0x85
        || b == 0xa0
}

/// The bytes with every trailing whitespace byte removed.
pub open spec fn trim_spec(s: Seq<u8>) -> Seq<u8>
    decreases s.len(),
{
    if s.len() > 0 && is_ws_byte(s.last()) {
        trim_spec(s.drop_last())
    } else {
        s
    }
}

/// Removes every trailing whitespace byte, and nothing else.
pub fn trim_ending_whitespace(bytes: &[u8]) -> (r: &[u8])
    ensures
        r@ == trim_spec(bytes@),
{
    let mut end: usize = bytes.len();
    proof {
        assert(bytes@.subrange(0, end as int) =~= bytes@);
    }
    while end > 0 && byte_is_whitespace(bytes[end - 1])
        invariant
            end <= bytes@.len(),
            trim_spec(bytes@) == trim_spec(bytes@.subrange(0, end as int)),
        decreases end,
    {
        proof {
            let cur = bytes@.subrange(0, end as int);
            assert(cur.last() == bytes@[end - 1]);
            assert(cur.drop_last() =~= bytes@.subrange(0, end - 1));
        }
        end = end - 1;
    }
    proof {
        let cur = bytes@.subrange(0, end as int);
        if end == 0 {
            assert(cur =~= Seq::<u8>::empty());
        }
        assert(trim_spec(cur) == cur);
    }
    vstd::slice::slice_subrange(bytes, 0, end)
}

/// A value with no trailing whitespace is left exactly as it is.
pub proof fn lemma_trim_fixes_trimmed(p: Seq<u8>)
    requires
        p.len() > 0 ==> !is_ws_byte(p.last()),
    ensures
        trim_spec(p) == p,
{
}

/// Trimming removes exactly a whitespace suffix: appending any run of
/// whitespace bytes to a value that does not end in whitespace, and then
/// trimming, gives back the value's bytes unchanged.
pub proof fn lemma_trim_removes_whitespace_suffix(p: Seq<u8>, suffix: Seq<u8>)
    requires
        p.len() > 0 ==> !is_ws_byte(p.last()),
        forall|i: int| 0 <= i < suffix.len() ==> is_ws_byte(#[trigger] suffix[i]),
    ensures
        trim_spec(p + suffix) == p,
    decreases suffix.len(),
{
    if suffix.len() == 0 {
        assert(p + suffix =~= p);
        lemma_trim_fixes_trimmed(p);
    } else {
        let s = p + suffix;
        assert(s.last() == suffix[suffix.len() - 1]);
        assert(s.drop_last() =~= p + suffix.drop_last());
        lemma_trim_removes_whitespace_suffix(p, suffix.drop_last());
    }
}

/// An owned copy of a string, equal to it character for character.
pub fn copy_string(s: &String) -> (r: String)
    ensures
        r@ == s@,
{
    s.as_str().to_owned()
}

/// What `String::from_utf8_lossy` returns for the given bytes.  The result
/// depends on the bytes alone.
pub uninterp spec fn lossy_of(b: Seq<u8>) -> Seq<char>;

/// Relies on `String::from_utf8_lossy`: the result is a function of the
/// bytes alone, and bytes that are valid UTF-8 are decoded exactly, so
/// re-encoding the result gives the input back.
#[verifier::external_body]
pub fn bytes_to_string_lossy(b: &[u8]) -> (r: String)
    ensures
        r@ == lossy_of(b@),
        vstd::utf8::valid_utf8(b@) ==> vstd::utf8::encode_utf8(r@) == b@,
{
    String::from_utf8_lossy(b).into_owned()
}

} // verus!
