//! Sequences of characters as the engine exchanges them: concatenation of
//! texts, and C strings, which cannot hold a NUL character.

use vstd::prelude::*;

verus! {

/// The concatenation of `parts`, in order.
pub open spec fn joined<A>(parts: Seq<Seq<A>>) -> Seq<A>
    decreases parts.len(),
{
    if parts.len() == 0 {
        Seq::empty()
    } else {
        joined(parts.drop_last()) + parts.last()
    }
}

/// Appending one more part to a list of parts appends it to their
/// concatenation.
pub proof fn lemma_joined_push<A>(parts: Seq<Seq<A>>, part: Seq<A>)
    ensures
        joined(parts.push(part)) == joined(parts) + part,
{
    assert(parts.push(part).drop_last() =~= parts);
}

/// The text holds no NUL character, so the engine can take or give it as a
/// C string.
pub open spec fn nul_free(text: Seq<char>) -> bool {
    !text.contains('\0')
}

/// Two texts without NUL characters make a text without one.
pub proof fn lemma_nul_free_concat(a: Seq<char>, b: Seq<char>)
    requires
        nul_free(a),
        nul_free(b),
    ensures
        nul_free(a + b),
{
    if (a + b).contains('\0') {
        let i = choose|i: int| 0 <= i < (a + b).len() && (a + b)[i] == '\0';
        if i < a.len() {
            assert(a[i] == '\0');
        } else {
            assert(b[i - a.len()] == '\0');
        }
    }
}

/// The bytes hold no zero byte, as the bytes of a C string before its
/// terminator do.
pub open spec fn nul_free_bytes(bytes: Seq<u8>) -> bool {
    !bytes.contains(0u8)
}

/// The text that lossy UTF-8 decoding makes of `bytes`: every maximal invalid
/// sequence becomes U+FFFD REPLACEMENT CHARACTER.
pub uninterp spec fn lossy_utf8(bytes: Seq<u8>) -> Seq<char>;

/// Decodes `bytes` as UTF-8, replacing invalid sequences, through
/// `String::from_utf8_lossy`. Claimed of it: the result is `lossy_utf8` of the
/// bytes; valid UTF-8 decodes to exactly its characters; and bytes without a
/// zero byte give text without a NUL character, since U+0000 is encoded only as
/// the single byte 0 and a replacement is U+FFFD.
#[verifier::external_body]
pub(crate) fn decode_lossy(bytes: &[u8]) -> (r: String)
    ensures
        r@ == lossy_utf8(bytes@),
        vstd::utf8::valid_utf8(bytes@) ==> r@ == vstd::utf8::decode_utf8(bytes@),
        nul_free_bytes(bytes@) ==> nul_free(r@),
{
    String::from_utf8_lossy(bytes).into_owned()
}

} // verus!
