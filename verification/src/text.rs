//! Text normalization for the match engine, and naming of the transient
//! storage location used while an image is handed to the external recognizer.

use vstd::prelude::*;

verus! {

/// The lower-cased form of a sequence of characters, as Unicode case
/// mapping defines it; the result depends on the characters alone.
pub uninterp spec fn lower_of(s: Seq<char>) -> Seq<char>;

/// Relies on str::to_lowercase: returns the lower-cased form of `s`,
/// a function of the characters of `s` alone.
#[verifier::external_body]
pub(crate) fn lowercase(s: &str) -> (r: String)
    ensures
        r@ == lower_of(s@),
{
    s.to_lowercase()
}

/// Builds the transient storage name for an acquired image from a
/// per-invocation unique token chosen by the caller.
pub fn transient_image_name(token: &str) -> (r: String)
    ensures
        r@ == "image-"@ + token@,
{
    let mut name = String::from_str("image-");
    name.append(token);
    name
}

/// Distinct tokens give distinct transient names, so concurrent
/// extractions can never collide on the same storage location.
pub proof fn lemma_transient_names_distinct(a: Seq<char>, b: Seq<char>)
    requires
        a != b,
    ensures
        "image-"@ + a != "image-"@ + b,
{
    if "image-"@ + a == "image-"@ + b {
        let p = "image-"@;
        assert((p + a).len() == p.len() + a.len());
        assert((p + b).len() == p.len() + b.len());
        assert(a.len() == b.len());
        assert forall|i: int| 0 <= i < a.len() implies a[i] == b[i] by {
            assert((p + a)[p.len() + i] == a[i]);
            assert((p + b)[p.len() + i] == b[i]);
        }
        assert(a =~= b);
    }
}

} // verus!
