//! The metadata link of a receipt token.
//!
//! The link names the receipt token and the pool's overlay text and, where
//! the original asset has a metadata link of its own, carries that link
//! along as a parameter.

use vstd::prelude::*;
use vstd::string::StrSliceExecFns;
use vstd::string::StringExecFns;

verus! {

/// The padding character of stored metadata texts.
pub open spec fn nul() -> char {
    '\0'
}

/// `s` without the padding at its start.
pub open spec fn trim_start(s: Seq<char>) -> Seq<char>
    decreases s.len(),
{
    if s.len() > 0 && s.first() == nul() {
        trim_start(s.drop_first())
    } else {
        s
    }
}

/// `s` without the padding at its end.
pub open spec fn trim_end(s: Seq<char>) -> Seq<char>
    decreases s.len(),
{
    if s.len() > 0 && s.last() == nul() {
        trim_end(s.drop_last())
    } else {
        s
    }
}

/// `s` without the padding at either end.
pub open spec fn trim_nulls(s: Seq<char>) -> Seq<char> {
    trim_end(trim_start(s))
}

/// The parameter that carries the original asset's link: nothing where the
/// asset has no metadata or its link is empty once the padding is off.
pub open spec fn uri_suffix(original: Option<Seq<char>>) -> Seq<char> {
    match original {
        Some(uri) => if trim_nulls(uri).len() > 0 {
            "&uri="@ + trim_nulls(uri)
        } else {
            Seq::empty()
        },
        None => Seq::empty(),
    }
}

/// The metadata link of the receipt token whose address reads `mint`, for a
/// pool with the given overlay text.
pub open spec fn receipt_uri(mint: Seq<char>, overlay_text: Seq<char>, original: Option<Seq<char>>) -> Seq<
    char,
> {
    "https://api.cardinal.so/metadata/"@ + mint + "?text="@ + overlay_text + uri_suffix(original)
}

/// Without metadata, or with an empty link, the receipt's link ends with the
/// overlay text; otherwise it ends with `&uri=` and the original link
/// without its padding.
pub proof fn lemma_receipt_uri_suffix(
    mint: Seq<char>,
    overlay_text: Seq<char>,
    original: Option<Seq<char>>,
)
    ensures
        original is None || trim_nulls(original->0).len() == 0 ==> receipt_uri(
            mint,
            overlay_text,
            original,
        ) == "https://api.cardinal.so/metadata/"@ + mint + "?text="@ + overlay_text,
        original is Some && trim_nulls(original->0).len() > 0 ==> receipt_uri(
            mint,
            overlay_text,
            original,
        ) == "https://api.cardinal.so/metadata/"@ + mint + "?text="@ + overlay_text + "&uri="@
            + trim_nulls(original->0),
{
    let head = "https://api.cardinal.so/metadata/"@ + mint + "?text="@ + overlay_text;
    if original is None || trim_nulls(original->0).len() == 0 {
        assert(head + Seq::<char>::empty() =~= head);
    } else {
        assert(head + ("&uri="@ + trim_nulls(original->0)) =~= head + "&uri="@ + trim_nulls(
            original->0,
        ));
    }
}

/// `s` without the padding at either end.
pub fn trim(s: &str) -> (t: String)
    ensures
        t@ == trim_nulls(s@),
{
    let n: usize = s.unicode_len();
    let mut i: usize = 0;
    assert(s@.subrange(0, n as int) =~= s@);
    while i < n && s.get_char(i) == '\0'
        invariant
            n == s@.len(),
            i <= n,
            trim_start(s@) == trim_start(s@.subrange(i as int, n as int)),
        decreases n - i,
    {
        assert(s@.subrange(i as int, n as int).drop_first() =~= s@.subrange(
            i as int + 1,
            n as int,
        ));
        i += 1;
    }
    assert(trim_start(s@) == s@.subrange(i as int, n as int));
    let mut j: usize = n;
    while j > i && s.get_char(j - 1) == '\0'
        invariant
            n == s@.len(),
            i <= j <= n,
            trim_nulls(s@) == trim_end(s@.subrange(i as int, j as int)),
        decreases j - i,
    {
        assert(s@.subrange(i as int, j as int).drop_last() =~= s@.subrange(
            i as int,
            j as int - 1,
        ));
        j -= 1;
    }
    assert(trim_nulls(s@) == s@.subrange(i as int, j as int));
    String::from_str(s.substring_char(i, j))
}

/// Composes the metadata link of a receipt token. `original` is the link of
/// the original asset's metadata as it is stored, if the asset has metadata.
pub fn compose(mint: &str, overlay_text: &str, original: Option<&str>) -> (uri: String)
    ensures
        uri@ == receipt_uri(mint@, overlay_text@, match original {
            Some(o) => Some(o@),
            None => None,
        }),
{
    let mut uri = String::from_str("https://api.cardinal.so/metadata/");
    uri.append(mint);
    uri.append("?text=");
    uri.append(overlay_text);
    let ghost head = uri@;
    match original {
        Some(stored) => {
            let link = trim(stored);
            if link.as_str().unicode_len() > 0 {
                uri.append("&uri=");
                uri.append(link.as_str());
                assert(uri@ =~= head + ("&uri="@ + trim_nulls(stored@)));
            } else {
                assert(uri@ =~= head + Seq::<char>::empty());
            }
        },
        None => {
            assert(uri@ =~= head + Seq::<char>::empty());
        },
    }
    uri
}

} // verus!
