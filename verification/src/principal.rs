//! Principals given as text by outside services, read through candid.
use vstd::prelude::*;

verus! {

/// Whether `text` is a principal written the way candid accepts it: the
/// base32 groups of a checksum and at most 29 bytes, which, lowercased,
/// are exactly the principal's printed form.
pub uninterp spec fn is_principal_text(text: Seq<char>) -> bool;

/// `s` with the ASCII capitals `A` to `Z` made small, as
/// `str::to_ascii_lowercase` does.
pub open spec fn ascii_lower(s: Seq<char>) -> Seq<char> {
    s.map_values(|c: char| if 'A' <= c && c <= 'Z' { ((c as u32) + 32) as char } else { c })
}

/// The printed form of the anonymous principal.
pub open spec fn anonymous_text() -> Seq<char> {
    "2vxsx-fae"@
}

/// Calls `candid::Principal::from_text` and prints the principal it reads
/// with `Principal::to_text`. `from_text` accepts the text exactly when
/// the text, lowercased, equals the printed form of the principal it
/// decodes, so the printed text is the lowercased input. Which texts
/// decode (base32, checksum, length) is left to the name
/// `is_principal_text`.
#[verifier::external_body]
pub(crate) fn parse_principal_text(text: &str) -> (r: Option<String>)
    ensures
        r is Some <==> is_principal_text(text@),
        r matches Some(t) ==> t@ == ascii_lower(text@),
{
    candid::Principal::from_text(text).ok().map(|p| p.to_text())
}

/// The principal named by `text`, printed, or the anonymous principal
/// when `text` names none.
pub fn principal_text_or_anonymous(text: &str) -> (r: String)
    ensures
        r@ == (if is_principal_text(text@) {
            ascii_lower(text@)
        } else {
            anonymous_text()
        }),
{
    match parse_principal_text(text) {
        Some(t) => t,
        None => {
            proof {
                reveal_strlit("2vxsx-fae");
            }
            String::from_str("2vxsx-fae")
        },
    }
}

} // verus!
