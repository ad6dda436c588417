//! URL-encoded form bodies.
use vstd::prelude::*;

verus! {

#[verifier::external_type_specification]
#[verifier::external_body]
pub struct ExFormError(serde_urlencoded::ser::Error);

/// The `application/x-www-form-urlencoded` text of a list of name and value pairs.
pub uninterp spec fn form_urlencoded(pairs: Seq<(Seq<char>, Seq<char>)>) -> Seq<char>;

/// The texts of a list of borrowed name and value pairs.
pub open spec fn pair_texts(pairs: Seq<(&str, &str)>) -> Seq<(Seq<char>, Seq<char>)> {
    pairs.map_values(|p: (&str, &str)| (p.0@, p.1@))
}

/// Relies on `serde_urlencoded::to_string`, which writes the pairs in order
/// as `name=value`, joined by `&`, each part percent-encoded; on pairs of
/// strings it does not fail.
#[verifier::external_body]
pub(crate) fn encode_form(pairs: &Vec<(&str, &str)>) -> (r: Result<
    String,
    serde_urlencoded::ser::Error,
>)
    ensures
        r is Ok,
        r is Ok ==> r->Ok_0@ == form_urlencoded(pair_texts(pairs@)),
{
    serde_urlencoded::to_string(pairs)
}

} // verus!
