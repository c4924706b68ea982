//! Fixed-capacity texts shown on the gauges: labels of up to three bytes and
//! lines of up to six bytes, held in `heapless::String`.
use vstd::prelude::*;
use vstd::utf8::encode_utf8;

verus! {

#[verifier::external_type_specification]
#[verifier::external_body]
pub struct ExHeaplessString<const N: usize>(heapless::String<N>);

/// The characters that a three-byte label holds.
pub uninterp spec fn label_chars(s: heapless::String<3>) -> Seq<char>;

/// The characters that a six-byte line holds.
pub uninterp spec fn line_chars(s: heapless::String<6>) -> Seq<char>;

/// Makes a label from `s` with `heapless::String::<3>::from_str`.
///
/// Trusted: in the heapless source, `from_str` starts from an empty string and
/// pushes the bytes of `s`, which fails, giving `Err`, exactly when they are more
/// than the capacity of three; otherwise the label holds `s`.
#[verifier::external_body]
pub(crate) fn label_from_str(s: &str) -> (r: Option<heapless::String<3>>)
    ensures
        r is Some <==> encode_utf8(s@).len() <= 3,
        r matches Some(h) ==> label_chars(h) == s@,
{
    <heapless::String<3> as core::str::FromStr>::from_str(s).ok()
}

/// Makes a line from `s` with `heapless::String::<6>::from_str`.
///
/// Trusted: as for `label_from_str`, with a capacity of six bytes.
#[verifier::external_body]
pub(crate) fn line_from_str(s: &str) -> (r: Option<heapless::String<6>>)
    ensures
        r is Some <==> encode_utf8(s@).len() <= 6,
        r matches Some(h) ==> line_chars(h) == s@,
{
    <heapless::String<6> as core::str::FromStr>::from_str(s).ok()
}

/// Copies a label into a `String`, through `heapless::String::as_str`.
///
/// Trusted: `as_str` gives the characters that the label holds.
#[verifier::external_body]
pub(crate) fn label_to_string(h: &heapless::String<3>) -> (s: String)
    ensures
        s@ == label_chars(*h),
{
    String::from(h.as_str())
}

/// Copies a line into a `String`, through `heapless::String::as_str`.
///
/// Trusted: `as_str` gives the characters that the line holds.
#[verifier::external_body]
pub(crate) fn line_to_string(h: &heapless::String<6>) -> (s: String)
    ensures
        s@ == line_chars(*h),
{
    String::from(h.as_str())
}

} // verus!
