use vstd::prelude::*;

verus! {

/// The human-readable text of a span of `secs` seconds, such as `2h 37m`.
pub uninterp spec fn duration_text(secs: u64) -> Seq<char>;

/// Relies on humantime::format_duration: the human-readable text of a whole number of
/// seconds, `0s` for none.
#[verifier::external_body]
fn format_seconds(secs: u64) -> (r: String)
    ensures
        r@ == duration_text(secs),
        secs == 0 ==> r@ == "0s"@,
{
    humantime::format_duration(std::time::Duration::from_secs(secs)).to_string()
}

/// The text of an estimated time (to full, to empty), when the power source gives one.
pub fn estimate_text(secs: Option<u64>) -> (r: Option<String>)
    ensures
        secs is None <==> r is None,
        r matches Some(t) ==> secs matches Some(s) && t@ == duration_text(s),
{
    match secs {
        Some(s) => Some(format_seconds(s)),
        None => None,
    }
}

} // verus!
