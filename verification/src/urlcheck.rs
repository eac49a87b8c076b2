//! Deciding whether a text is a web address.

use vstd::prelude::*;

use crate::text::{has_prefix_ignore_case, starts_with_ignore_ascii_case, trim_spec, trim_str};

verus! {

/// Whether a text, once trimmed, starts with an http or https scheme,
/// without regard to ASCII case.
pub open spec fn is_url_spec(s: Seq<char>) -> bool {
    has_prefix_ignore_case(trim_spec(s), "http://"@) || has_prefix_ignore_case(
        trim_spec(s),
        "https://"@,
    )
}

/// Whether a text names a web address: trimmed, it starts with `http://` or
/// `https://` in any ASCII case.
pub fn is_url(source: &str) -> (r: bool)
    ensures
        r == is_url_spec(source@),
{
    let t = trim_str(source);
    starts_with_ignore_ascii_case(t, "http://") || starts_with_ignore_ascii_case(t, "https://")
}

} // verus!
