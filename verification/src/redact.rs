//! Redaction of secrets before they are shown or logged.

use crate::text;
use vstd::prelude::*;
use vstd::string::*;

verus! {

/// A type that can be shown without its secrets.
pub trait Redactable {
    /// A form that is safe to show.
    fn redacted(&self) -> String;
}

/// The first and the last four characters with dots between them; a short text is
/// hidden whole.
pub open spec fn redacted_key(value: Seq<char>) -> Seq<char> {
    if value.len() <= 8 {
        "***"@
    } else {
        value.take(4) + "..."@ + value.skip(value.len() - 4)
    }
}

/// Hides the middle of an API key.
pub fn redact_api_key(value: &str) -> (r: String)
    ensures
        r@ == redacted_key(value@),
{
    let n: usize = value.unicode_len();
    if n <= 8 {
        return text::owned("***");
    }
    let prefix = value.substring_char(0, 4);
    let suffix = value.substring_char(n - 4, n);
    assert(prefix@ =~= value@.take(4));
    assert(suffix@ =~= value@.skip(value@.len() - 4));
    text::cat3(prefix, "...", suffix)
}

/// Says whether an environment variable is set, and nothing of its value.
pub fn redact_env_var(value: &str) -> (r: String)
    ensures
        r@ == (if value@.len() == 0 {
            "<empty>"@
        } else {
            "<set>"@
        }),
{
    if value.is_empty() {
        text::owned("<empty>")
    } else {
        text::owned("<set>")
    }
}

/// A redacted key depends on its first and last four characters only: keys that
/// agree there cannot be told apart.
pub proof fn law_middle_is_hidden(a: Seq<char>, b: Seq<char>)
    requires
        a.len() > 8,
        b.len() > 8,
        a.take(4) == b.take(4),
        a.skip(a.len() - 4) == b.skip(b.len() - 4),
    ensures
        redacted_key(a) == redacted_key(b),
        redacted_key(a).len() == 11,
{
    reveal_strlit("...");
}

/// A redacted key shows the first and the last four characters where more are hidden than
/// shown at an end, and nothing at all of a short one.
pub proof fn law_ends_are_shown(value: Seq<char>)
    ensures
        value.len() <= 8 ==> redacted_key(value) == "***"@,
        value.len() > 8 ==> redacted_key(value).len() == 11 && redacted_key(value).take(4)
            == value.take(4) && redacted_key(value).skip(7) == value.skip(value.len() - 4)
            && redacted_key(value).subrange(4, 7) == "..."@,
{
    reveal_strlit("...");
    if value.len() > 8 {
        let r = redacted_key(value);
        assert(r.take(4) =~= value.take(4));
        assert(r.skip(7) =~= value.skip(value.len() - 4));
        assert(r.subrange(4, 7) =~= "..."@);
    }
}

} // verus!
