//! The monitoring endpoint and the address that one ping goes to.

use vstd::prelude::*;
use vstd::string::*;

verus! {

/// Address of the monitoring service that receives the pings.
pub const BASE_HEALTH_URL: &'static str =
    "https://hc-ping.com/4003a09f-f033-4f38-82ff-a6a0f010fa50";

/// Seconds that the loop sleeps between two pings: ten minutes.
pub const UPDATE_FREQ: u64 = 600;

/// What is appended to the base address to signal a failure.
pub const FAIL_SUFFIX: &'static str = "/fail";

/// The address for one ping: the base itself for a healthy signal, the base
/// followed by the failure suffix otherwise.
pub open spec fn ping_target(base: Seq<char>, healthy: bool) -> Seq<char> {
    if healthy {
        base
    } else {
        base + FAIL_SUFFIX@
    }
}

/// Whether the last character of `s` is a slash.
pub open spec fn ends_in_slash(s: Seq<char>) -> bool {
    s.len() > 0 && s.last() == '/'
}

/// Whether `s` holds two slashes in a row at positions `i` and `i + 1`.
pub open spec fn double_slash_at(s: Seq<char>, i: int) -> bool {
    0 <= i && i + 1 < s.len() && s[i] == '/' && s[i + 1] == '/'
}

/// Builds the address that a ping with the given status is sent to: `base`
/// unchanged when `status` is true (healthy), `base` followed by `/fail` when
/// it is false.
pub fn ping_url(base: &str, status: bool) -> (url: String)
    ensures
        status ==> url@ == base@,
        !status ==> url@ == base@ + FAIL_SUFFIX@,
        url@ == ping_target(base@, status),
{
    let url = String::from_str(base);
    if status {
        url
    } else {
        url.concat(FAIL_SUFFIX)
    }
}

/// The failure suffix is one slash and the word `fail`.
pub proof fn lemma_fail_suffix_chars()
    ensures
        FAIL_SUFFIX@ == seq!['/', 'f', 'a', 'i', 'l'],
{
    reveal_strlit("/fail");
    assert(FAIL_SUFFIX@ =~= seq!['/', 'f', 'a', 'i', 'l']);
}

/// A failure address is its base, then exactly `/fail`, and nothing else; a
/// healthy address is its base and nothing else.
pub proof fn lemma_ping_target_shape(base: Seq<char>)
    ensures
        ping_target(base, true) == base,
        ping_target(base, false).len() == base.len() + 5,
        ping_target(base, false).take(base.len() as int) == base,
        ping_target(base, false).skip(base.len() as int) == seq!['/', 'f', 'a', 'i', 'l'],
{
    lemma_fail_suffix_chars();
    let url = ping_target(base, false);
    assert(url.take(base.len() as int) =~= base);
    assert(url.skip(base.len() as int) =~= FAIL_SUFFIX@);
}

/// Appending the failure suffix to a base that does not end in a slash makes
/// no double slash: any two slashes in a row in the failure address already
/// stand in the base.
pub proof fn lemma_fail_url_adds_no_double_slash(base: Seq<char>)
    requires
        !ends_in_slash(base),
    ensures
        forall|i: int| #[trigger]
            double_slash_at(ping_target(base, false), i) ==> double_slash_at(base, i),
{
    lemma_fail_suffix_chars();
    let url = ping_target(base, false);
    assert forall|i: int| #[trigger] double_slash_at(url, i) implies double_slash_at(base, i) by {
        let n: int = base.len() as int;
        if i + 1 >= n {
            if i + 1 == n {
                assert(url[i + 1] == FAIL_SUFFIX@[0]);
                assert(url[i] == base.last());
            } else {
                assert(url[i + 1] == FAIL_SUFFIX@[i + 1 - n]);
            }
        }
    }
}

/// The configured base address does not end in a slash, and the only two
/// slashes in a row in its failure address are those after `https:`.
pub proof fn lemma_configured_fail_url_joins_cleanly()
    ensures
        !ends_in_slash(BASE_HEALTH_URL@),
        forall|i: int| #[trigger]
            double_slash_at(ping_target(BASE_HEALTH_URL@, false), i) ==> i == 6,
{
    reveal_strlit("https://hc-ping.com/4003a09f-f033-4f38-82ff-a6a0f010fa50");
    lemma_fail_url_adds_no_double_slash(BASE_HEALTH_URL@);
    let base = BASE_HEALTH_URL@;
    assert forall|i: int| #[trigger] double_slash_at(base, i) implies i == 6 by {
        if i != 6 && 0 <= i && i + 1 < 56 {
            assert(base[i] != '/' || base[i + 1] != '/');
        }
    }
}

} // verus!
