//! The navigation gate: whether the webview may go to a URL.

use vstd::prelude::*;
use crate::address::{ParsedUrl, UrlView};
use crate::hosts::{
    is_internal_host, is_internal_navigation_host, normalize_host, normalized, sorted_listing,
    HostSet,
};
use crate::resolver::is_web_scheme;
use crate::text::{concat2, concat3, join_strings, joined, str_equal};

verus! {

/// The schemes by which the host framework addresses its own pages and
/// assets. A URL with one of them is always allowed.
pub open spec fn is_internal_scheme(scheme: Seq<char>) -> bool {
    scheme == "internal-app"@ || scheme == "internal-asset"@ || scheme == "about"@ || scheme
        == "data"@ || scheme == "blob"@
}

/// The navigation policy, by scheme: internal schemes are allowed; http and
/// https are allowed where the URL has a host that, in normal form, is
/// internal or on the allow-list; every other scheme is denied.
pub open spec fn navigation_allowed(url: UrlView, allowed_hosts: Set<Seq<char>>) -> bool {
    if is_internal_scheme(url.scheme) {
        true
    } else if is_web_scheme(url.scheme) {
        url.host is Some && (is_internal_host(normalized(url.host->0)) || allowed_hosts.contains(
            normalized(url.host->0),
        ))
    } else {
        false
    }
}

/// What the log says of a navigation that was denied: the time, the URL and
/// the allow-list in ascending order.
pub open spec fn blocked_entry(
    timestamp: Seq<char>,
    url: Seq<char>,
    allowed_hosts: Set<Seq<char>>,
) -> Seq<char> {
    "blocked_navigation timestamp="@ + timestamp + " url="@ + url + " allowed_hosts="@ + joined(
        sorted_listing(allowed_hosts),
        ","@,
    )
}

/// Whether the webview may navigate to `url`, given the allow-list.
pub fn is_allowed_navigation(url: &ParsedUrl, allowed_hosts: &HostSet) -> (allowed: bool)
    ensures
        allowed == navigation_allowed(url@, allowed_hosts@),
{
    let scheme = url.scheme.as_str();
    if str_equal(scheme, "internal-app") || str_equal(scheme, "internal-asset") || str_equal(
        scheme,
        "about",
    ) || str_equal(scheme, "data") || str_equal(scheme, "blob") {
        return true;
    }
    if !str_equal(scheme, "http") && !str_equal(scheme, "https") {
        return false;
    }
    match &url.host {
        Some(host) => {
            let host = normalize_host(host.as_str());
            is_internal_navigation_host(host.as_str()) || allowed_hosts.contains(host.as_str())
        },
        None => false,
    }
}

/// The log entry for a navigation to `url` that was denied at `timestamp`.
pub fn blocked_navigation_entry(timestamp: &str, url: &ParsedUrl, allowed_hosts: &HostSet) -> (out:
    String)
    ensures
        out@ == blocked_entry(timestamp@, url@.text, allowed_hosts@),
{
    let head = concat3("blocked_navigation timestamp=", timestamp, " url=");
    let middle = concat3(head.as_str(), url.text.as_str(), " allowed_hosts=");
    let listing = join_strings(&allowed_hosts.to_vec(), ",");
    concat2(middle.as_str(), listing.as_str())
}

/// No scheme is both internal and a web scheme.
pub proof fn lemma_schemes_are_disjoint(scheme: Seq<char>)
    ensures
        !(is_internal_scheme(scheme) && is_web_scheme(scheme)),
{
    reveal_strlit("http");
    reveal_strlit("https");
    reveal_strlit("internal-app");
    reveal_strlit("internal-asset");
    reveal_strlit("about");
    reveal_strlit("data");
    reveal_strlit("blob");
    if is_web_scheme(scheme) {
        assert(scheme[0] == 'h');
    }
}

/// A URL with an internal scheme is allowed whatever the allow-list holds,
/// and be it empty.
pub proof fn lemma_internal_scheme_is_always_allowed(url: UrlView, allowed_hosts: Set<Seq<char>>)
    requires
        is_internal_scheme(url.scheme),
    ensures
        navigation_allowed(url, allowed_hosts),
        navigation_allowed(url, Set::<Seq<char>>::empty()),
{
}

/// A URL whose scheme is neither internal nor http or https is denied
/// whatever the allow-list holds.
pub proof fn lemma_other_scheme_is_always_denied(url: UrlView, allowed_hosts: Set<Seq<char>>)
    requires
        !is_internal_scheme(url.scheme),
        !is_web_scheme(url.scheme),
    ensures
        !navigation_allowed(url, allowed_hosts),
{
}

/// An http or https URL on an internal host is allowed whatever the
/// allow-list holds.
pub proof fn lemma_internal_host_bypasses_allow_list(url: UrlView, allowed_hosts: Set<Seq<char>>)
    requires
        is_web_scheme(url.scheme),
        url.host is Some,
        is_internal_host(normalized(url.host->0)),
    ensures
        navigation_allowed(url, allowed_hosts),
{
}

/// An http or https URL on a host that is not internal is allowed if and
/// only if the allow-list holds the host in normal form.
pub proof fn lemma_web_host_is_allowed_iff_listed(url: UrlView, allowed_hosts: Set<Seq<char>>)
    requires
        is_web_scheme(url.scheme),
        url.host is Some,
        !is_internal_host(normalized(url.host->0)),
    ensures
        navigation_allowed(url, allowed_hosts) <==> allowed_hosts.contains(
            normalized(url.host->0),
        ),
{
    lemma_schemes_are_disjoint(url.scheme);
}

} // verus!
