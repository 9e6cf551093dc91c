//! The address of the server.
use crate::api::ConnectionSettings;
use vstd::prelude::*;
use vstd::string::*;

verus! {

#[verifier::external_type_specification]
#[verifier::external_body]
pub struct ExUrl(url::Url);

/// Whether `text` is a URL by the rules of `url::Url::parse`.
pub uninterp spec fn is_url(text: Seq<char>) -> bool;

/// `url::Url::parse`: the URL that `text` writes, or nothing where it writes
/// none. Whether it does is a matter of the text alone, and is given the name
/// [`is_url`].
#[verifier::external_body]
fn parse_url(text: &str) -> (url: Option<url::Url>)
    ensures
        url is Some <==> is_url(text@),
{
    url::Url::parse(text).ok()
}

/// The text of the address that `settings` name: the endpoint of the server,
/// with the path to listen on after it.
pub open spec fn address_text(settings: ConnectionSettings) -> Seq<char> {
    settings.server_endpoint@ + settings.listen_path@
}

/// The address that `settings` name, where it is a URL.
pub fn address_of(settings: &ConnectionSettings) -> (url: Option<url::Url>)
    ensures
        url is Some <==> is_url(address_text(*settings)),
{
    let mut path = settings.server_endpoint.clone();
    path.append(settings.listen_path.as_str());
    parse_url(path.as_str())
}

/// Whether the text `s` begins with `prefix`.
pub open spec fn begins_with(s: Seq<char>, prefix: Seq<char>) -> bool {
    prefix.len() <= s.len() && s.take(prefix.len() as int) == prefix
}

/// Whether `text` begins with `prefix`.
pub fn starts_with(text: &str, prefix: &str) -> (b: bool)
    ensures
        b == begins_with(text@, prefix@),
{
    let n = prefix.unicode_len();
    if text.unicode_len() < n {
        return false;
    }
    let mut i: usize = 0;
    while i < n
        invariant
            i <= n,
            n == prefix@.len(),
            n <= text@.len(),
            text@.take(i as int) == prefix@.take(i as int),
        decreases n - i,
    {
        if text.get_char(i) != prefix.get_char(i) {
            assert(text@.take(n as int)[i as int] != prefix@[i as int]);
            return false;
        }
        i = i + 1;
        assert(text@.take(i as int) =~= text@.take(i - 1).push(text@[i - 1]));
        assert(prefix@.take(i as int) =~= prefix@.take(i - 1).push(prefix@[i - 1]));
    }
    assert(prefix@.take(n as int) =~= prefix@);
    true
}

/// Whether two texts are the same.
pub fn same_text(a: &str, b: &str) -> (same: bool)
    ensures
        same == (a@ == b@),
{
    if a.unicode_len() != b.unicode_len() {
        return false;
    }
    let same = starts_with(a, b);
    assert(a@.take(a@.len() as int) =~= a@);
    same
}

} // verus!
