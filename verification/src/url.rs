//! Building the request URL for one page of the feed: a fixed endpoint and
//! method name, a fixed page size of 200, the percent-encoded user name and
//! key, and the requested page number.

use vstd::prelude::*;
use vstd::string::StringExecFns;
use crate::numbers::{spec_dec_str, u64_to_string};

verus! {

/// What the percent-encoding of a string is.
pub uninterp spec fn percent_encoded(s: Seq<char>) -> Seq<char>;

/// Relies on `urlencoding::encode`: percent-encodes every byte of the
/// UTF-8 form of the input except alphanumerics and `-`, `_`, `.`, `~`.
/// The result is a function of the input characters alone, and an empty
/// input stays empty.
#[verifier::external_body]
fn encode_component(s: &str) -> (r: String)
    ensures
        r@ == percent_encoded(s@),
        s@.len() == 0 ==> r@.len() == 0,
{
    urlencoding::encode(s).into_owned()
}

/// The URL that fetches page `page` of the user's listening history, with
/// a page size of 200 records.
pub open spec fn spec_page_url(api_key: Seq<char>, user: Seq<char>, page: int) -> Seq<char> {
    "https://ws.audioscrobbler.com/2.0/?method=user.getrecenttracks&limit=200&user="@
        + percent_encoded(user) + "&api_key="@ + percent_encoded(api_key) + "&page="@
        + spec_dec_str(page)
}

/// Build the request URL for one page.
pub fn page_url(api_key: &str, user: &str, page: u64) -> (r: String)
    ensures
        r@ == spec_page_url(api_key@, user@, page as int),
{
    let mut url = String::from_str(
        "https://ws.audioscrobbler.com/2.0/?method=user.getrecenttracks&limit=200&user=",
    );
    let user_enc = encode_component(user);
    url.append(user_enc.as_str());
    url.append("&api_key=");
    let key_enc = encode_component(api_key);
    url.append(key_enc.as_str());
    url.append("&page=");
    let page_s = u64_to_string(page);
    url.append(page_s.as_str());
    url
}

} // verus!
