//! The service client: API key, transport handle, request URLs and the
//! reading of a response's status.

use crate::error::RequestError;
use crate::params::{lemma_put_single, names_unique, put, Entries, Params};
use vstd::prelude::*;

verus! {

/// What `serde_urlencoded` writes for a list of name and value pairs.
pub uninterp spec fn form_encoded(pairs: Entries) -> Seq<char>;

/// Relies on serde_urlencoded::to_string: on success it holds the
/// `application/x-www-form-urlencoded` text of the pairs, which depends on
/// the pairs alone.
#[verifier::external_body]
fn encode_pairs(pairs: &Vec<(String, String)>) -> (r: Result<String, serde_urlencoded::ser::Error>)
    ensures
        r matches Ok(q) ==> q@ == form_encoded(pairs@.map_values(|e: (String, String)| (e.0@, e.1@))),
{
    serde_urlencoded::to_string(pairs)
}

/// The root of every request.
pub open spec fn base_url() -> Seq<char> {
    "https://dev.virtualearth.net/REST/v1/"@
}

/// The full URL for a path and an encoded query string.
pub open spec fn url_text(path: Seq<char>, query: Seq<char>) -> Seq<char> {
    base_url() + path + "?"@ + query
}

/// The name under which the API key travels.
pub open spec fn key_name() -> Seq<char> {
    "key"@
}

/// A 2xx status.
pub open spec fn is_success(status: u16) -> bool {
    200 <= status <= 299
}

/// Some comma-separated segment of the header value is exactly `1`.
pub open spec fn wait_signalled(info: Seq<char>) -> bool {
    exists|i: int|
        #![trigger info[i]]
        0 <= i < info.len() && info[i] == '1' && (i == 0 || info[i - 1] == ',') && (i + 1
            == info.len() || info[i + 1] == ',')
}

/// The URL for `path` and the given query string.
pub fn url_for_query(path: &str, query: &str) -> (r: String)
    ensures
        r@ == url_text(path@, query@),
{
    let mut s = String::new();
    s.append("https://dev.virtualearth.net/REST/v1/");
    s.append(path);
    s.append("?");
    s.append(query);
    assert(s@ =~= url_text(path@, query@));
    s
}

/// The URL for `path` from the outcome of encoding its parameters: where
/// encoding failed, the query string is left empty.
pub fn url_from_encoded(path: &str, encoded: Result<String, serde_urlencoded::ser::Error>) -> (r: String)
    ensures
        encoded matches Ok(q) ==> r@ == url_text(path@, q@),
        encoded is Err ==> r@ == url_text(path@, Seq::empty()),
{
    match encoded {
        Ok(q) => url_for_query(path, q.as_str()),
        Err(_) => {
            proof {
                reveal_strlit("");
            }
            url_for_query(path, "")
        },
    }
}

/// Whether the overload header asks the caller to wait and retry.
pub fn should_wait(info: &str) -> (r: bool)
    ensures
        r == wait_signalled(info@),
{
    let n = info.unicode_len();
    let mut i: usize = 0;
    while i < n
        invariant
            n == info@.len(),
            i <= n,
            forall|j: int|
                0 <= j < i ==> !(#[trigger] info@[j] == '1' && (j == 0 || info@[j - 1] == ',') && (
                j + 1 == info@.len() || info@[j + 1] == ',')),
        decreases n - i,
    {
        if info.get_char(i) == '1' && (i == 0 || info.get_char(i - 1) == ',') && (i + 1 == n
            || info.get_char(i + 1) == ',') {
            return true;
        }
        i = i + 1;
    }
    false
}

/// The error that a response with this status and overload header carries:
/// none for a 2xx status.
pub fn response_error(status: u16, info: Option<&str>) -> (r: Option<RequestError>)
    ensures
        r is None <==> is_success(status),
        r matches Some(e) ==> e.http_status == status && e.should_wait == (info matches Some(
            s) && wait_signalled(s@)),
{
    if 200 <= status && status <= 299 {
        None
    } else {
        let wait = match info {
            Some(s) => should_wait(s),
            None => false,
        };
        Some(RequestError { http_status: status, should_wait: wait })
    }
}

/// A client of the service: the API key and the transport handle `H` that
/// carries requests. The key is never changed once the client is made, so the
/// client can be shared by concurrent callers as far as `H` can.
pub struct Client<H> {
    http: H,
    key: String,
}

impl<H> Client<H> {
    /// The API key sent with every request.
    pub closed spec fn api_key(&self) -> Seq<char> {
        self.key@
    }

    /// A client that sends `key` with every request over `http`.
    pub fn new(http: H, key: &str) -> (r: Client<H>)
        ensures
            r.api_key() == key@,
            r.transport() == http,
    {
        Client { http, key: key.to_owned() }
    }

    pub closed spec fn transport(&self) -> H {
        self.http
    }

    pub fn key(&self) -> (r: &str)
        ensures
            r@ == self.api_key(),
    {
        self.key.as_str()
    }

    /// The transport handle, shared by all requests.
    pub fn http(&self) -> (r: &H)
        ensures
            *r == self.transport(),
    {
        &self.http
    }

    fn url(path: &str, params: &Params) -> (r: String)
        ensures
            r@ == url_text(path@, form_encoded(params@)) || r@ == url_text(path@, Seq::empty()),
    {
        url_from_encoded(path, encode_pairs(params.entries()))
    }

    /// Adds the API key to `params` under `key`, replacing any value of that
    /// name, and returns the URL of the request for `path`.
    pub fn request_url(&self, path: &str, params: &mut Params) -> (r: String)
        requires
            old(params).wf(),
        ensures
            final(params).wf(),
            final(params)@ == put(old(params)@, key_name(), self.api_key()),
            r@ == url_text(path@, form_encoded(final(params)@)) || r@ == url_text(
                path@,
                Seq::empty(),
            ),
    {
        proof {
            reveal_strlit("key");
        }
        params.insert("key", self.key.as_str());
        Self::url(path, params)
    }
}

/// Whatever parameters a caller hands to [`Client::request_url`], they come
/// back with exactly one `key` entry, holding the client's key, and every
/// entry of another name as it was: a `key` of the caller's is overwritten.
pub proof fn lemma_key_added_once(before: Entries, key: Seq<char>)
    requires
        names_unique(before),
    ensures
        names_unique(put(before, key_name(), key)),
        exists|i: int|
            #![trigger put(before, key_name(), key)[i]]
            0 <= i < put(before, key_name(), key).len() && put(before, key_name(), key)[i] == (
            key_name(),
            key,
        ) && forall|j: int|
                0 <= j < put(before, key_name(), key).len() && j != i ==> put(
                    before,
                    key_name(),
                    key,
                )[j].0 != key_name(),
        forall|e: (Seq<char>, Seq<char>)|
            e.0 != key_name() ==> (put(before, key_name(), key).contains(e) <==> before.contains(
                e,
            )),
{
    lemma_put_single(before, key_name(), key);
}

} // verus!
