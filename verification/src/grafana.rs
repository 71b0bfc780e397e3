//! Grafana annotations for deployment lifecycle events, posted to the
//! `/api/annotations` endpoint with Bearer token authentication.
use vstd::prelude::*;
use vstd::string::*;

use crate::http::{build_http_client, utc_now_millis};
use crate::text::string_of;

verus! {

/// A Grafana client: an HTTP client with a base URL and an API key.
#[derive(Clone)]
pub struct GrafanaClient {
    client: reqwest::Client,
    base_url: String,
    api_key: String,
}

/// The body of an annotation request.
#[derive(Clone, Debug)]
pub struct GrafanaAnnotation {
    pub text: String,
    pub tags: Vec<String>,
    /// Milliseconds since the Unix epoch.
    pub time: i64,
}

/// `s` without its trailing `c` characters, as `str::trim_end_matches` with a character
/// leaves it.
pub open spec fn trim_end_char(s: Seq<char>, c: char) -> Seq<char>
    decreases s.len(),
{
    if s.len() > 0 && s.last() == c {
        trim_end_char(s.drop_last(), c)
    } else {
        s
    }
}

/// The annotations endpoint under a base URL: the base without trailing slashes,
/// followed by `/api/annotations`.
pub open spec fn annotations_endpoint(base_url: Seq<char>) -> Seq<char> {
    trim_end_char(base_url, '/') + "/api/annotations"@
}

proof fn lemma_trim_end_char_cut(s: Seq<char>, c: char, k: int)
    requires
        0 <= k <= s.len(),
        forall|j: int| k <= j < s.len() ==> #[trigger] s[j] == c,
    ensures
        trim_end_char(s, c) == trim_end_char(s.subrange(0, k), c),
    decreases s.len() - k,
{
    if k < s.len() {
        lemma_trim_end_char_cut(s.drop_last(), c, k);
        assert(s.drop_last().subrange(0, k) =~= s.subrange(0, k));
    } else {
        assert(s.subrange(0, k) =~= s);
    }
}

/// Trailing slashes on the base URL do not change the annotations endpoint.
pub proof fn lemma_endpoint_ignores_trailing_slash(base_url: Seq<char>)
    ensures
        annotations_endpoint(base_url.push('/')) == annotations_endpoint(base_url),
{
    assert(base_url.push('/').drop_last() =~= base_url);
}

/// Whether the values of `GRAFANA_URL` and `GRAFANA_API_KEY` (`None` where unset)
/// configure Grafana: both are set and neither is empty.
pub open spec fn grafana_env_usable(base_url: Option<String>, api_key: Option<String>) -> bool {
    &&& base_url is Some
    &&& api_key is Some
    &&& base_url->0@.len() > 0
    &&& api_key->0@.len() > 0
}

/// Any set, non-empty base URL configures Grafana together with a set, non-empty API
/// key, whatever its last character; in particular one that ends in `/`, whose
/// annotations endpoint is that of the URL without the slash.
pub proof fn lemma_any_base_url_usable(base_url: String, api_key: String)
    requires
        base_url@.len() > 0,
        api_key@.len() > 0,
    ensures
        grafana_env_usable(Some(base_url), Some(api_key)),
        base_url@.last() == '/' ==> annotations_endpoint(base_url@) == annotations_endpoint(
            base_url@.drop_last(),
        ),
{
    if base_url@.last() == '/' {
        lemma_endpoint_ignores_trailing_slash(base_url@.drop_last());
        assert(base_url@.drop_last().push('/') =~= base_url@);
    }
}

impl GrafanaClient {
    /// The base URL the client was made with.
    pub closed spec fn spec_base_url(&self) -> Seq<char> {
        self.base_url@
    }

    /// The API key the client was made with.
    pub closed spec fn spec_api_key(&self) -> Seq<char> {
        self.api_key@
    }

    /// The HTTP client the client was made with.
    pub closed spec fn spec_http_client(&self) -> reqwest::Client {
        self.client
    }

    /// A client made of an HTTP client, a base URL and an API key.
    pub fn with_http_client(client: reqwest::Client, base_url: String, api_key: String) -> (r: Self)
        ensures
            r.spec_http_client() == client,
            r.spec_base_url() == base_url@,
            r.spec_api_key() == api_key@,
    {
        GrafanaClient { client, base_url, api_key }
    }

    /// Creates a client with a five-second request timeout; `None` when the HTTP client
    /// cannot be built.
    pub fn new(base_url: String, api_key: String) -> (r: Option<Self>)
        ensures
            r is Some ==> r->0.spec_base_url() == base_url@ && r->0.spec_api_key() == api_key@,
    {
        match build_http_client(5) {
            Some(client) => Some(Self::with_http_client(client, base_url, api_key)),
            None => None,
        }
    }

    /// Creates a client from the values of `GRAFANA_URL` and `GRAFANA_API_KEY` (`None`
    /// where unset) and an HTTP client (`None` where none could be built): a client
    /// exactly when both values are set and non-empty and there is an HTTP client. A
    /// base URL with trailing slashes is as good as any other.
    pub fn from_env_values_with(
        base_url: Option<String>,
        api_key: Option<String>,
        client: Option<reqwest::Client>,
    ) -> (r: Option<Self>)
        ensures
            r is Some == (grafana_env_usable(base_url, api_key) && client is Some),
            r is Some ==> r->0.spec_base_url() == base_url->0@ && r->0.spec_api_key()
                == api_key->0@ && r->0.spec_http_client() == client->0,
    {
        match (base_url, api_key, client) {
            (Some(url), Some(key), Some(client)) => {
                if url.as_str().is_empty() || key.as_str().is_empty() {
                    None
                } else {
                    Some(Self::with_http_client(client, url, key))
                }
            },
            _ => None,
        }
    }

    /// Whether the values of `GRAFANA_URL` and `GRAFANA_API_KEY` configure Grafana:
    /// both set and neither empty.
    pub fn env_values_usable(base_url: &Option<String>, api_key: &Option<String>) -> (r: bool)
        ensures
            r == grafana_env_usable(*base_url, *api_key),
    {
        match (base_url, api_key) {
            (Some(url), Some(key)) => !url.as_str().is_empty() && !key.as_str().is_empty(),
            _ => false,
        }
    }

    /// Creates a client from the values of `GRAFANA_URL` and `GRAFANA_API_KEY` (`None`
    /// where unset): no client when either is missing or empty; otherwise the HTTP
    /// client is built as by `new`, and the client is made of it, as
    /// `from_env_values_with` makes it. Whether the HTTP client can be built depends on
    /// the machine, so a `None` for usable values is not excluded here.
    pub fn from_env_values(base_url: Option<String>, api_key: Option<String>) -> (r: Option<Self>)
        ensures
            !grafana_env_usable(base_url, api_key) ==> r is None,
            (base_url is None || api_key is None) ==> r is None,
            (base_url is Some && base_url->0@.len() == 0) ==> r is None,
            (api_key is Some && api_key->0@.len() == 0) ==> r is None,
            r is Some ==> grafana_env_usable(base_url, api_key),
            r is Some ==> r->0.spec_base_url() == base_url->0@ && r->0.spec_api_key()
                == api_key->0@,
    {
        let client = if Self::env_values_usable(&base_url, &api_key) {
            build_http_client(5)
        } else {
            None
        };
        Self::from_env_values_with(base_url, api_key, client)
    }

    /// The HTTP client.
    pub fn http_client(&self) -> (r: &reqwest::Client)
        ensures
            *r == self.spec_http_client(),
    {
        &self.client
    }

    /// The base URL.
    pub fn base_url(&self) -> (r: &str)
        ensures
            r@ == self.spec_base_url(),
    {
        self.base_url.as_str()
    }

    /// The API key, sent as a Bearer token.
    pub fn api_key(&self) -> (r: &str)
        ensures
            r@ == self.spec_api_key(),
    {
        self.api_key.as_str()
    }

    /// The URL annotations are posted to.
    pub fn annotation_url(&self) -> (r: String)
        ensures
            r@ == annotations_endpoint(self.spec_base_url()),
    {
        let base = self.base_url.as_str();
        let n = base.unicode_len();
        let mut k: usize = n;
        while k > 0 && base.get_char(k - 1) == '/'
            invariant
                n == base@.len(),
                0 <= k <= n,
                forall|j: int| k <= j < n ==> #[trigger] base@[j] == '/',
            decreases k,
        {
            k = k - 1;
        }
        proof {
            lemma_trim_end_char_cut(base@, '/', k as int);
            let cut = base@.subrange(0, k as int);
            if k > 0 {
                assert(cut.last() == base@[k - 1]);
            }
        }
        let mut s = string_of(base.substring_char(0, k));
        s.append("/api/annotations");
        s
    }

    /// The annotation to post, stamped with the present time (milliseconds since the
    /// Unix epoch, read from the clock).
    pub fn annotation(&self, text: &str, tags: Vec<String>) -> (r: GrafanaAnnotation)
        ensures
            r.text@ == text@,
            r.tags == tags,
    {
        GrafanaAnnotation { text: string_of(text), tags, time: utc_now_millis() }
    }
}

} // verus!
