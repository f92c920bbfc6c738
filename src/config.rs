use vstd::prelude::*;
use vstd::string::StringExecFns;
use crate::decimal::{indexed_label, indexed_label_string};

verus! {

/// Which metrics sink a monitor writes to.
#[derive(Debug, Clone, Copy, PartialEq, Eq, Structural)]
pub enum ClientType {
    /// Push-HTTP sink.
    Http,
    /// Time-series database sink.
    Influx,
}

impl Default for ClientType {
    fn default() -> (r: Self)
        ensures
            r == ClientType::Http,
    {
        ClientType::Http
    }
}

/// One streaming endpoint, resolved from the configuration.
#[derive(Debug, Clone)]
pub struct WebSocketConfig {
    pub name: String,
    pub tag: String,
    pub url: String,
    pub client: ClientType,
}

/// One polled endpoint, resolved from the configuration.
#[derive(Debug, Clone)]
pub struct HttpConfig {
    pub name: String,
    pub url: String,
    pub client: ClientType,
}

/// The process-wide configuration: shared sink settings and, per transport,
/// parallel lists of endpoint names and URLs.
#[derive(Debug, Clone)]
pub struct Args {
    pub name: String,
    pub ws_names: Vec<String>,
    pub ws: Vec<String>,
    pub ws_client: ClientType,
    pub http_names: Vec<String>,
    pub http: Vec<String>,
    pub http_client: ClientType,
    pub server: String,
    pub db_host: String,
    pub db_name: String,
    pub table_name: String,
    pub token: String,
}

/// The prefix of the placeholder names of streaming endpoints.
pub open spec fn ws_prefix() -> Seq<char> {
    seq!['w', 'e', 'b', 's', 'o', 'c', 'k', 'e', 't']
}

/// The prefix of the placeholder names of polled endpoints.
pub open spec fn http_prefix() -> Seq<char> {
    seq!['h', 't', 't', 'p']
}

/// The name of the endpoint at position `i`: the name given at that position,
/// or `<prefix>-<i>` where the name list is shorter.
pub open spec fn resolved_name(names: Seq<String>, prefix: Seq<char>, i: int) -> Seq<char> {
    if i < names.len() {
        names[i]@
    } else {
        indexed_label(prefix, i as nat)
    }
}

/// `r` is the configuration of the monitor `name` at `url` with sink `client`,
/// derived from `base`: the shared settings are kept, and the endpoint lists of
/// the sink's kind hold exactly that monitor (the streaming lists for the
/// push-HTTP sink, the polled lists for the database sink).
pub open spec fn is_monitor_config(
    base: Args,
    name: String,
    url: String,
    client: ClientType,
    r: Args,
) -> bool {
    &&& r.name == base.name
    &&& r.ws_client == base.ws_client
    &&& r.http_client == base.http_client
    &&& r.server == base.server
    &&& r.db_host == base.db_host
    &&& r.db_name == base.db_name
    &&& r.table_name == base.table_name
    &&& r.token == base.token
    &&& client == ClientType::Http ==> {
        &&& r.ws_names@ == seq![name]
        &&& r.ws@ == seq![url]
        &&& r.http_names@ == base.http_names@
        &&& r.http@ == base.http@
    }
    &&& client == ClientType::Influx ==> {
        &&& r.ws_names@ == base.ws_names@
        &&& r.ws@ == base.ws@
        &&& r.http_names@ == seq![name]
        &&& r.http@ == seq![url]
    }
}

/// A copy of a list of strings.
fn clone_strings(v: &Vec<String>) -> (r: Vec<String>)
    ensures
        r@ == v@,
{
    let mut r: Vec<String> = Vec::new();
    let mut i: usize = 0;
    while i < v.len()
        invariant
            i <= v@.len(),
            r@ == v@.subrange(0, i as int),
        decreases v@.len() - i,
    {
        r.push(v[i].clone());
        i = i + 1;
        assert(r@ =~= v@.subrange(0, i as int));
    }
    assert(r@ =~= v@);
    r
}

fn name_at(names: &Vec<String>, prefix: &str, index: usize) -> (r: String)
    ensures
        r@ == resolved_name(names@, prefix@, index as int),
{
    if index < names.len() {
        names[index].clone()
    } else {
        indexed_label_string(prefix, index)
    }
}

/// Whether `s` is a well-formed absolute URL.
pub uninterp spec fn url_ok(s: Seq<char>) -> bool;

/// Relies on url's `Url::parse` (re-exported by reqwest): whether the text
/// parses as an absolute URL. The answer depends on the text alone.
#[verifier::external_body]
fn parses_as_url(s: &str) -> (r: bool)
    ensures
        r == url_ok(s@),
{
    reqwest::Url::parse(s).is_ok()
}

/// The positions among the first `n` URLs that hold a well-formed URL, in order.
pub open spec fn valid_positions(urls: Seq<String>, n: int) -> Seq<int>
    decreases n,
{
    if n <= 0 {
        seq![]
    } else if url_ok(urls[n - 1]@) {
        valid_positions(urls, n - 1).push(n - 1)
    } else {
        valid_positions(urls, n - 1)
    }
}

/// The positions of the well-formed URLs of a list, in order.
pub open spec fn kept_positions(urls: Seq<String>) -> Seq<int> {
    valid_positions(urls, urls.len() as int)
}

/// `c` is the streaming endpoint at position `i` of `a`.
pub open spec fn is_ws_config(a: Args, i: int, c: WebSocketConfig) -> bool {
    &&& c.name == a.name
    &&& c.tag@ == resolved_name(a.ws_names@, ws_prefix(), i)
    &&& c.url == a.ws@[i]
    &&& c.client == a.ws_client
}

/// `c` is the polled endpoint at position `i` of `a`.
pub open spec fn is_http_config(a: Args, i: int, c: HttpConfig) -> bool {
    &&& c.name@ == resolved_name(a.http_names@, http_prefix(), i)
    &&& c.url == a.http@[i]
    &&& c.client == a.http_client
}

/// Malformed URLs are left out and nothing else is: the positions kept are
/// those of the well-formed URLs, every one of them, in increasing order.
pub proof fn lemma_kept_positions(urls: Seq<String>, n: int)
    requires
        0 <= n <= urls.len(),
    ensures
        forall|j: int|
            0 <= j < valid_positions(urls, n).len() ==> {
                let i = #[trigger] valid_positions(urls, n)[j];
                0 <= i < n && url_ok(urls[i]@)
            },
        forall|j: int, k: int|
            0 <= j < k < valid_positions(urls, n).len() ==> #[trigger] valid_positions(urls, n)[j]
                < #[trigger] valid_positions(urls, n)[k],
        forall|i: int|
            0 <= i < n && url_ok(#[trigger] urls[i]@) ==> valid_positions(urls, n).contains(i),
    decreases n,
{
    if n > 0 {
        lemma_kept_positions(urls, n - 1);
        let prev = valid_positions(urls, n - 1);
        if url_ok(urls[n - 1]@) {
            assert(valid_positions(urls, n) == prev.push(n - 1));
            assert forall|i: int| 0 <= i < n && url_ok(#[trigger] urls[i]@) implies valid_positions(
                urls,
                n,
            ).contains(i) by {
                if i < n - 1 {
                    let j = choose|j: int| 0 <= j < prev.len() && prev[j] == i;
                    assert(valid_positions(urls, n)[j] == i);
                } else {
                    assert(valid_positions(urls, n)[prev.len() as int] == i);
                }
            }
        }
    }
}

impl Args {
    /// Resolves the streaming endpoints: one per well-formed URL, in the order
    /// of the URLs, each named after its position in the URL list.
    pub fn get_ws_configs(&self) -> (r: Vec<WebSocketConfig>)
        ensures
            r@.len() == kept_positions(self.ws@).len(),
            forall|j: int|
                0 <= j < r@.len() ==> is_ws_config(*self, kept_positions(self.ws@)[j], #[trigger] r@[j]),
    {
        proof {
            reveal_strlit("websocket");
        }
        let mut r: Vec<WebSocketConfig> = Vec::new();
        let mut i: usize = 0;
        while i < self.ws.len()
            invariant
                i <= self.ws@.len(),
                r@.len() == valid_positions(self.ws@, i as int).len(),
                "websocket"@ == ws_prefix(),
                forall|j: int|
                    0 <= j < r@.len() ==> is_ws_config(
                        *self,
                        valid_positions(self.ws@, i as int)[j],
                        #[trigger] r@[j],
                    ),
            decreases self.ws@.len() - i,
        {
            if parses_as_url(self.ws[i].as_str()) {
                let tag = name_at(&self.ws_names, "websocket", i);
                r.push(WebSocketConfig {
                    name: self.name.clone(),
                    tag,
                    url: self.ws[i].clone(),
                    client: self.ws_client,
                });
            }
            i = i + 1;
        }
        r
    }

    /// Resolves the polled endpoints: one per well-formed URL, in the order of
    /// the URLs, each named after its position in the URL list.
    pub fn get_http_configs(&self) -> (r: Vec<HttpConfig>)
        ensures
            r@.len() == kept_positions(self.http@).len(),
            forall|j: int|
                0 <= j < r@.len() ==> is_http_config(*self, kept_positions(self.http@)[j], #[trigger] r@[j]),
    {
        proof {
            reveal_strlit("http");
        }
        let mut r: Vec<HttpConfig> = Vec::new();
        let mut i: usize = 0;
        while i < self.http.len()
            invariant
                i <= self.http@.len(),
                r@.len() == valid_positions(self.http@, i as int).len(),
                "http"@ == http_prefix(),
                forall|j: int|
                    0 <= j < r@.len() ==> is_http_config(
                        *self,
                        valid_positions(self.http@, i as int)[j],
                        #[trigger] r@[j],
                    ),
            decreases self.http@.len() - i,
        {
            if parses_as_url(self.http[i].as_str()) {
                let name = name_at(&self.http_names, "http", i);
                r.push(HttpConfig { name, url: self.http[i].clone(), client: self.http_client });
            }
            i = i + 1;
        }
        r
    }

    /// The configuration of a single monitor: a copy of this one whose
    /// endpoint list for the given sink kind holds exactly `name` and `url`
    /// (the streaming lists for the push-HTTP sink, the polled lists for the
    /// database sink).
    pub fn for_monitor(&self, name: String, url: String, client: ClientType) -> (r: Args)
        ensures
            is_monitor_config(*self, name, url, client, r),
    {
        let mut config = Args {
            name: self.name.clone(),
            ws_names: clone_strings(&self.ws_names),
            ws: clone_strings(&self.ws),
            ws_client: self.ws_client,
            http_names: clone_strings(&self.http_names),
            http: clone_strings(&self.http),
            http_client: self.http_client,
            server: self.server.clone(),
            db_host: self.db_host.clone(),
            db_name: self.db_name.clone(),
            table_name: self.table_name.clone(),
            token: self.token.clone(),
        };
        match client {
            ClientType::Http => {
                config.ws_names = vec![name];
                config.ws = vec![url];
                assert(config.ws_names@ =~= seq![name]);
                assert(config.ws@ =~= seq![url]);
            },
            ClientType::Influx => {
                config.http_names = vec![name];
                config.http = vec![url];
                assert(config.http_names@ =~= seq![name]);
                assert(config.http@ =~= seq![url]);
            },
        }
        config
    }
}

/// Names given for every URL come back unchanged, position for position: with
/// a name list as long as the URL list, no placeholder is used.
pub proof fn lemma_names_round_trip(names: Seq<String>, urls: Seq<String>, prefix: Seq<char>)
    requires
        names.len() == urls.len(),
    ensures
        forall|i: int| 0 <= i < urls.len() ==> #[trigger] resolved_name(names, prefix, i) == names[i]@,
{
}

/// Positions past the end of the name list get the placeholder `<prefix>-<i>`.
pub proof fn lemma_short_names_use_placeholders(names: Seq<String>, prefix: Seq<char>, i: int)
    requires
        names.len() <= i,
    ensures
        resolved_name(names, prefix, i) == indexed_label(prefix, i as nat),
{
}

} // verus!
