use vstd::prelude::*;
use vstd::string::StringExecFns;
use crate::config::Args;

verus! {

/// One observation of a node: the block seen, when it was seen, and what the
/// observation cost.
#[derive(Debug, Clone)]
pub struct Metrics {
    pub name: String,
    pub block_height: u64,
    /// Seconds, as the chain reports them.
    pub block_timestamp: u64,
    /// Local wall-clock time of the observation, in milliseconds.
    pub os_timestamp: i64,
    /// Round-trip cost of the observation in milliseconds; 0 for pushed blocks.
    pub diff: i64,
}

/// A sink that takes metric records and delivers them on its own, best-effort.
pub trait MetricsClient {
    fn name(&self) -> &str;

    fn write(&self, metric: &Metrics);
}

/// The destination database of the push-HTTP sink, as sent in each request.
#[derive(Debug, Clone)]
pub struct DB {
    pub host: String,
    pub token: String,
    pub name: String,
    pub table: String,
}

/// The body of one request of the push-HTTP sink.
#[derive(Debug, Clone)]
pub struct MessageBody {
    pub name: String,
    pub chain_name: String,
    pub block_height: u64,
    pub block_timestamp: i64,
    pub os_timestamp: i64,
    pub diff: i64,
    pub db: DB,
}

/// One point written by the database sink; it is tagged by `name`, the
/// record's source name.
#[derive(Debug, Clone)]
pub struct DBMetrics {
    pub name: String,
    pub chain_name: String,
    pub block_height: u64,
    pub block_timestamp: i64,
    pub os_timestamp: i64,
    pub diff: i64,
}

/// The path, under the server's address, that records are posted to.
pub open spec fn merge_path() -> Seq<char> {
    seq!['/', 'a', 'p', 'i', '/', 'm', 'e', 't', 'r', 'i', 'c', 's', '/', 'm', 'e', 'r', 'g', 'e']
}

/// The chain name that the push-HTTP sink falls back to.
pub open spec fn default_http_chain_name() -> Seq<char> {
    seq!['h', 't', 't', 'p', '-', 'c', 'l', 'i', 'e', 'n', 't']
}

/// The first name of a list, or `fallback` where the list is empty.
pub open spec fn first_or(names: Seq<String>, fallback: Seq<char>) -> Seq<char> {
    if names.len() > 0 {
        names[0]@
    } else {
        fallback
    }
}

fn first_or_string(names: &Vec<String>, fallback: String) -> (r: String)
    ensures
        r@ == first_or(names@, fallback@),
{
    if names.len() > 0 {
        names[0].clone()
    } else {
        fallback
    }
}

/// The identity of a push-HTTP sink: where and under which names it posts.
#[derive(Debug, Clone)]
pub struct HttpClient {
    pub name: String,
    pub chain_name: String,
    pub config: Args,
}

impl HttpClient {
    /// The sink of one monitor: named after the agent, with the monitor's
    /// streaming endpoint name as chain name (`http-client` where there is none).
    pub fn new(config: Args) -> (r: Self)
        ensures
            r.name == config.name,
            r.chain_name@ == first_or(config.ws_names@, default_http_chain_name()),
            r.config == config,
    {
        proof {
            reveal_strlit("http-client");
        }
        let chain_name = first_or_string(&config.ws_names, String::from_str("http-client"));
        let name = config.name.clone();
        HttpClient { name, chain_name, config }
    }

    /// The name that records of this sink carry.
    pub fn name(&self) -> (r: &str)
        ensures
            r@ == self.name@,
    {
        self.name.as_str()
    }

    /// The address that records are posted to.
    pub fn merge_url(&self) -> (r: String)
        ensures
            r@ == self.config.server@ + merge_path(),
    {
        proof {
            reveal_strlit("/api/metrics/merge");
        }
        let mut url = self.config.server.clone();
        url.append("/api/metrics/merge");
        url
    }

    /// The request body that delivers `metric`.
    pub fn message_body(&self, metric: &Metrics) -> (r: MessageBody)
        ensures
            r.name == metric.name,
            r.chain_name == self.chain_name,
            r.block_height == metric.block_height,
            r.block_timestamp == metric.block_timestamp as i64,
            r.os_timestamp == metric.os_timestamp,
            r.diff == metric.diff,
            r.db.host == self.config.db_host,
            r.db.token == self.config.token,
            r.db.name == self.config.db_name,
            r.db.table == self.config.table_name,
    {
        MessageBody {
            name: metric.name.clone(),
            chain_name: self.chain_name.clone(),
            block_height: metric.block_height,
            block_timestamp: metric.block_timestamp as i64,
            os_timestamp: metric.os_timestamp,
            diff: metric.diff,
            db: DB {
                host: self.config.db_host.clone(),
                token: self.config.token.clone(),
                name: self.config.db_name.clone(),
                table: self.config.table_name.clone(),
            },
        }
    }
}

/// The chain name used where a monitor has none: the host name, or
/// `unknown_chain` where the lookup failed.
pub open spec fn host_or_unknown(host_name: Option<String>) -> Seq<char> {
    match host_name {
        Some(h) => h@,
        None => seq!['u', 'n', 'k', 'n', 'o', 'w', 'n', '_', 'c', 'h', 'a', 'i', 'n'],
    }
}

/// The identity of a database sink: which measurement it writes, under which tag.
#[derive(Debug, Clone)]
pub struct InfluxDBClient {
    pub name: String,
    pub chain_name: String,
    pub config: Args,
}

impl InfluxDBClient {
    /// The sink of one monitor: named after the agent, with the monitor's
    /// polled endpoint name as chain name; where there is none, the machine's
    /// host name as `host_name` gives it (`None` where looking it up failed),
    /// and `unknown_chain` where that is missing too.
    pub fn new(config: Args, host_name: Option<String>) -> (r: Self)
        ensures
            r.name == config.name,
            r.chain_name@ == first_or(config.http_names@, host_or_unknown(host_name)),
            r.config == config,
    {
        proof {
            reveal_strlit("unknown_chain");
        }
        let fallback = match host_name {
            Some(h) => h,
            None => String::from_str("unknown_chain"),
        };
        let chain_name = first_or_string(&config.http_names, fallback);
        let name = config.name.clone();
        InfluxDBClient { name, chain_name, config }
    }

    /// The name that records of this sink carry: its chain name.
    pub fn name(&self) -> (r: &str)
        ensures
            r@ == self.chain_name@,
    {
        self.chain_name.as_str()
    }

    /// The measurement written to: `<table>:<chain name>`.
    pub fn measurement(&self) -> (r: String)
        ensures
            r@ == self.config.table_name@ + seq![':'] + self.chain_name@,
    {
        proof {
            reveal_strlit(":");
        }
        let mut m = self.config.table_name.clone();
        m.append(":");
        m.append(self.chain_name.as_str());
        m
    }

    /// The point that delivers `metric`.
    pub fn point(&self, metric: &Metrics) -> (r: DBMetrics)
        ensures
            r.name == metric.name,
            r.chain_name == self.chain_name,
            r.block_height == metric.block_height,
            r.block_timestamp == metric.block_timestamp as i64,
            r.os_timestamp == metric.os_timestamp,
            r.diff == metric.diff,
    {
        DBMetrics {
            name: metric.name.clone(),
            chain_name: self.chain_name.clone(),
            block_height: metric.block_height,
            block_timestamp: metric.block_timestamp as i64,
            os_timestamp: metric.os_timestamp,
            diff: metric.diff,
        }
    }
}

} // verus!
