//! Common types utilized throughout the crate: the options of read and write operations, their
//! projection into query parameters and request headers, and the metadata of query responses.
use vstd::prelude::*;
use vstd::string::*;

use crate::errors::{str_views, ResponseError};
use crate::headers::{
    all_visible, ascii_chars, check_visible, find_header, header_lookup, visible_to_string,
};
use crate::text::{decimal, join, join_strings, parse_u64, parse_u64_spec, push_decimal, string_views};

verus! {

/// A span of time: whole seconds and the nanoseconds beyond them.
#[derive(Clone, Copy, Debug, PartialEq, Eq, Structural)]
pub struct Duration {
    pub secs: u64,
    pub nanos: u32,
}

impl Duration {
    /// The span in whole milliseconds.
    pub open spec fn millis(self) -> nat {
        self.secs as nat * 1000 + self.nanos as nat / 1_000_000
    }

    /// A span of `secs` seconds.
    pub fn from_secs(secs: u64) -> (r: Duration)
        ensures
            r.secs == secs,
            r.nanos == 0,
    {
        Duration { secs, nanos: 0 }
    }

    /// A span of `millis` milliseconds.
    pub fn from_millis(millis: u64) -> (r: Duration)
        ensures
            r.millis() == millis,
            r.nanos < 1_000_000_000,
    {
        Duration { secs: millis / 1000, nanos: ((millis % 1000) * 1_000_000) as u32 }
    }

    /// The number of whole seconds.
    pub fn as_secs(&self) -> (r: u64)
        ensures
            r == self.secs,
    {
        self.secs
    }

    /// The number of whole milliseconds.
    pub fn as_millis(&self) -> (r: u128)
        ensures
            r == self.millis(),
    {
        self.secs as u128 * 1000 + (self.nanos / 1_000_000) as u128
    }
}

/// The consistency of a given operation.
#[derive(Clone, Copy, Debug, PartialEq, Eq, Structural)]
pub enum Consistency {
    /// Forces full consistency, which is more expensive but avoids stale reads.
    Consistent,
    /// Allows any server to service this read, trading staleness for latency and throughput.
    Stale,
}

/// The blocking behavior of a given operation.
#[derive(Clone, Debug, PartialEq, Eq)]
pub enum Blocking {
    /// Block based on index, as returned in the `X-Consul-Index` header.
    Index(u64),
    /// Block based on hash, as returned in the `X-Consul-ContentHash` header.
    Hash(String),
}

/// A query parameter or a header, as name and value.
pub open spec fn pair_view(p: (String, String)) -> (Seq<char>, Seq<char>) {
    (p.0@, p.1@)
}

/// The names and values of a list of pairs.
pub open spec fn pairs_view(v: Seq<(String, String)>) -> Seq<(Seq<char>, Seq<char>)> {
    v.map_values(|p: (String, String)| pair_view(p))
}

/// The pair `key=value` if the value is present.
pub open spec fn opt_param(key: Seq<char>, v: Option<String>) -> Seq<(Seq<char>, Seq<char>)> {
    match v {
        Some(s) => seq![(key, s@)],
        None => seq![],
    }
}

/// The pair `key=true` if the flag is set.
pub open spec fn flag_param(key: Seq<char>, set: bool) -> Seq<(Seq<char>, Seq<char>)> {
    if set {
        seq![(key, "true"@)]
    } else {
        seq![]
    }
}

/// The relay factor parameter, in decimal.
pub open spec fn relay_param(r: Option<u8>) -> Seq<(Seq<char>, Seq<char>)> {
    match r {
        Some(n) => seq![("relay-factor"@, decimal(n as nat))],
        None => seq![],
    }
}

/// The consistency flag parameter.
pub open spec fn consistency_param(c: Option<Consistency>) -> Seq<(Seq<char>, Seq<char>)> {
    match c {
        Some(Consistency::Consistent) => seq![("consistent"@, "1"@)],
        Some(Consistency::Stale) => seq![("stale"@, "1"@)],
        None => seq![],
    }
}

/// The wait parameter: the blocking timeout in milliseconds with a unit suffix.
pub open spec fn wait_param(t: Option<Duration>) -> Seq<(Seq<char>, Seq<char>)> {
    match t {
        Some(d) => seq![("wait"@, decimal(d.millis()) + "ms"@)],
        None => seq![],
    }
}

/// The blocking condition, and the wait parameter that only applies under one.
pub open spec fn blocking_params(b: Option<Blocking>, t: Option<Duration>) -> Seq<(Seq<char>, Seq<char>)> {
    match b {
        Some(Blocking::Index(i)) => seq![("index"@, decimal(i as nat))] + wait_param(t),
        Some(Blocking::Hash(h)) => seq![("hash"@, h@)] + wait_param(t),
        None => seq![],
    }
}

/// The `node-meta[]` parameter of one metadata entry.
pub open spec fn meta_param(e: (String, String)) -> (Seq<char>, Seq<char>) {
    ("node-meta[]"@, e.0@ + ":"@ + e.1@)
}

/// One `node-meta[]` parameter per metadata entry, as `key:value`.
pub open spec fn node_meta_params(m: Option<Vec<(String, String)>>) -> Seq<(Seq<char>, Seq<char>)> {
    match m {
        Some(v) => v@.map_values(|e: (String, String)| meta_param(e)),
        None => seq![],
    }
}

fn push_pair(v: &mut Vec<(String, String)>, key: &str, value: String)
    ensures
        pairs_view(final(v)@) == pairs_view(old(v)@) + seq![(key@, value@)],
{
    v.push((String::from_str(key), value));
    assert(pairs_view(v@) =~= pairs_view(old(v)@) + seq![(key@, value@)]);
}

fn push_opt(v: &mut Vec<(String, String)>, key: &str, value: &Option<String>)
    ensures
        pairs_view(final(v)@) == pairs_view(old(v)@) + opt_param(key@, *value),
{
    match value {
        Some(s) => push_pair(v, key, s.clone()),
        None => assert(pairs_view(v@) =~= pairs_view(old(v)@) + opt_param(key@, *value)),
    }
}

fn push_flag(v: &mut Vec<(String, String)>, key: &str, set: bool)
    ensures
        pairs_view(final(v)@) == pairs_view(old(v)@) + flag_param(key@, set),
{
    if set {
        push_pair(v, key, String::from_str("true"));
    } else {
        assert(pairs_view(v@) =~= pairs_view(old(v)@) + flag_param(key@, set));
    }
}

fn push_relay(v: &mut Vec<(String, String)>, r: Option<u8>)
    ensures
        pairs_view(final(v)@) == pairs_view(old(v)@) + relay_param(r),
{
    match r {
        Some(n) => {
            let mut s = String::new();
            push_decimal(&mut s, n as u128);
            assert(s@ =~= decimal(n as nat));
            push_pair(v, "relay-factor", s);
        },
        None => assert(pairs_view(v@) =~= pairs_view(old(v)@) + relay_param(r)),
    }
}

/// The capabilities of an options value: the query parameters, the request headers and the
/// overall timeout that it asks of a request.
pub trait RequestOptions {
    spec fn query_params(&self) -> Seq<(Seq<char>, Seq<char>)>;

    spec fn header_params(&self) -> Seq<(Seq<char>, Seq<char>)>;

    spec fn timeout_spec(&self) -> Option<Duration>;

    fn query_pairs(&self) -> (r: Vec<(String, String)>)
        ensures
            pairs_view(r@) == self.query_params(),
    ;

    fn header_pairs(&self) -> (r: Vec<(String, String)>)
        ensures
            pairs_view(r@) == self.header_params(),
    ;

    fn as_timeout(&self) -> (r: Option<Duration>)
        ensures
            r == self.timeout_spec(),
    ;
}

/// Options specific to write operations.
#[derive(Clone, Debug)]
pub struct WriteOptions {
    /// Namespace to execute this operation against.
    pub namespace: Option<String>,
    /// Datacenter to execute this operation against.
    pub datacenter: Option<String>,
    /// Token to use for this operation.
    pub token: Option<String>,
    /// Number of other random nodes that relay keyring responses back (0 to 5, unchecked here).
    pub relay_factor: Option<u8>,
    /// Timeout for this operation overall.
    pub timeout: Option<Duration>,
}

impl Default for WriteOptions {
    fn default() -> (r: WriteOptions)
        ensures
            r.namespace is None,
            r.datacenter is None,
            r.token is None,
            r.relay_factor is None,
            r.timeout is None,
    {
        WriteOptions { namespace: None, datacenter: None, token: None, relay_factor: None, timeout: None }
    }
}

/// The query parameters of write options: namespace, datacenter and relay factor.
pub open spec fn write_option_params(o: WriteOptions) -> Seq<(Seq<char>, Seq<char>)> {
    opt_param("ns"@, o.namespace) + opt_param("dc"@, o.datacenter) + relay_param(o.relay_factor)
}

impl RequestOptions for WriteOptions {
    open spec fn query_params(&self) -> Seq<(Seq<char>, Seq<char>)> {
        write_option_params(*self)
    }

    open spec fn header_params(&self) -> Seq<(Seq<char>, Seq<char>)> {
        opt_param("X-Consul-Token"@, self.token)
    }

    open spec fn timeout_spec(&self) -> Option<Duration> {
        self.timeout
    }

    fn query_pairs(&self) -> (r: Vec<(String, String)>) {
        let mut pairs: Vec<(String, String)> = Vec::new();
        push_opt(&mut pairs, "ns", &self.namespace);
        push_opt(&mut pairs, "dc", &self.datacenter);
        push_relay(&mut pairs, self.relay_factor);
        assert(pairs_view(pairs@) =~= write_option_params(*self));
        pairs
    }

    fn header_pairs(&self) -> (r: Vec<(String, String)>) {
        let mut pairs: Vec<(String, String)> = Vec::new();
        push_opt(&mut pairs, "X-Consul-Token", &self.token);
        assert(pairs_view(pairs@) =~= opt_param("X-Consul-Token"@, self.token));
        pairs
    }

    fn as_timeout(&self) -> (r: Option<Duration>) {
        self.timeout
    }
}

/// Options specific to query operations.
#[derive(Clone, Debug)]
pub struct QueryOptions {
    /// Namespace to execute this operation against.
    pub namespace: Option<String>,
    /// Datacenter to execute this operation against.
    pub datacenter: Option<String>,
    /// Token to use for this operation.
    pub token: Option<String>,
    /// Consistency level for this operation.
    pub consistency: Option<Consistency>,
    /// Blocking condition for this operation.
    pub blocking: Option<Blocking>,
    /// How long the server may hold a blocking query; only used if `blocking` is set.
    pub blocking_timeout: Option<Duration>,
    /// Asks the agent to cache results locally; ignored under `Consistency::Consistent`.
    pub use_cache: bool,
    /// The oldest cached response that this operation accepts from the agent.
    pub cache_max_age: Option<Duration>,
    /// The oldest cached response that this operation accepts when a refresh has failed.
    pub cache_stale_if_error: Option<Duration>,
    /// Sort the results by network latency from this node.
    pub near: Option<String>,
    /// Only nodes with these metadata entries, each sent as its own parameter.
    pub node_meta: Option<Vec<(String, String)>>,
    /// Only nodes that have this tag.
    pub tag: Option<String>,
    /// A filter expression, forwarded verbatim.
    pub filtering: Option<String>,
    /// Number of other random nodes that relay keyring responses back (0 to 5, unchecked here).
    pub relay_factor: Option<u8>,
    /// Keep keyring queries to local servers.
    pub local_only: bool,
    /// Only include Connect-capable services and nodes.
    pub connect: bool,
    /// Timeout for this operation overall.
    pub timeout: Option<Duration>,
}

impl Default for QueryOptions {
    fn default() -> (r: QueryOptions)
        ensures
            r == query_options_default(),
    {
        QueryOptions {
            namespace: None,
            datacenter: None,
            token: None,
            consistency: None,
            blocking: None,
            blocking_timeout: None,
            use_cache: false,
            cache_max_age: None,
            cache_stale_if_error: None,
            near: None,
            node_meta: None,
            tag: None,
            filtering: None,
            relay_factor: None,
            local_only: false,
            connect: false,
            timeout: None,
        }
    }
}

/// Query options with every field absent or false.
pub open spec fn query_options_default() -> QueryOptions {
    QueryOptions {
        namespace: None,
        datacenter: None,
        token: None,
        consistency: None,
        blocking: None,
        blocking_timeout: None,
        use_cache: false,
        cache_max_age: None,
        cache_stale_if_error: None,
        near: None,
        node_meta: None,
        tag: None,
        filtering: None,
        relay_factor: None,
        local_only: false,
        connect: false,
        timeout: None,
    }
}

/// Caching may be asked for: it is enabled and the read is not fully consistent.
pub open spec fn cache_eligible(o: QueryOptions) -> bool {
    o.use_cache && o.consistency != Some(Consistency::Consistent)
}

/// The query parameters of query options, in their fixed order.
pub open spec fn query_option_params(o: QueryOptions) -> Seq<(Seq<char>, Seq<char>)> {
    opt_param("ns"@, o.namespace)
        + opt_param("dc"@, o.datacenter)
        + consistency_param(o.consistency)
        + blocking_params(o.blocking, o.blocking_timeout)
        + opt_param("near"@, o.near)
        + node_meta_params(o.node_meta)
        + opt_param("tag"@, o.tag)
        + opt_param("filter"@, o.filtering)
        + relay_param(o.relay_factor)
        + flag_param("local-only"@, o.local_only)
        + flag_param("connect"@, o.connect)
        + (if cache_eligible(o) { seq![("cached"@, "1"@)] } else { seq![] })
}

/// A `Cache-Control` component, present only for a span of at least one second.
pub open spec fn cache_part(prefix: Seq<char>, d: Option<Duration>) -> Seq<Seq<char>> {
    match d {
        Some(d) => if d.secs > 0 { seq![prefix + decimal(d.secs as nat)] } else { seq![] },
        None => seq![],
    }
}

/// The components of the `Cache-Control` header.
pub open spec fn cache_control_parts(o: QueryOptions) -> Seq<Seq<char>> {
    cache_part("max-age="@, o.cache_max_age) + cache_part("stale-if-error="@, o.cache_stale_if_error)
}

/// The request headers of query options: the token, then `Cache-Control` when caching may be
/// asked for and it has at least one component.
pub open spec fn query_option_headers(o: QueryOptions) -> Seq<(Seq<char>, Seq<char>)> {
    opt_param("X-Consul-Token"@, o.token) + if cache_eligible(o) && cache_control_parts(o).len() > 0 {
        seq![("Cache-Control"@, join(cache_control_parts(o), ", "@))]
    } else {
        seq![]
    }
}

fn push_consistency(v: &mut Vec<(String, String)>, c: Option<Consistency>)
    ensures
        pairs_view(final(v)@) == pairs_view(old(v)@) + consistency_param(c),
{
    match c {
        Some(Consistency::Consistent) => push_pair(v, "consistent", String::from_str("1")),
        Some(Consistency::Stale) => push_pair(v, "stale", String::from_str("1")),
        None => assert(pairs_view(v@) =~= pairs_view(old(v)@) + consistency_param(c)),
    }
}

fn push_blocking(v: &mut Vec<(String, String)>, b: &Option<Blocking>, t: Option<Duration>)
    ensures
        pairs_view(final(v)@) == pairs_view(old(v)@) + blocking_params(*b, t),
{
    match b {
        Some(blocking) => {
            let ghost mid;
            match blocking {
                Blocking::Index(idx) => {
                    let mut s = String::new();
                    push_decimal(&mut s, *idx as u128);
                    assert(s@ =~= decimal(*idx as nat));
                    push_pair(v, "index", s);
                    proof { mid = seq![("index"@, decimal(*idx as nat))]; }
                },
                Blocking::Hash(hash) => {
                    push_pair(v, "hash", hash.clone());
                    proof { mid = seq![("hash"@, hash@)]; }
                },
            }
            let ghost before_wait = pairs_view(v@);
            match t {
                Some(d) => {
                    let mut s = String::new();
                    push_decimal(&mut s, d.as_millis());
                    s.append("ms");
                    push_pair(v, "wait", s);
                },
                None => {},
            }
            assert(pairs_view(v@) =~= before_wait + wait_param(t));
            assert(pairs_view(v@) =~= pairs_view(old(v)@) + blocking_params(*b, t));
        },
        None => assert(pairs_view(v@) =~= pairs_view(old(v)@) + blocking_params(*b, t)),
    }
}

fn push_node_meta(v: &mut Vec<(String, String)>, m: &Option<Vec<(String, String)>>)
    ensures
        pairs_view(final(v)@) == pairs_view(old(v)@) + node_meta_params(*m),
{
    match m {
        Some(entries) => {
            let ghost base = pairs_view(v@);
            let mut i: usize = 0;
            while i < entries.len()
                invariant
                    i <= entries.len(),
                    pairs_view(v@) == base + entries@.subrange(0, i as int).map_values(|e: (String, String)| meta_param(e)),
                decreases entries.len() - i,
            {
                let mut s = entries[i].0.clone();
                s.append(":");
                s.append(entries[i].1.as_str());
                assert(s@ =~= entries@[i as int].0@ + ":"@ + entries@[i as int].1@);
                push_pair(v, "node-meta[]", s);
                assert(entries@.subrange(0, i + 1).map_values(|e: (String, String)| meta_param(e))
                    =~= entries@.subrange(0, i as int).map_values(|e: (String, String)| meta_param(e)).push(meta_param(entries@[i as int])));
                assert(pairs_view(v@) =~= base + entries@.subrange(0, i + 1).map_values(|e: (String, String)| meta_param(e)));
                i = i + 1;
            }
            assert(entries@.subrange(0, i as int) =~= entries@);
        },
        None => assert(pairs_view(v@) =~= pairs_view(old(v)@) + node_meta_params(*m)),
    }
}

fn push_cache_part(parts: &mut Vec<String>, prefix: &str, d: Option<Duration>)
    ensures
        string_views(final(parts)@) == string_views(old(parts)@) + cache_part(prefix@, d),
{
    match d {
        Some(d) => {
            if d.as_secs() > 0 {
                let mut s = String::from_str(prefix);
                push_decimal(&mut s, d.as_secs() as u128);
                parts.push(s);
            }
        },
        None => {},
    }
    assert(string_views(parts@) =~= string_views(old(parts)@) + cache_part(prefix@, d));
}

impl RequestOptions for QueryOptions {
    open spec fn query_params(&self) -> Seq<(Seq<char>, Seq<char>)> {
        query_option_params(*self)
    }

    open spec fn header_params(&self) -> Seq<(Seq<char>, Seq<char>)> {
        query_option_headers(*self)
    }

    open spec fn timeout_spec(&self) -> Option<Duration> {
        self.timeout
    }

    fn query_pairs(&self) -> (r: Vec<(String, String)>) {
        let mut pairs: Vec<(String, String)> = Vec::new();
        push_opt(&mut pairs, "ns", &self.namespace);
        push_opt(&mut pairs, "dc", &self.datacenter);
        push_consistency(&mut pairs, self.consistency);
        push_blocking(&mut pairs, &self.blocking, self.blocking_timeout);
        push_opt(&mut pairs, "near", &self.near);
        push_node_meta(&mut pairs, &self.node_meta);
        push_opt(&mut pairs, "tag", &self.tag);
        push_opt(&mut pairs, "filter", &self.filtering);
        push_relay(&mut pairs, self.relay_factor);
        push_flag(&mut pairs, "local-only", self.local_only);
        push_flag(&mut pairs, "connect", self.connect);
        if self.cache_allowed() {
            push_pair(&mut pairs, "cached", String::from_str("1"));
        }
        assert(pairs_view(pairs@) =~= query_option_params(*self));
        pairs
    }

    fn header_pairs(&self) -> (r: Vec<(String, String)>) {
        let mut pairs: Vec<(String, String)> = Vec::new();
        push_opt(&mut pairs, "X-Consul-Token", &self.token);
        if self.cache_allowed() {
            let mut parts: Vec<String> = Vec::new();
            push_cache_part(&mut parts, "max-age=", self.cache_max_age);
            push_cache_part(&mut parts, "stale-if-error=", self.cache_stale_if_error);
            assert(string_views(parts@) =~= cache_control_parts(*self));
            if parts.len() > 0 {
                let value = join_strings(&parts, ", ");
                push_pair(&mut pairs, "Cache-Control", value);
            }
        }
        assert(pairs_view(pairs@) =~= query_option_headers(*self));
        pairs
    }

    fn as_timeout(&self) -> (r: Option<Duration>) {
        self.timeout
    }
}

impl QueryOptions {
    /// Whether caching may be asked for: it is enabled and the read is not fully consistent.
    pub fn cache_allowed(&self) -> (r: bool)
        ensures
            r == cache_eligible(*self),
    {
        self.use_cache && match self.consistency {
            Some(Consistency::Consistent) => false,
            _ => true,
        }
    }
}

/// Metadata about the request returned from a query operation.
#[derive(Debug)]
pub struct QueryMetadata {
    /// The Consul index for the data in this response.
    pub last_index: Option<u64>,
    /// The Consul content hash for the data in this response.
    pub last_content_hash: Option<String>,
    /// Whether or not the cluster has a known leader.
    pub known_leader: bool,
    /// Time since the server that serviced this request has contacted the leader.
    pub last_contact: Duration,
    /// Whether or not the agent translates addresses in HTTP responses.
    pub addr_translate_enabled: bool,
    /// Whether or not this response was served from the agent's local cache.
    pub cache_hit: bool,
    /// The age of the cache value, if served from cache.
    pub cache_age: Option<Duration>,
}

impl Default for QueryMetadata {
    fn default() -> (r: QueryMetadata)
        ensures
            r.last_index is None,
            r.last_content_hash is None,
            !r.known_leader,
            r.last_contact == (Duration { secs: 0, nanos: 0 }),
            !r.addr_translate_enabled,
            !r.cache_hit,
            r.cache_age is None,
    {
        QueryMetadata {
            last_index: None,
            last_content_hash: None,
            known_leader: false,
            last_contact: Duration { secs: 0, nanos: 0 },
            addr_translate_enabled: false,
            cache_hit: false,
            cache_age: None,
        }
    }
}

/// The blocking condition that the next request carries after a response with this metadata:
/// the content hash if there is one, else the index if there is one, else none.
pub open spec fn next_blocking(m: QueryMetadata) -> Option<Blocking> {
    match m.last_content_hash {
        Some(h) => Some(Blocking::Hash(h)),
        None => match m.last_index {
            Some(i) => Some(Blocking::Index(i)),
            None => None,
        },
    }
}

impl QueryMetadata {
    /// The blocking condition for the next request of a watch.
    pub fn as_blocking(&self) -> (r: Option<Blocking>)
        ensures
            r == next_blocking(*self),
    {
        if let Some(last_content_hash) = &self.last_content_hash {
            return Some(Blocking::Hash(last_content_hash.clone()));
        }
        if let Some(last_index) = self.last_index {
            return Some(Blocking::Index(last_index));
        }
        None
    }
}

/// A present header whose value is not text, or not an unsigned 64-bit integer.
pub open spec fn numeric_bad(h: Seq<(String, Vec<u8>)>, name: Seq<char>) -> bool {
    match header_lookup(h, name) {
        Some(v) => !all_visible(v) || parse_u64_spec(v) is None,
        None => false,
    }
}

/// A present header whose value is not text.
pub open spec fn text_bad(h: Seq<(String, Vec<u8>)>, name: Seq<char>) -> bool {
    match header_lookup(h, name) {
        Some(v) => !all_visible(v),
        None => false,
    }
}

/// The number that a header holds, if present and well formed.
pub open spec fn numeric_value(h: Seq<(String, Vec<u8>)>, name: Seq<char>) -> Option<u64> {
    match header_lookup(h, name) {
        Some(v) => parse_u64_spec(v),
        None => None,
    }
}

/// The bytes of the word `true`.
pub open spec fn true_bytes() -> Seq<u8> {
    seq![116u8, 114u8, 117u8, 101u8]
}

/// A header holds exactly `true`.
pub open spec fn header_true(h: Seq<(String, Vec<u8>)>, name: Seq<char>) -> bool {
    header_lookup(h, name) == Some(true_bytes())
}

/// An ASCII byte in lower case.
pub open spec fn lower_byte(b: u8) -> u8 {
    if 65 <= b <= 90 { (b + 32) as u8 } else { b }
}

/// The value reads `true` in any mix of ASCII case.
pub open spec fn is_true_ignore_case(v: Seq<u8>) -> bool {
    v.len() == 4 && lower_byte(v[0]) == 116 && lower_byte(v[1]) == 114 && lower_byte(v[2]) == 117
        && lower_byte(v[3]) == 101
}

/// The name, if the header it names is malformed.
pub open spec fn bad_name(name: Seq<char>, bad: bool) -> Seq<Seq<char>> {
    if bad { seq![name] } else { seq![] }
}

/// The names of every present header whose value fails to parse, in a fixed order.
pub open spec fn malformed_headers(h: Seq<(String, Vec<u8>)>) -> Seq<Seq<char>> {
    bad_name("X-Consul-Index"@, numeric_bad(h, "X-Consul-Index"@))
        + bad_name("X-Consul-ContentHash"@, text_bad(h, "X-Consul-ContentHash"@))
        + bad_name("X-Consul-KnownLeader"@, text_bad(h, "X-Consul-KnownLeader"@))
        + bad_name("X-Consul-Translate-Addresses"@, text_bad(h, "X-Consul-Translate-Addresses"@))
        + bad_name("X-Cache"@, text_bad(h, "X-Cache"@))
        + bad_name("Age"@, numeric_bad(h, "Age"@))
}

/// The content hash of a response, taken verbatim.
pub open spec fn content_hash(h: Seq<(String, Vec<u8>)>) -> Option<Seq<char>> {
    match header_lookup(h, "X-Consul-ContentHash"@) {
        Some(v) => Some(ascii_chars(v)),
        None => None,
    }
}

/// The character sequence of an optional string.
pub open spec fn opt_view(s: Option<String>) -> Option<Seq<char>> {
    match s {
        Some(x) => Some(x@),
        None => None,
    }
}

/// The metadata agrees with the headers of a response that has no malformed header.
pub open spec fn metadata_of(h: Seq<(String, Vec<u8>)>, m: QueryMetadata) -> bool {
    &&& m.last_index == numeric_value(h, "X-Consul-Index"@)
    &&& opt_view(m.last_content_hash) == content_hash(h)
    &&& m.known_leader == header_true(h, "X-Consul-KnownLeader"@)
    &&& m.last_contact == (Duration { secs: 0, nanos: 0 })
    &&& m.addr_translate_enabled == header_true(h, "X-Consul-Translate-Addresses"@)
    &&& m.cache_hit == match header_lookup(h, "X-Cache"@) {
        Some(v) => is_true_ignore_case(v),
        None => false,
    }
    &&& m.cache_age == match numeric_value(h, "Age"@) {
        Some(n) => Some(Duration { secs: n, nanos: 0 }),
        None => None,
    }
}

fn note_bad(errors: &mut Vec<&'static str>, name: &'static str, bad: bool)
    ensures
        str_views(final(errors)@) == str_views(old(errors)@) + bad_name(name@, bad),
{
    if bad {
        errors.push(name);
    }
    assert(str_views(errors@) =~= str_views(old(errors)@) + bad_name(name@, bad));
}

fn read_numeric(h: &Vec<(String, Vec<u8>)>, name: &str) -> (r: (bool, Option<u64>))
    ensures
        r.0 == numeric_bad(h@, name@),
        !r.0 ==> r.1 == numeric_value(h@, name@),
{
    match find_header(h, name) {
        Some(i) => {
            let v = h[i].1.as_slice();
            if !check_visible(v) {
                return (true, None);
            }
            match parse_u64(v) {
                Some(n) => (false, Some(n)),
                None => (true, None),
            }
        },
        None => (false, None),
    }
}

fn find_text(h: &Vec<(String, Vec<u8>)>, name: &str) -> (r: (bool, Option<usize>))
    ensures
        r.0 == text_bad(h@, name@),
        match r.1 {
            Some(i) => i < h@.len() && header_lookup(h@, name@) == Some(h@[i as int].1@)
                && all_visible(h@[i as int].1@),
            None => r.0 || header_lookup(h@, name@) is None,
        },
{
    match find_header(h, name) {
        Some(i) => {
            if check_visible(h[i].1.as_slice()) {
                (false, Some(i))
            } else {
                (true, None)
            }
        },
        None => (false, None),
    }
}

fn bytes_are_true(v: &Vec<u8>) -> (r: bool)
    ensures
        r == (v@ == true_bytes()),
{
    let ok = v.len() == 4 && v[0] == 116 && v[1] == 114 && v[2] == 117 && v[3] == 101;
    if ok {
        assert(v@ =~= true_bytes());
    }
    ok
}

fn lower_byte_exec(b: u8) -> (r: u8)
    ensures
        r == lower_byte(b),
{
    if 65 <= b && b <= 90 { b + 32 } else { b }
}

fn bytes_are_true_ignore_case(v: &Vec<u8>) -> (r: bool)
    ensures
        r == is_true_ignore_case(v@),
{
    v.len() == 4 && lower_byte_exec(v[0]) == 116 && lower_byte_exec(v[1]) == 114
        && lower_byte_exec(v[2]) == 117 && lower_byte_exec(v[3]) == 101
}

impl QueryMetadata {
    /// Reads the metadata of a response from its headers. Absent headers leave their field at its
    /// default; every present header that fails to parse is named in the error.
    pub fn from_headers(headers: &Vec<(String, Vec<u8>)>) -> (r: Result<QueryMetadata, ResponseError>)
        ensures
            match r {
                Ok(m) => malformed_headers(headers@).len() == 0 && metadata_of(headers@, m),
                Err(e) => malformed_headers(headers@).len() > 0 && e is InvalidHeaders
                    && str_views(e->InvalidHeaders_0@) == malformed_headers(headers@),
            },
    {
        let mut meta = QueryMetadata::default();
        let mut errors: Vec<&'static str> = Vec::new();

        let (bad, index) = read_numeric(headers, "X-Consul-Index");
        note_bad(&mut errors, "X-Consul-Index", bad);
        meta.last_index = index;

        let (bad, found) = find_text(headers, "X-Consul-ContentHash");
        note_bad(&mut errors, "X-Consul-ContentHash", bad);
        if let Some(i) = found {
            meta.last_content_hash = Some(visible_to_string(headers[i].1.as_slice()));
        }

        let (bad, found) = find_text(headers, "X-Consul-KnownLeader");
        note_bad(&mut errors, "X-Consul-KnownLeader", bad);
        if let Some(i) = found {
            meta.known_leader = bytes_are_true(&headers[i].1);
        }

        let (bad, found) = find_text(headers, "X-Consul-Translate-Addresses");
        note_bad(&mut errors, "X-Consul-Translate-Addresses", bad);
        if let Some(i) = found {
            meta.addr_translate_enabled = bytes_are_true(&headers[i].1);
        }

        let (bad, found) = find_text(headers, "X-Cache");
        note_bad(&mut errors, "X-Cache", bad);
        if let Some(i) = found {
            meta.cache_hit = bytes_are_true_ignore_case(&headers[i].1);
        }

        let (bad, age) = read_numeric(headers, "Age");
        note_bad(&mut errors, "Age", bad);
        if let Some(secs) = age {
            meta.cache_age = Some(Duration::from_secs(secs));
        }

        assert(str_views(errors@) =~= malformed_headers(headers@));
        if errors.len() > 0 {
            Err(ResponseError::InvalidHeaders(errors))
        } else {
            Ok(meta)
        }
    }
}

} // verus!
