//! Properties of the parameter projection that hold for every options value.
use vstd::prelude::*;

use crate::common::{
    blocking_params, cache_eligible, consistency_param, flag_param, node_meta_params, opt_param,
    query_option_headers, query_option_params, relay_param, wait_param, Blocking, Consistency,
    QueryOptions,
};
use crate::common::{content_hash, metadata_of, next_blocking, numeric_value, opt_view, QueryMetadata};
use crate::http_client::{has_name, merged_query, not_overridden};
use crate::text::decimal;

verus! {

/// No pair of `s` has the name `k`.
pub open spec fn avoids(s: Seq<(Seq<char>, Seq<char>)>, k: Seq<char>) -> bool {
    forall|i: int| 0 <= i < s.len() ==> (#[trigger] s[i]).0 != k
}

/// The name of a blocking condition parameter.
pub open spec fn is_condition_name(k: Seq<char>) -> bool {
    k == "index"@ || k == "hash"@
}

/// No pair of `s` names a blocking condition.
pub open spec fn no_condition(s: Seq<(Seq<char>, Seq<char>)>) -> bool {
    avoids(s, "index"@) && avoids(s, "hash"@)
}

proof fn lemma_concat(a: Seq<(Seq<char>, Seq<char>)>, b: Seq<(Seq<char>, Seq<char>)>, k: Seq<char>)
    requires
        avoids(a, k),
        avoids(b, k),
    ensures
        avoids(a + b, k),
{
    assert forall|i: int| 0 <= i < (a + b).len() implies (#[trigger] (a + b)[i]).0 != k by {
        if i < a.len() {
            assert((a + b)[i] == a[i]);
        } else {
            assert((a + b)[i] == b[i - a.len()]);
        }
    }
}

proof fn lemma_opt(key: Seq<char>, v: Option<String>, k: Seq<char>)
    requires
        key != k,
    ensures
        avoids(opt_param(key, v), k),
        avoids(flag_param(key, v is Some), k),
{
}

proof fn lemma_components(o: QueryOptions, k: Seq<char>)
    requires
        k == "index"@ || k == "hash"@ || k == "cached"@,
    ensures
        avoids(params_before(o), k),
        avoids(params_after(o), k),
        avoids(wait_param(o.blocking_timeout), k),
        k != "cached"@ ==> avoids(cache_flag(o), k),
        k == "cached"@ ==> avoids(blocking_params(o.blocking, o.blocking_timeout), k),
{
    reveal_names();
    lemma_opt("ns"@, o.namespace, k);
    lemma_opt("dc"@, o.datacenter, k);
    let c = consistency_param(o.consistency);
    assert(avoids(c, k));
    lemma_concat(opt_param("ns"@, o.namespace), opt_param("dc"@, o.datacenter), k);
    lemma_concat(opt_param("ns"@, o.namespace) + opt_param("dc"@, o.datacenter), c, k);
    let m = node_meta_params(o.node_meta);
    assert forall|i: int| 0 <= i < m.len() implies (#[trigger] m[i]).0 != k by {
        match o.node_meta {
            Some(v) => assert(m[i].0 == "node-meta[]"@),
            None => {},
        }
    }
    lemma_opt("near"@, o.near, k);
    lemma_opt("tag"@, o.tag, k);
    lemma_opt("filter"@, o.filtering, k);
    let r = relay_param(o.relay_factor);
    assert(avoids(r, k));
    let l = flag_param("local-only"@, o.local_only);
    let n = flag_param("connect"@, o.connect);
    assert(avoids(l, k));
    assert(avoids(n, k));
    let a1 = opt_param("near"@, o.near) + m;
    lemma_concat(opt_param("near"@, o.near), m, k);
    let a2 = a1 + opt_param("tag"@, o.tag);
    lemma_concat(a1, opt_param("tag"@, o.tag), k);
    let a3 = a2 + opt_param("filter"@, o.filtering);
    lemma_concat(a2, opt_param("filter"@, o.filtering), k);
    let a4 = a3 + r;
    lemma_concat(a3, r, k);
    let a5 = a4 + l;
    lemma_concat(a4, l, k);
    lemma_concat(a5, n, k);
    let w = wait_param(o.blocking_timeout);
    assert(avoids(w, k));
    if k == "cached"@ {
        match o.blocking {
            Some(Blocking::Index(i)) => lemma_concat(seq![("index"@, decimal(i as nat))], w, k),
            Some(Blocking::Hash(h)) => lemma_concat(seq![("hash"@, h@)], w, k),
            None => {},
        }
    } else {
        assert(avoids(cache_flag(o), k));
    }
}

proof fn reveal_names()
    ensures
        "ns"@ == seq!['n', 's'],
        "dc"@ == seq!['d', 'c'],
        "consistent"@ == seq!['c', 'o', 'n', 's', 'i', 's', 't', 'e', 'n', 't'],
        "stale"@ == seq!['s', 't', 'a', 'l', 'e'],
        "index"@ == seq!['i', 'n', 'd', 'e', 'x'],
        "hash"@ == seq!['h', 'a', 's', 'h'],
        "wait"@ == seq!['w', 'a', 'i', 't'],
        "near"@ == seq!['n', 'e', 'a', 'r'],
        "node-meta[]"@ == seq!['n', 'o', 'd', 'e', '-', 'm', 'e', 't', 'a', '[', ']'],
        "tag"@ == seq!['t', 'a', 'g'],
        "filter"@ == seq!['f', 'i', 'l', 't', 'e', 'r'],
        "relay-factor"@ == seq!['r', 'e', 'l', 'a', 'y', '-', 'f', 'a', 'c', 't', 'o', 'r'],
        "local-only"@ == seq!['l', 'o', 'c', 'a', 'l', '-', 'o', 'n', 'l', 'y'],
        "connect"@ == seq!['c', 'o', 'n', 'n', 'e', 'c', 't'],
        "cached"@ == seq!['c', 'a', 'c', 'h', 'e', 'd'],
        "X-Consul-Token"@ == seq!['X', '-', 'C', 'o', 'n', 's', 'u', 'l', '-', 'T', 'o', 'k', 'e', 'n'],
        "Cache-Control"@ == seq!['C', 'a', 'c', 'h', 'e', '-', 'C', 'o', 'n', 't', 'r', 'o', 'l'],
{
    reveal_strlit("ns");
    reveal_strlit("dc");
    reveal_strlit("consistent");
    reveal_strlit("stale");
    reveal_strlit("index");
    reveal_strlit("hash");
    reveal_strlit("wait");
    reveal_strlit("near");
    reveal_strlit("node-meta[]");
    reveal_strlit("tag");
    reveal_strlit("filter");
    reveal_strlit("relay-factor");
    reveal_strlit("local-only");
    reveal_strlit("connect");
    reveal_strlit("cached");
    reveal_strlit("X-Consul-Token");
    reveal_strlit("Cache-Control");
}

/// The parameters before the blocking condition.
spec fn params_before(o: QueryOptions) -> Seq<(Seq<char>, Seq<char>)> {
    opt_param("ns"@, o.namespace) + opt_param("dc"@, o.datacenter) + consistency_param(o.consistency)
}

/// The parameters after the blocking condition, but for the cache flag.
spec fn params_after(o: QueryOptions) -> Seq<(Seq<char>, Seq<char>)> {
    opt_param("near"@, o.near) + node_meta_params(o.node_meta) + opt_param("tag"@, o.tag)
        + opt_param("filter"@, o.filtering) + relay_param(o.relay_factor)
        + flag_param("local-only"@, o.local_only) + flag_param("connect"@, o.connect)
}

spec fn cache_flag(o: QueryOptions) -> Seq<(Seq<char>, Seq<char>)> {
    if cache_eligible(o) { seq![("cached"@, "1"@)] } else { seq![] }
}

proof fn lemma_assoc(
    a: Seq<(Seq<char>, Seq<char>)>,
    b: Seq<(Seq<char>, Seq<char>)>,
    c: Seq<(Seq<char>, Seq<char>)>,
)
    ensures
        a + (b + c) == (a + b) + c,
{
    assert(a + (b + c) =~= (a + b) + c);
}

proof fn lemma_split(o: QueryOptions)
    ensures
        query_option_params(o) == params_before(o) + blocking_params(o.blocking, o.blocking_timeout)
            + params_after(o) + cache_flag(o),
{
    let x = params_before(o) + blocking_params(o.blocking, o.blocking_timeout);
    let t1 = opt_param("near"@, o.near);
    let t2 = node_meta_params(o.node_meta);
    let t3 = opt_param("tag"@, o.tag);
    let t4 = opt_param("filter"@, o.filtering);
    let t5 = relay_param(o.relay_factor);
    let t6 = flag_param("local-only"@, o.local_only);
    let t7 = flag_param("connect"@, o.connect);
    lemma_assoc(x, t1, t2);
    lemma_assoc(x, t1 + t2, t3);
    lemma_assoc(x, t1 + t2 + t3, t4);
    lemma_assoc(x, t1 + t2 + t3 + t4, t5);
    lemma_assoc(x, t1 + t2 + t3 + t4 + t5, t6);
    lemma_assoc(x, t1 + t2 + t3 + t4 + t5 + t6, t7);
    assert(params_after(o) == t1 + t2 + t3 + t4 + t5 + t6 + t7);
}

/// A fully consistent read never asks for caching: whatever `use_cache` says, the parameters
/// hold no `cached` pair and the headers no `Cache-Control` header.
pub proof fn consistent_reads_skip_cache(o: QueryOptions)
    requires
        o.consistency == Some(Consistency::Consistent),
        o.use_cache,
    ensures
        avoids(query_option_params(o), "cached"@),
        avoids(query_option_headers(o), "Cache-Control"@),
{
    reveal_names();
    lemma_split(o);
    lemma_components(o, "cached"@);
    assert(cache_flag(o) =~= seq![]);
    let blk = blocking_params(o.blocking, o.blocking_timeout);
    lemma_concat(params_before(o), blk, "cached"@);
    lemma_concat(params_before(o) + blk, params_after(o), "cached"@);
    lemma_concat(params_before(o) + blk + params_after(o), cache_flag(o), "cached"@);
    let h = query_option_headers(o);
    assert(h =~= opt_param("X-Consul-Token"@, o.token));
    lemma_opt("X-Consul-Token"@, o.token, "Cache-Control"@);
}

/// A request with a blocking condition names exactly one: a single parameter is `index` or
/// `hash`, and it is the one that the condition's kind calls for, with its value.
pub proof fn blocking_condition_is_single(o: QueryOptions)
    requires
        o.blocking is Some,
    ensures
        exists|i: int|
            0 <= i < query_option_params(o).len() && is_condition_name(#[trigger] query_option_params(o)[i].0),
        forall|i: int, j: int|
            0 <= i < query_option_params(o).len() && 0 <= j < query_option_params(o).len()
                && is_condition_name(#[trigger] query_option_params(o)[i].0)
                && is_condition_name(#[trigger] query_option_params(o)[j].0) ==> i == j,
        o.blocking matches Some(Blocking::Hash(h)) ==> query_option_params(o).contains(("hash"@, h@))
            && avoids(query_option_params(o), "index"@),
        o.blocking matches Some(Blocking::Index(n)) ==> query_option_params(o).contains(("index"@, decimal(n as nat)))
            && avoids(query_option_params(o), "hash"@),
{
    reveal_names();
    lemma_split(o);
    lemma_components(o, "index"@);
    lemma_components(o, "hash"@);
    let s = query_option_params(o);
    let pre = params_before(o);
    let blk = blocking_params(o.blocking, o.blocking_timeout);
    let w = wait_param(o.blocking_timeout);
    let post = params_after(o) + cache_flag(o);
    assert(s =~= pre + blk + post);
    lemma_concat(params_after(o), cache_flag(o), "index"@);
    lemma_concat(params_after(o), cache_flag(o), "hash"@);
    let c = pre.len() as int;
    assert(blk.len() >= 1);
    assert(!is_condition_name(blk[0].0) ==> false) by {
        match o.blocking {
            Some(Blocking::Index(_)) => {},
            Some(Blocking::Hash(_)) => {},
            None => {},
        }
    }
    assert(s[c] == blk[0]);
    assert forall|i: int| 0 <= i < s.len() && is_condition_name(#[trigger] s[i].0) implies i == c by {
        if i < c {
            assert(s[i] == pre[i]);
        } else if i < c + blk.len() {
            if i > c {
                assert(s[i] == blk[i - c]);
                assert(blk[i - c] == w[i - c - 1]);
            }
        } else {
            assert(s[i] == post[i - c - blk.len()]);
        }
    }
    assert forall|i: int| 0 <= i < s.len() && (#[trigger] s[i]).0 == "index"@ implies s[c].0 == "index"@ by {
        assert(is_condition_name(s[i].0));
    }
    assert forall|i: int| 0 <= i < s.len() && (#[trigger] s[i]).0 == "hash"@ implies s[c].0 == "hash"@ by {
        assert(is_condition_name(s[i].0));
    }
    match o.blocking {
        Some(Blocking::Hash(h)) => {
            assert(s[c] == ("hash"@, h@));
            assert(s.contains(("hash"@, h@)));
        },
        Some(Blocking::Index(n)) => {
            assert(s[c] == ("index"@, decimal(n as nat)));
            assert(s.contains(("index"@, decimal(n as nat))));
        },
        None => {},
    }
}

/// The condition that a watch carries out of a response prefers the content hash over the index:
/// with a content hash header it is that hash, verbatim; without one it is the index, if the
/// response has one; else there is none.
pub proof fn hash_takes_precedence(h: Seq<(String, Vec<u8>)>, m: QueryMetadata)
    requires
        metadata_of(h, m),
    ensures
        content_hash(h) is Some ==> (next_blocking(m) matches Some(Blocking::Hash(s))
            && Some(s@) == content_hash(h)),
        content_hash(h) is None ==> next_blocking(m) == match numeric_value(h, "X-Consul-Index"@) {
            Some(n) => Some(Blocking::Index(n)),
            None => None,
        },
{
    assert(opt_view(m.last_content_hash) == content_hash(h));
}

proof fn lemma_not_overridden(e: Seq<(Seq<char>, Seq<char>)>, p: Seq<(Seq<char>, Seq<char>)>)
    ensures
        forall|i: int| 0 <= i < not_overridden(e, p).len() ==> !has_name(p, (#[trigger] not_overridden(e, p)[i]).0),
        forall|i: int| 0 <= i < e.len() && !has_name(p, (#[trigger] e[i]).0) ==> not_overridden(e, p).contains(e[i]),
    decreases e.len(),
{
    if e.len() > 0 {
        let d = e.drop_last();
        lemma_not_overridden(d, p);
        let prev = not_overridden(d, p);
        let cur = not_overridden(e, p);
        assert forall|i: int| 0 <= i < cur.len() implies !has_name(p, (#[trigger] cur[i]).0) by {
            if i < prev.len() {
                assert(cur[i] == prev[i]);
            }
        }
        assert forall|i: int| 0 <= i < e.len() && !has_name(p, (#[trigger] e[i]).0) implies cur.contains(e[i]) by {
            if i < e.len() - 1 {
                assert(d[i] == e[i]);
                let k = choose|k: int| 0 <= k < prev.len() && prev[k] == d[i];
                assert(cur[k] == prev[k]);
            } else {
                assert(cur[prev.len() as int] == e[i]);
            }
        }
    }
}

/// An operation's parameters take the place of the endpoint's of the same name: every pair of the
/// operation is in the merge; a merged pair whose name the operation uses is one of the
/// operation's; and every endpoint pair with a name that the operation does not use is kept.
pub proof fn operation_pairs_override(e: Seq<(Seq<char>, Seq<char>)>, p: Seq<(Seq<char>, Seq<char>)>)
    ensures
        forall|j: int| 0 <= j < p.len() ==> merged_query(e, p).contains(#[trigger] p[j]),
        forall|i: int| 0 <= i < merged_query(e, p).len() && has_name(p, (#[trigger] merged_query(e, p)[i]).0)
            ==> p.contains(merged_query(e, p)[i]),
        forall|i: int| 0 <= i < e.len() && !has_name(p, (#[trigger] e[i]).0) ==> merged_query(e, p).contains(e[i]),
{
    lemma_not_overridden(e, p);
    let k = not_overridden(e, p);
    let m = merged_query(e, p);
    assert forall|j: int| 0 <= j < p.len() implies m.contains(#[trigger] p[j]) by {
        assert(m[k.len() + j] == p[j]);
    }
    assert forall|i: int| 0 <= i < m.len() && has_name(p, (#[trigger] m[i]).0) implies p.contains(m[i]) by {
        if i < k.len() {
            assert(m[i] == k[i]);
        } else {
            assert(m[i] == p[i - k.len()]);
        }
    }
    assert forall|i: int| 0 <= i < e.len() && !has_name(p, (#[trigger] e[i]).0) implies m.contains(e[i]) by {
        let j = choose|j: int| 0 <= j < k.len() && k[j] == e[i];
        assert(m[j] == k[j]);
    }
}

} // verus!
