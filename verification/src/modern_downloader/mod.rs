//! Selection of the fastest reachable endpoint.

pub mod errors;

use self::errors::NoCdnError;
use crate::common::Downloader;
use vstd::prelude::*;
use vstd::string::*;

verus! {

/// The candidate endpoints, in the order in which they are probed.
pub open spec fn modern_cdn() -> Seq<Seq<char>> {
    seq![
        "https://setup.rbxcdn.com"@,
        "https://s3.amazonaws.com/setup.roblox.com"@,
        "https://setup-ak.rbxcdn.com"@,
        "https://setup-hw.rbxcdn.com"@,
        "https://setup-cfly.rbxcdn.com"@,
        "https://roblox-setup.cachefly.net"@,
    ]
}

/// The candidate endpoints.
pub fn candidates() -> (r: Vec<String>)
    ensures
        r@.len() == modern_cdn().len(),
        forall|i: int| 0 <= i < r@.len() ==> (#[trigger] r@[i])@ == modern_cdn()[i],
{
    let mut r: Vec<String> = Vec::new();
    r.push(String::from_str("https://setup.rbxcdn.com"));
    r.push(String::from_str("https://s3.amazonaws.com/setup.roblox.com"));
    r.push(String::from_str("https://setup-ak.rbxcdn.com"));
    r.push(String::from_str("https://setup-hw.rbxcdn.com"));
    r.push(String::from_str("https://setup-cfly.rbxcdn.com"));
    r.push(String::from_str("https://roblox-setup.cachefly.net"));
    r
}

/// What a probe of one endpoint gave: the time the answer took, in
/// nanoseconds, or nothing where the request failed or the answer was not a
/// plain success.
pub struct Probe {
    pub url: String,
    pub latency: Option<u128>,
}

/// The only status of an answer that counts as success.
pub const STATUS_OK: u16 = 200;

impl Probe {
    /// The outcome of a probe of `url` that ended after `elapsed` nanoseconds
    /// with an answer of the given status, or with none at all.
    pub fn new(url: String, status: Option<u16>, elapsed: u128) -> (p: Probe)
        ensures
            p.url == url,
            p.latency == if status == Some(STATUS_OK) {
                Some(elapsed)
            } else {
                None::<u128>
            },
    {
        let latency: Option<u128> = match status {
            Some(code) => if code == STATUS_OK {
                Some(elapsed)
            } else {
                None
            },
            None => None,
        };
        Probe { url, latency }
    }
}

/// Probe `k` succeeded, none succeeded faster, and none before it as fast.
pub open spec fn is_fastest(probes: Seq<Probe>, k: int) -> bool {
    &&& 0 <= k < probes.len()
    &&& probes[k].latency is Some
    &&& forall|j: int|
        0 <= j < probes.len() && (#[trigger] probes[j]).latency is Some
            ==> probes[k].latency.unwrap() <= probes[j].latency.unwrap()
    &&& forall|j: int|
        0 <= j < k && (#[trigger] probes[j]).latency is Some ==> probes[k].latency.unwrap()
            < probes[j].latency.unwrap()
}

/// No probe succeeded.
pub open spec fn none_reachable(probes: Seq<Probe>) -> bool {
    forall|j: int| 0 <= j < probes.len() ==> (#[trigger] probes[j]).latency is None
}

/// The fastest probe is one and no other: the choice does not depend on how
/// it is searched for.
pub proof fn lemma_fastest_is_unique(probes: Seq<Probe>, a: int, b: int)
    requires
        is_fastest(probes, a),
        is_fastest(probes, b),
    ensures
        a == b,
{
    if a < b {
        assert(probes[a].latency is Some);
    }
    if b < a {
        assert(probes[b].latency is Some);
    }
}

/// The position of the fastest successful probe among those given in the
/// order in which they finished; of two equally fast, the earlier.
pub fn fastest(probes: &Vec<Probe>) -> (r: Option<usize>)
    ensures
        match r {
            Some(k) => is_fastest(probes@, k as int),
            None => none_reachable(probes@),
        },
{
    let n: usize = probes.len();
    let mut best: Option<usize> = None;
    let mut i: usize = 0;
    while i < n
        invariant
            n == probes@.len(),
            i <= n,
            match best {
                Some(k) => k < i && is_fastest(probes@.subrange(0, i as int), k as int),
                None => none_reachable(probes@.subrange(0, i as int)),
            },
        decreases n - i,
    {
        let ghost seen = probes@.subrange(0, i as int);
        let ghost next = probes@.subrange(0, i + 1);
        assert(forall|j: int| 0 <= j < i ==> seen[j] == next[j]);
        assert(next[i as int] == probes@[i as int]);
        match probes[i].latency {
            None => {},
            Some(time) => {
                match best {
                    None => {
                        best = Some(i);
                    },
                    Some(k) => {
                        assert(seen[k as int] == probes@[k as int]);
                        match probes[k].latency {
                            Some(fastest_time) => {
                                if time < fastest_time {
                                    best = Some(i);
                                }
                            },
                            None => {},
                        }
                    },
                }
            },
        }
        i += 1;
    }
    assert(probes@.subrange(0, n as int) =~= probes@);
    best
}

/// The endpoint that answered fastest, if any answered.
pub fn find_fastest(probes: &Vec<Probe>) -> (r: Option<String>)
    ensures
        match r {
            Some(url) => exists|k: int| is_fastest(probes@, k) && url@ == probes@[k].url@,
            None => none_reachable(probes@),
        },
{
    match fastest(probes) {
        Some(k) => {
            let url = String::from_str(probes[k].url.as_str());
            assert(is_fastest(probes@, k as int) && url@ == probes@[k as int].url@);
            Some(url)
        },
        None => None,
    }
}

/// The distribution of the given version on the endpoint that answered
/// fastest, with its packages yet to be listed.
#[allow(non_snake_case)]
pub fn From(probes: &Vec<Probe>, version_hash: &str) -> (r: Result<Downloader, NoCdnError>)
    ensures
        match r {
            Ok(d) => {
                &&& exists|k: int| is_fastest(probes@, k) && d.cdn@ == probes@[k].url@
                &&& d.version_hash@ == version_hash@
                &&& d.roblox_packages@.len() == 0
            },
            Err(_) => none_reachable(probes@),
        },
{
    match find_fastest(probes) {
        Some(cdn) => Ok(
            Downloader {
                cdn: cdn,
                version_hash: String::from_str(version_hash),
                roblox_packages: Vec::new(),
            },
        ),
        None => Err(NoCdnError),
    }
}

} // verus!
