//! Configuration: the settings of a relay, with a default for each.

use vstd::prelude::*;
use vstd::string::StringExecFns;
use crate::group::names;
use crate::text::{char_from, find_char, lemma_char_from_range, lemma_char_from_skip, trim_bounds, trimmed};

verus! {

/// The settings of a relay.
#[derive(Clone, Debug, PartialEq, Eq)]
pub struct Config {
    /// The database connection string.
    pub database_url: String,
    /// The address that the HTTP server binds to.
    pub http_addr: String,
    /// The multiaddress that the peer-to-peer network listens on.
    pub p2p_listen: String,
    /// The gossip topics to subscribe to.
    pub gossip_topics: Vec<String>,
}

/// The topics of a comma-separated list: its parts, each trimmed, without the
/// empty ones.
pub open spec fn topics_of(csv: Seq<char>) -> Seq<Seq<char>>
    decreases csv.len(),
{
    let cut = char_from(csv, ',', 0);
    let head = trimmed(csv.take(cut));
    let rest = if 0 <= cut < csv.len() {
        topics_of(csv.skip(cut + 1))
    } else {
        Seq::empty()
    };
    if head.len() > 0 {
        seq![head] + rest
    } else {
        rest
    }
}

/// A setting, or its default where it is not set.
pub open spec fn setting(value: Option<String>, default: Seq<char>) -> Seq<char> {
    match value {
        Some(v) => v@,
        None => default,
    }
}

/// Splits a comma-separated list into its topics.
pub fn parse_topics(csv: &str) -> (topics: Vec<String>)
    ensures
        names(topics@) == topics_of(csv@),
{
    let len = csv.unicode_len();
    let mut topics: Vec<String> = Vec::new();
    let mut start: usize = 0;
    let mut done = false;
    assert(csv@.skip(0) =~= csv@);
    assert(names(topics@) + topics_of(csv@) =~= topics_of(csv@));
    while !done
        invariant
            start <= len,
            len == csv@.len(),
            !done ==> names(topics@) + topics_of(csv@.skip(start as int)) == topics_of(csv@),
            done ==> names(topics@) == topics_of(csv@),
        decreases len - start + (if done { 0int } else { 1int }),
    {
        let ghost rest = csv@.skip(start as int);
        let ghost before = names(topics@);
        let cut = find_char(csv, ',', start);
        proof {
            lemma_char_from_skip(csv@, ',', start as int, 0);
            lemma_char_from_range(rest, ',', 0);
            assert(rest.take(cut - start) =~= csv@.subrange(start as int, cut as int));
        }
        let (lo, hi) = trim_bounds(csv, start, cut);
        if hi > lo {
            let topic = String::from_str(csv.substring_char(lo, hi));
            topics.push(topic);
            assert(names(topics@) =~= before.push(topic@));
        }
        if cut < len {
            proof {
                assert(rest.skip(cut - start + 1) =~= csv@.skip(cut as int + 1));
                let tail = topics_of(csv@.skip(cut as int + 1));
                if hi > lo {
                    assert(names(topics@) + tail =~= before + (seq![names(topics@).last()] + tail));
                }
            }
            start = cut + 1;
        } else {
            proof {
                let nothing = Seq::<Seq<char>>::empty();
                if hi > lo {
                    assert(names(topics@) =~= before + (seq![names(topics@).last()] + nothing));
                } else {
                    assert(names(topics@) =~= before + nothing);
                }
            }
            done = true;
        }
    }
    topics
}

impl Config {
    /// The configuration for the given settings; a setting that is not set
    /// takes its default.
    pub fn from_values(
        database_url: Option<String>,
        http_addr: Option<String>,
        p2p_listen: Option<String>,
        gossip_topics: Option<String>,
    ) -> (config: Config)
        ensures
            config.database_url@ == setting(database_url, "sqlite:connexa.db"@),
            config.http_addr@ == setting(http_addr, "127.0.0.1:3000"@),
            config.p2p_listen@ == setting(p2p_listen, "/ip4/0.0.0.0/tcp/0"@),
            names(config.gossip_topics@) == topics_of(setting(gossip_topics, "connexa-cover-traffic"@)),
    {
        let database_url = match database_url {
            Some(v) => v,
            None => "sqlite:connexa.db".to_owned(),
        };
        let http_addr = match http_addr {
            Some(v) => v,
            None => "127.0.0.1:3000".to_owned(),
        };
        let p2p_listen = match p2p_listen {
            Some(v) => v,
            None => "/ip4/0.0.0.0/tcp/0".to_owned(),
        };
        let topics_csv = match gossip_topics {
            Some(v) => v,
            None => "connexa-cover-traffic".to_owned(),
        };
        let gossip_topics = parse_topics(topics_csv.as_str());
        Config { database_url, http_addr, p2p_listen, gossip_topics }
    }
}

} // verus!
