//! The settings the server starts with: who may call it from a browser, and
//! where it listens.

use crate::text::{split, split_on, texts};
use vstd::prelude::*;

verus! {

/// One origin as the server allows it: the listed host under https where
/// the server is secure, else under http.
pub open spec fn origin_of(host: Seq<char>, secure: bool) -> Seq<char> {
    if secure {
        "https://"@ + host
    } else {
        "http://"@ + host
    }
}

/// The origins that a list of hosts with commas between them stands for.
pub open spec fn origins_of(listed: Seq<char>, secure: bool) -> Seq<Seq<char>> {
    Seq::new(
        split_on(listed, ',').len(),
        |i: int| origin_of(split_on(listed, ',')[i], secure),
    )
}

/// Computes [`origins_of`].
pub fn allowed_origins(listed: &str, secure: bool) -> (origins: Vec<String>)
    ensures
        texts(origins@) == origins_of(listed@, secure),
{
    let hosts = split(listed, ',');
    let mut origins: Vec<String> = Vec::new();
    let mut i: usize = 0;
    while i < hosts.len()
        invariant
            i <= hosts.len(),
            texts(hosts@) == split_on(listed@, ','),
            origins@.len() == i,
            forall|j: int| 0 <= j < i ==> origins@[j]@ == origin_of(hosts@[j]@, secure),
        decreases hosts.len() - i,
    {
        let mut origin = if secure {
            String::from_str("https://")
        } else {
            String::from_str("http://")
        };
        origin.append(hosts[i].as_str());
        origins.push(origin);
        i += 1;
    }
    proof {
        assert forall|j: int| 0 <= j < hosts@.len() implies split_on(listed@, ',')[j]
            == hosts@[j]@ by {
            assert(texts(hosts@)[j] == hosts@[j]@);
        }
        assert(texts(origins@) =~= origins_of(listed@, secure));
    }
    origins
}

/// Whether the server runs for development, and over which protocol.
pub struct Mode {
    pub development: bool,
    pub ipv6: bool,
}

/// The address the server listens on: port 8080 of the development host in
/// development, over the protocol asked for, and port 80 of the production
/// host otherwise.
pub open spec fn listen_on(
    mode: Mode,
    dev_ipv4: Seq<char>,
    dev_ipv6: Seq<char>,
    prod_ipv4: Seq<char>,
) -> Seq<char> {
    if mode.development && !mode.ipv6 {
        dev_ipv4 + ":8080"@
    } else if mode.development {
        "["@ + dev_ipv6 + "]:8080"@
    } else {
        prod_ipv4 + ":80"@
    }
}

/// Computes [`listen_on`].
pub fn listen_address(mode: &Mode, dev_ipv4: &str, dev_ipv6: &str, prod_ipv4: &str) -> (a: String)
    ensures
        a@ == listen_on(*mode, dev_ipv4@, dev_ipv6@, prod_ipv4@),
{
    if mode.development && !mode.ipv6 {
        let mut a = dev_ipv4.to_owned();
        a.append(":8080");
        a
    } else if mode.development {
        let mut a = String::from_str("[");
        a.append(dev_ipv6);
        a.append("]:8080");
        a
    } else {
        let mut a = prod_ipv4.to_owned();
        a.append(":80");
        a
    }
}

} // verus!
