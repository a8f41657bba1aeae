//! What a peer announces when a connection opens.

use vstd::prelude::*;
use crate::config::Config;
use crate::protocol::{Hello, ScreenInfo, PROTOCOL_VERSION};

verus! {

/// The host name announced to the peer, given the `COMPUTERNAME` and
/// `HOSTNAME` environment variables.
pub open spec fn announced_hostname(computername: Option<Seq<char>>, hostname: Option<Seq<char>>) -> Seq<char> {
    match computername {
        Some(c) => c,
        None => match hostname {
            Some(h) => h,
            None => "unknown"@,
        },
    }
}

/// The host name to announce: `COMPUTERNAME` when set, else `HOSTNAME`, else
/// "unknown".
pub fn hostname(computername: Option<String>, hostname_var: Option<String>) -> (name: String)
    ensures
        name@ == announced_hostname(
            crate::config::opt_view(computername),
            crate::config::opt_view(hostname_var),
        ),
{
    match computername {
        Some(c) => c,
        None => match hostname_var {
            Some(h) => h,
            None => "unknown".to_owned(),
        },
    }
}

/// The `Hello` this side sends first on a new connection: our protocol
/// version, our id, our host name and the size of our own screen, the
/// layout's server screen.
pub fn local_hello(cfg: &Config, peer_id: uuid::Uuid, hostname: String) -> (h: Hello)
    ensures
        h.protocol_version == PROTOCOL_VERSION,
        h.peer_id == peer_id,
        h.hostname == hostname,
        h.screen.width == cfg.layout.server_screen.width,
        h.screen.height == cfg.layout.server_screen.height,
{
    Hello {
        protocol_version: PROTOCOL_VERSION,
        peer_id,
        hostname,
        screen: ScreenInfo {
            width: cfg.layout.server_screen.width,
            height: cfg.layout.server_screen.height,
        },
    }
}

/// `COMPUTERNAME` wins over `HOSTNAME` whenever it is set, `HOSTNAME` is used
/// only when `COMPUTERNAME` is not set, and with neither the peer announces
/// itself as `unknown`.
pub proof fn lemma_hostname_priority(c: Option<Seq<char>>, h: Option<Seq<char>>)
    ensures
        c matches Some(name) ==> announced_hostname(c, h) == name,
        c is None ==> (h matches Some(name) ==> announced_hostname(c, h) == name),
        c is None && h is None ==> announced_hostname(c, h) == seq!['u', 'n', 'k', 'n', 'o', 'w', 'n'],
{
    reveal_strlit("unknown");
    assert("unknown"@ =~= seq!['u', 'n', 'k', 'n', 'o', 'w', 'n']);
}

} // verus!
