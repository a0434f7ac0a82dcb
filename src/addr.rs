//! Listen addresses with their default ports, and the normalization of
//! gossip peer entries.
use vstd::prelude::*;
use crate::error::SupError;
use crate::net::{IpAddr, SocketAddr};

verus! {

/// The port the gossip protocol listens on when none is given.
pub const GOSSIP_DEFAULT_PORT: u16 = 9638;

/// The port the HTTP gateway listens on when none is given.
pub const HTTP_DEFAULT_PORT: u16 = 9631;

/// The text `:9638` appended to a peer that names no port.
pub open spec fn default_port_suffix() -> Seq<char> {
    seq![':', '9', '6', '3', '8']
}

/// `p` names a port: some `:` in it has no `]` after it. So `[::1]:80`,
/// `10.0.0.2:8000` and the bare IPv6 text `::1` name one, while `10.0.0.1`
/// and the bracketed host `[::1]` do not.
pub open spec fn names_port(p: Seq<char>) -> bool {
    exists|i: int|
        0 <= i < p.len() && #[trigger] p[i] == ':' && forall|j: int| i < j < p.len() ==> p[j] != ']'
}

/// A peer entry with its port made explicit: unchanged when it names a port,
/// else followed by the default gossip port.
pub open spec fn normalized_peer(p: Seq<char>) -> Seq<char> {
    if names_port(p) {
        p
    } else {
        p + default_port_suffix()
    }
}

/// A normalized peer entry always names a port, and an entry that already
/// named one is left untouched.
pub proof fn lemma_normalized_peer_has_port(p: Seq<char>)
    ensures
        names_port(normalized_peer(p)),
        names_port(p) ==> normalized_peer(p) == p,
{
    if !names_port(p) {
        let q = p + default_port_suffix();
        let i = p.len() as int;
        assert(q[i] == ':');
        assert(forall|j: int| i < j < q.len() ==> q[j] != ']');
    }
}

/// Whether the peer entry `p` names a port.
fn peer_names_port(p: &str) -> (r: bool)
    ensures
        r == names_port(p@),
{
    let n = p.unicode_len();
    let mut i: usize = n;
    while i > 0
        invariant
            n == p@.len(),
            i <= n,
            forall|j: int| i <= j < n ==> p@[j] != ':' && p@[j] != ']',
        decreases i,
    {
        let c = p.get_char(i - 1);
        if c == ':' {
            assert(p@[i - 1] == ':' && forall|j: int| i - 1 < j < n ==> p@[j] != ']');
            return true;
        }
        if c == ']' {
            assert forall|k: int| 0 <= k < n && p@[k] == ':' implies !(forall|j: int|
                k < j < n ==> p@[j] != ']') by {
                assert(k < i - 1);
                assert(p@[i - 1] == ']');
            }
            return false;
        }
        i = i - 1;
    }
    false
}

/// The address the gossip protocol listens on.
#[derive(Clone, Copy, Debug, PartialEq, Eq, Structural)]
pub struct GossipListenAddr(pub SocketAddr);

impl Default for GossipListenAddr {
    /// `0.0.0.0:9638`.
    fn default() -> (r: GossipListenAddr)
        ensures
            r.0 == (SocketAddr { ip: IpAddr::V4(0, 0, 0, 0), port: GOSSIP_DEFAULT_PORT }),
    {
        GossipListenAddr(SocketAddr { ip: IpAddr::V4(0, 0, 0, 0), port: GOSSIP_DEFAULT_PORT })
    }
}

impl GossipListenAddr {
    /// The gossip listen address, from the results of reading one text as a
    /// full socket address and as a bare IP address (IPv4 or IPv6): the socket
    /// address as written when the text is one, else the IP address on the
    /// default gossip port, else `AddressParseError`.
    pub fn from_parsed(socket: Option<SocketAddr>, ip: Option<IpAddr>) -> (r: Result<
        GossipListenAddr,
        SupError,
    >)
        ensures
            r == match socket {
                Some(a) => Ok::<GossipListenAddr, SupError>(GossipListenAddr(a)),
                None => match ip {
                    Some(ip) => Ok(GossipListenAddr(SocketAddr { ip, port: GOSSIP_DEFAULT_PORT })),
                    None => Err(SupError::AddressParseError),
                },
            },
    {
        match socket {
            Some(a) => Ok(GossipListenAddr(a)),
            None => match ip {
                Some(ip) => {
                    let mut addr = GossipListenAddr::default();
                    addr.set_ip(ip);
                    Ok(addr)
                },
                None => Err(SupError::AddressParseError),
            },
        }
    }

    /// The socket address.
    pub fn addr(&self) -> (r: &SocketAddr)
        ensures
            *r == self.0,
    {
        &self.0
    }

    /// The socket address, for changing it in place.
    pub fn addr_mut(&mut self) -> (r: &mut SocketAddr)
        ensures
            *r == old(self).0,
            final(self).0 == *final(r),
    {
        &mut self.0
    }

    /// Replaces the IP address and keeps the port.
    pub fn set_ip(&mut self, ip: IpAddr)
        ensures
            final(self).0 == (SocketAddr { ip, ..old(self).0 }),
    {
        self.0.set_ip(ip);
    }

    /// Replaces the port and keeps the IP address.
    pub fn set_port(&mut self, port: u16)
        ensures
            final(self).0 == (SocketAddr { port, ..old(self).0 }),
    {
        self.0.set_port(port);
    }

    /// The endpoints this address resolves to: the address itself.
    pub fn to_socket_addrs(&self) -> (r: Vec<SocketAddr>)
        ensures
            r@ == seq![self.0],
    {
        let mut r: Vec<SocketAddr> = Vec::new();
        r.push(self.0);
        r
    }
}

/// The address the HTTP gateway listens on.
#[derive(Clone, Copy, Debug, PartialEq, Eq, Structural)]
pub struct HttpListenAddr(pub SocketAddr);

impl Default for HttpListenAddr {
    /// `0.0.0.0:9631`.
    fn default() -> (r: HttpListenAddr)
        ensures
            r.0 == (SocketAddr { ip: IpAddr::V4(0, 0, 0, 0), port: HTTP_DEFAULT_PORT }),
    {
        HttpListenAddr(SocketAddr { ip: IpAddr::V4(0, 0, 0, 0), port: HTTP_DEFAULT_PORT })
    }
}

impl HttpListenAddr {
    /// The socket address.
    pub fn addr(&self) -> (r: &SocketAddr)
        ensures
            *r == self.0,
    {
        &self.0
    }

    /// Replaces the IP address and keeps the port.
    pub fn set_ip(&mut self, ip: IpAddr)
        ensures
            final(self).0 == (SocketAddr { ip, ..old(self).0 }),
    {
        self.0.set_ip(ip);
    }

    /// Replaces the port and keeps the IP address.
    pub fn set_port(&mut self, port: u16)
        ensures
            final(self).0 == (SocketAddr { port, ..old(self).0 }),
    {
        self.0.set_port(port);
    }
}

/// Gives every peer entry an explicit port: an entry without `:` gets the
/// default gossip port appended, the others are kept as they are. Order and
/// length are kept.
///
/// A port is named by a `:` with no `]` after it, so a bracketed IPv6 host
/// `[::1]` becomes `[::1]:9638` and `[::1]:80` is kept. A bare IPv6 literal
/// such as `::1` holds such a `:` and is kept as it is: an IPv6 peer is meant
/// to be written in brackets. Entries are not checked further: a malformed
/// host passes through, to fail when it is connected to.
pub fn normalize_peers(gp: &Vec<String>) -> (r: Vec<String>)
    ensures
        r@.len() == gp@.len(),
        forall|i: int| 0 <= i < gp@.len() ==> (#[trigger] r@[i])@ == normalized_peer(gp@[i]@),
{
    let mut r: Vec<String> = Vec::new();
    let mut i: usize = 0;
    while i < gp.len()
        invariant
            i <= gp@.len(),
            r@.len() == i,
            forall|j: int| 0 <= j < i ==> (#[trigger] r@[j])@ == normalized_peer(gp@[j]@),
        decreases gp@.len() - i,
    {
        let mut p = gp[i].clone();
        if !peer_names_port(p.as_str()) {
            proof {
                reveal_strlit(":9638");
            }
            p.append(":9638");
            assert(p@ =~= gp@[i as int]@ + default_port_suffix());
        }
        r.push(p);
        i = i + 1;
    }
    r
}

} // verus!
