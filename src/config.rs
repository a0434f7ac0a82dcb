//! The supervisor's configuration: the commands it runs, the policies it
//! applies, and the aggregate of all settings with its builder API.
use vstd::prelude::*;
use crate::addr::{
    lemma_normalized_peer_has_port, names_port, normalize_peers, normalized_peer, GossipListenAddr,
    HttpListenAddr, GOSSIP_DEFAULT_PORT, HTTP_DEFAULT_PORT,
};
use crate::error::SupError;
use crate::net::{IpAddr, SocketAddr};
use crate::text::text_eq;

verus! {

/// The command the supervisor was started with.
#[derive(Clone, Copy, Debug, PartialEq, Eq, Structural)]
pub enum Command {
    Start,
    ShellBash,
    ShellSh,
}

/// The name of each command on the command line.
pub open spec fn command_text(c: Command) -> Seq<char> {
    match c {
        Command::Start => seq!['s', 't', 'a', 'r', 't'],
        Command::ShellBash => seq!['b', 'a', 's', 'h'],
        Command::ShellSh => seq!['s', 'h'],
    }
}

/// The command named by `s`, matched exactly and case-sensitively.
pub open spec fn command_of(s: Seq<char>) -> Option<Command> {
    if s == command_text(Command::Start) {
        Some(Command::Start)
    } else if s == command_text(Command::ShellBash) {
        Some(Command::ShellBash)
    } else if s == command_text(Command::ShellSh) {
        Some(Command::ShellSh)
    } else {
        None
    }
}

impl Default for Command {
    fn default() -> (r: Command)
        ensures
            r == Command::Start,
    {
        Command::Start
    }
}

impl Command {
    /// Reads a command name: `start`, `bash` or `sh`.
    pub fn parse(s: &str) -> (r: Result<Command, SupError>)
        ensures
            match command_of(s@) {
                Some(c) => r == Ok::<Command, SupError>(c),
                None => r == Err::<Command, SupError>(SupError::CommandNotImplemented),
            },
    {
        proof {
            reveal_strlit("bash");
            reveal_strlit("sh");
            reveal_strlit("start");
            assert("bash"@ =~= command_text(Command::ShellBash));
            assert("sh"@ =~= command_text(Command::ShellSh));
            assert("start"@ =~= command_text(Command::Start));
            lemma_command_round_trip(Command::Start, s@);
        }
        if text_eq(s, "bash") {
            Ok(Command::ShellBash)
        } else if text_eq(s, "sh") {
            Ok(Command::ShellSh)
        } else if text_eq(s, "start") {
            Ok(Command::Start)
        } else {
            Err(SupError::CommandNotImplemented)
        }
    }

    /// The command's name, as `parse` reads it.
    pub fn as_str(&self) -> (r: &'static str)
        ensures
            r@ == command_text(*self),
    {
        proof {
            reveal_strlit("bash");
            reveal_strlit("sh");
            reveal_strlit("start");
            assert("bash"@ =~= command_text(Command::ShellBash));
            assert("sh"@ =~= command_text(Command::ShellSh));
            assert("start"@ =~= command_text(Command::Start));
        }
        match self {
            Command::Start => "start",
            Command::ShellBash => "bash",
            Command::ShellSh => "sh",
        }
    }
}

/// Reads a command name exactly as `Command::parse` does.
impl std::str::FromStr for Command {
    type Err = SupError;

    fn from_str(s: &str) -> (r: Result<Command, SupError>)
        ensures
            match command_of(s@) {
                Some(c) => r == Ok::<Command, SupError>(c),
                None => r == Err::<Command, SupError>(SupError::CommandNotImplemented),
            },
    {
        Command::parse(s)
    }
}

/// Reading a command's name gives the command back, and a name that reads as
/// a command is that command's name: names and commands correspond one to one.
pub proof fn lemma_command_round_trip(c: Command, s: Seq<char>)
    ensures
        command_of(command_text(c)) == Some(c),
        command_of(s) == Some(c) <==> command_text(c) == s,
{
    assert(command_text(Command::Start) != command_text(Command::ShellBash));
    assert(command_text(Command::Start) != command_text(Command::ShellSh));
    assert(command_text(Command::ShellBash) != command_text(Command::ShellSh));
}

/// How the supervised service is arranged among its peers.
#[derive(Clone, Copy, Debug, PartialEq, Eq, Structural)]
pub enum Topology {
    Standalone,
    Leader,
}

impl Default for Topology {
    fn default() -> (r: Topology)
        ensures
            r == Topology::Standalone,
    {
        Topology::Standalone
    }
}

/// How new releases of the supervised package are rolled out.
#[derive(Clone, Copy, Debug, PartialEq, Eq, Structural)]
pub enum UpdateStrategy {
    /// No automatic updates.
    NoUpdate,
    /// Every member updates as soon as a release is seen.
    AtOnce,
    /// Members update one after another.
    Rolling,
}

impl Default for UpdateStrategy {
    fn default() -> (r: UpdateStrategy)
        ensures
            r == UpdateStrategy::NoUpdate,
    {
        UpdateStrategy::NoUpdate
    }
}

/// The identity of a package: origin, name, and optionally version and
/// release.
#[derive(Clone, Debug, PartialEq, Eq)]
pub struct PackageIdent {
    pub origin: String,
    pub name: String,
    pub version: Option<String>,
    pub release: Option<String>,
}

impl PackageIdent {
    pub fn new(origin: String, name: String, version: Option<String>, release: Option<String>) -> (r:
        PackageIdent)
        ensures
            r == (PackageIdent { origin, name, version, release }),
    {
        PackageIdent { origin, name, version, release }
    }
}

impl Default for PackageIdent {
    /// Empty origin and name, no version, no release.
    fn default() -> (r: PackageIdent)
        ensures
            r.origin@.len() == 0,
            r.name@.len() == 0,
            r.version is None,
            r.release is None,
    {
        PackageIdent { origin: String::new(), name: String::new(), version: None, release: None }
    }
}

/// All settings of the supervisor. Built with the `set_*` methods during
/// startup, read through the accessors afterwards.
#[derive(Debug, PartialEq, Eq)]
pub struct Config {
    pub http_listen_addr: HttpListenAddr,
    pub gossip_listen: GossipListenAddr,
    pub command: Command,
    pub package: PackageIdent,
    pub local_artifact: Option<String>,
    pub url: String,
    pub topology: Topology,
    pub group: String,
    pub bind: Vec<String>,
    pub gossip_peer: Vec<String>,
    pub gossip_permanent: bool,
    pub update_strategy: UpdateStrategy,
    pub organization: Option<String>,
    pub ring: Option<String>,
    pub config_from: Option<String>,
}

/// The text of an optional string, as an optional character sequence.
pub open spec fn opt_text(o: Option<String>) -> Option<Seq<char>> {
    match o {
        Some(s) => Some(s@),
        None => None,
    }
}

/// The text behind an optional string reference.
pub open spec fn opt_str_text(o: Option<&str>) -> Option<Seq<char>> {
    match o {
        Some(s) => Some(s@),
        None => None,
    }
}

/// Every peer entry names a port.
pub open spec fn peers_have_ports(gp: Seq<String>) -> bool {
    forall|i: int| 0 <= i < gp.len() ==> names_port(#[trigger] gp[i]@)
}

impl Config {
    /// Every setting at its default: HTTP on `0.0.0.0:9631`, gossip on
    /// `0.0.0.0:9638`, command `Start`, topology `Standalone`, no automatic
    /// updates, empty strings and lists, absent options, not permanent.
    pub open spec fn is_default(&self) -> bool {
        &&& self.http_listen_addr.0 == (SocketAddr { ip: IpAddr::V4(0, 0, 0, 0), port: HTTP_DEFAULT_PORT })
        &&& self.gossip_listen.0 == (SocketAddr { ip: IpAddr::V4(0, 0, 0, 0), port: GOSSIP_DEFAULT_PORT })
        &&& self.command == Command::Start
        &&& self.package.origin@.len() == 0
        &&& self.package.name@.len() == 0
        &&& self.package.version is None
        &&& self.package.release is None
        &&& self.local_artifact is None
        &&& self.url@.len() == 0
        &&& self.topology == Topology::Standalone
        &&& self.group@.len() == 0
        &&& self.bind@.len() == 0
        &&& self.gossip_peer@.len() == 0
        &&& !self.gossip_permanent
        &&& self.update_strategy == UpdateStrategy::NoUpdate
        &&& self.organization is None
        &&& self.ring is None
        &&& self.config_from is None
    }

    pub open spec fn with_config_from(self, v: Option<String>) -> Config {
        Config { config_from: v, ..self }
    }

    pub open spec fn with_update_strategy(self, v: UpdateStrategy) -> Config {
        Config { update_strategy: v, ..self }
    }

    pub open spec fn with_command(self, v: Command) -> Config {
        Config { command: v, ..self }
    }

    pub open spec fn with_group(self, v: String) -> Config {
        Config { group: v, ..self }
    }

    pub open spec fn with_bind(self, v: Vec<String>) -> Config {
        Config { bind: v, ..self }
    }

    pub open spec fn with_url(self, v: String) -> Config {
        Config { url: v, ..self }
    }

    pub open spec fn with_topology(self, v: Topology) -> Config {
        Config { topology: v, ..self }
    }

    pub open spec fn with_gossip_listen(self, v: GossipListenAddr) -> Config {
        Config { gossip_listen: v, ..self }
    }

    pub open spec fn with_http_listen_ip(self, v: IpAddr) -> Config {
        Config {
            http_listen_addr: HttpListenAddr(SocketAddr { ip: v, ..self.http_listen_addr.0 }),
            ..self
        }
    }

    pub open spec fn with_http_listen_port(self, v: u16) -> Config {
        Config {
            http_listen_addr: HttpListenAddr(SocketAddr { port: v, ..self.http_listen_addr.0 }),
            ..self
        }
    }

    pub open spec fn with_gossip_permanent(self, v: bool) -> Config {
        Config { gossip_permanent: v, ..self }
    }

    /// The configuration holding `v` as its peer list, `v` being already
    /// normalized.
    pub open spec fn with_gossip_peer(self, v: Vec<String>) -> Config {
        Config { gossip_peer: v, ..self }
    }

    pub open spec fn with_package(self, v: PackageIdent) -> Config {
        Config { package: v, ..self }
    }

    pub open spec fn with_local_artifact(self, v: String) -> Config {
        Config { local_artifact: Some(v), ..self }
    }

    pub open spec fn with_organization(self, v: String) -> Config {
        Config { organization: Some(v), ..self }
    }

    pub open spec fn with_ring(self, v: String) -> Config {
        Config { ring: Some(v), ..self }
    }

    /// A configuration with every setting at its default.
    pub fn new() -> (r: Config)
        ensures
            r.is_default(),
    {
        Config::default()
    }

    /// Sets the directory that configuration files are read from.
    pub fn set_config_from(&mut self, config_from: Option<String>) -> (r: &mut Config)
        ensures
            *r == old(self).with_config_from(config_from),
            *final(self) == *final(r),
    {
        self.config_from = config_from;
        self
    }

    /// The directory that configuration files are read from.
    pub fn config_from(&self) -> (r: Option<&String>)
        ensures
            r == match self.config_from {
                Some(s) => Some(&s),
                None => None::<&String>,
            },
    {
        match &self.config_from {
            Some(s) => Some(s),
            None => None,
        }
    }

    pub fn set_update_strategy(&mut self, strat: UpdateStrategy) -> (r: &mut Config)
        ensures
            *r == old(self).with_update_strategy(strat),
            *final(self) == *final(r),
    {
        self.update_strategy = strat;
        self
    }

    pub fn update_strategy(&self) -> (r: UpdateStrategy)
        ensures
            r == self.update_strategy,
    {
        self.update_strategy
    }

    pub fn set_command(&mut self, command: Command) -> (r: &mut Config)
        ensures
            *r == old(self).with_command(command),
            *final(self) == *final(r),
    {
        self.command = command;
        self
    }

    pub fn command(&self) -> (r: Command)
        ensures
            r == self.command,
    {
        self.command
    }

    pub fn set_group(&mut self, group: String) -> (r: &mut Config)
        ensures
            *r == old(self).with_group(group),
            *final(self) == *final(r),
    {
        self.group = group;
        self
    }

    pub fn group(&self) -> (r: &str)
        ensures
            r@ == self.group@,
    {
        self.group.as_str()
    }

    /// Sets the binding specifications.
    pub fn set_bind(&mut self, bind: Vec<String>) -> (r: &mut Config)
        ensures
            *r == old(self).with_bind(bind),
            *final(self) == *final(r),
    {
        self.bind = bind;
        self
    }

    /// A copy of the binding specifications.
    pub fn bind(&self) -> (r: Vec<String>)
        ensures
            r@ == self.bind@,
    {
        let r = self.bind.clone();
        assert(r@ =~= self.bind@);
        r
    }

    /// Sets the depot URL.
    pub fn set_url(&mut self, url: String) -> (r: &mut Config)
        ensures
            *r == old(self).with_url(url),
            *final(self) == *final(r),
    {
        self.url = url;
        self
    }

    pub fn url(&self) -> (r: &str)
        ensures
            r@ == self.url@,
    {
        self.url.as_str()
    }

    pub fn set_topology(&mut self, topology: Topology) -> (r: &mut Config)
        ensures
            *r == old(self).with_topology(topology),
            *final(self) == *final(r),
    {
        self.topology = topology;
        self
    }

    pub fn topology(&self) -> (r: Topology)
        ensures
            r == self.topology,
    {
        self.topology
    }

    pub fn gossip_listen(&self) -> (r: &GossipListenAddr)
        ensures
            *r == self.gossip_listen,
    {
        &self.gossip_listen
    }

    pub fn set_gossip_listen(&mut self, gossip_listen: GossipListenAddr) -> (r: &mut Config)
        ensures
            *r == old(self).with_gossip_listen(gossip_listen),
            *final(self) == *final(r),
    {
        self.gossip_listen = gossip_listen;
        self
    }

    pub fn http_listen_addr(&self) -> (r: &SocketAddr)
        ensures
            *r == self.http_listen_addr.0,
    {
        self.http_listen_addr.addr()
    }

    /// Replaces the HTTP gateway's IP address and keeps its port.
    pub fn set_http_listen_ip(&mut self, ip: IpAddr) -> (r: &mut Config)
        ensures
            *r == old(self).with_http_listen_ip(ip),
            *final(self) == *final(r),
    {
        self.http_listen_addr.set_ip(ip);
        self
    }

    /// Replaces the HTTP gateway's port and keeps its IP address.
    pub fn set_http_listen_port(&mut self, port: u16) -> (r: &mut Config)
        ensures
            *r == old(self).with_http_listen_port(port),
            *final(self) == *final(r),
    {
        self.http_listen_addr.set_port(port);
        self
    }

    pub fn gossip_permanent(&self) -> (r: bool)
        ensures
            r == self.gossip_permanent,
    {
        self.gossip_permanent
    }

    pub fn set_gossip_permanent(&mut self, p: bool) -> (r: &mut Config)
        ensures
            *r == old(self).with_gossip_permanent(p),
            *final(self) == *final(r),
    {
        self.gossip_permanent = p;
        self
    }

    pub fn gossip_peer(&self) -> (r: &[String])
        ensures
            r@ == self.gossip_peer@,
    {
        self.gossip_peer.as_slice()
    }

    /// Sets the gossip peers, each given an explicit port: an entry without
    /// `:` gets the default gossip port appended.
    pub fn set_gossip_peer(&mut self, gp: Vec<String>) -> (r: &mut Config)
        ensures
            *r == old(self).with_gossip_peer(r.gossip_peer),
            r.gossip_peer@.len() == gp@.len(),
            forall|i: int|
                0 <= i < gp@.len() ==> (#[trigger] r.gossip_peer@[i])@ == normalized_peer(gp@[i]@),
            peers_have_ports(r.gossip_peer@),
            *final(self) == *final(r),
    {
        self.gossip_peer = normalize_peers(&gp);
        assert forall|i: int| 0 <= i < self.gossip_peer@.len() implies names_port(#[trigger] self.gossip_peer@[i]@) by {
            lemma_normalized_peer_has_port(gp@[i]@);
        }
        self
    }

    pub fn set_package(&mut self, ident: PackageIdent) -> (r: &mut Config)
        ensures
            *r == old(self).with_package(ident),
            *final(self) == *final(r),
    {
        self.package = ident;
        self
    }

    pub fn package(&self) -> (r: &PackageIdent)
        ensures
            *r == self.package,
    {
        &self.package
    }

    pub fn set_local_artifact(&mut self, artifact: String) -> (r: &mut Config)
        ensures
            *r == old(self).with_local_artifact(artifact),
            *final(self) == *final(r),
    {
        self.local_artifact = Some(artifact);
        self
    }

    pub fn local_artifact(&self) -> (r: Option<&str>)
        ensures
            opt_str_text(r) == opt_text(self.local_artifact),
    {
        match &self.local_artifact {
            Some(s) => Some(s.as_str()),
            None => None,
        }
    }

    pub fn set_organization(&mut self, org: String) -> (r: &mut Config)
        ensures
            *r == old(self).with_organization(org),
            *final(self) == *final(r),
    {
        self.organization = Some(org);
        self
    }

    pub fn organization(&self) -> (r: Option<&str>)
        ensures
            opt_str_text(r) == opt_text(self.organization),
    {
        match &self.organization {
            Some(s) => Some(s.as_str()),
            None => None,
        }
    }

    /// Sets the name of the ring the gossip layer authenticates with.
    pub fn set_ring(&mut self, ring: String) -> (r: &mut Config)
        ensures
            *r == old(self).with_ring(ring),
            *final(self) == *final(r),
    {
        self.ring = Some(ring);
        self
    }

    /// The name of the ring the gossip layer authenticates with.
    pub fn ring(&self) -> (r: Option<&str>)
        ensures
            opt_str_text(r) == opt_text(self.ring),
    {
        match &self.ring {
            Some(s) => Some(s.as_str()),
            None => None,
        }
    }
}

impl Default for Config {
    fn default() -> (r: Config)
        ensures
            r.is_default(),
    {
        Config {
            http_listen_addr: HttpListenAddr::default(),
            gossip_listen: GossipListenAddr::default(),
            command: Command::default(),
            package: PackageIdent::default(),
            local_artifact: None,
            url: String::new(),
            topology: Topology::default(),
            group: String::new(),
            bind: Vec::new(),
            gossip_peer: Vec::new(),
            gossip_permanent: false,
            update_strategy: UpdateStrategy::default(),
            organization: None,
            ring: None,
            config_from: None,
        }
    }
}

/// Setting a field twice leaves only the second value in effect: the result
/// is the same as setting it once to that value.
pub proof fn lemma_last_set_wins(
    c: Config,
    from1: Option<String>, from2: Option<String>,
    strat1: UpdateStrategy, strat2: UpdateStrategy,
    cmd1: Command, cmd2: Command,
    group1: String, group2: String,
    bind1: Vec<String>, bind2: Vec<String>,
    url1: String, url2: String,
    topo1: Topology, topo2: Topology,
    gossip1: GossipListenAddr, gossip2: GossipListenAddr,
    ip1: IpAddr, ip2: IpAddr,
    port1: u16, port2: u16,
    perm1: bool, perm2: bool,
    peers1: Vec<String>, peers2: Vec<String>,
    pkg1: PackageIdent, pkg2: PackageIdent,
    art1: String, art2: String,
    org1: String, org2: String,
    ring1: String, ring2: String,
)
    ensures
        c.with_config_from(from1).with_config_from(from2) == c.with_config_from(from2),
        c.with_update_strategy(strat1).with_update_strategy(strat2) == c.with_update_strategy(strat2),
        c.with_command(cmd1).with_command(cmd2) == c.with_command(cmd2),
        c.with_group(group1).with_group(group2) == c.with_group(group2),
        c.with_bind(bind1).with_bind(bind2) == c.with_bind(bind2),
        c.with_url(url1).with_url(url2) == c.with_url(url2),
        c.with_topology(topo1).with_topology(topo2) == c.with_topology(topo2),
        c.with_gossip_listen(gossip1).with_gossip_listen(gossip2) == c.with_gossip_listen(gossip2),
        c.with_http_listen_ip(ip1).with_http_listen_ip(ip2) == c.with_http_listen_ip(ip2),
        c.with_http_listen_port(port1).with_http_listen_port(port2) == c.with_http_listen_port(port2),
        c.with_gossip_permanent(perm1).with_gossip_permanent(perm2) == c.with_gossip_permanent(perm2),
        c.with_gossip_peer(peers1).with_gossip_peer(peers2) == c.with_gossip_peer(peers2),
        c.with_package(pkg1).with_package(pkg2) == c.with_package(pkg2),
        c.with_local_artifact(art1).with_local_artifact(art2) == c.with_local_artifact(art2),
        c.with_organization(org1).with_organization(org2) == c.with_organization(org2),
        c.with_ring(ring1).with_ring(ring2) == c.with_ring(ring2),
{
}

/// Settings of different fields are independent: setting the URL and then
/// the group gives the same configuration as the other order, and the
/// HTTP gateway's IP address and port can be set separately.
pub proof fn lemma_fields_independent(c: Config, url: String, group: String, ip: IpAddr, port: u16)
    ensures
        c.with_url(url).with_group(group) == c.with_group(group).with_url(url),
        c.with_http_listen_ip(ip).with_http_listen_port(port) == c.with_http_listen_port(port).with_http_listen_ip(ip),
        c.with_http_listen_ip(ip).with_http_listen_port(port).http_listen_addr.0 == (SocketAddr { ip, port }),
{
}

} // verus!
