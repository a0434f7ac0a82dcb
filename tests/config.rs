use sup_config::addr::{normalize_peers, GossipListenAddr, HttpListenAddr};
use sup_config::cache::ConfigCache;
use sup_config::config::{Command, Config, PackageIdent, Topology, UpdateStrategy};
use sup_config::error::SupError;
use sup_config::net::{IpAddr, SocketAddr};

fn v4(a: u8, b: u8, c: u8, d: u8, port: u16) -> SocketAddr {
    SocketAddr::new(IpAddr::V4(a, b, c, d), port)
}

fn strings(v: &[&str]) -> Vec<String> {
    v.iter().map(|s| s.to_string()).collect()
}

#[test]
fn new() {
    let c = Config::new();
    assert_eq!(c.topology(), Topology::Standalone);
}

#[test]
fn command() {
    let mut c = Config::new();
    c.set_command(Command::Start);
    assert_eq!(c.command(), Command::Start);
}

#[test]
fn url() {
    let mut c = Config::new();
    c.set_url(String::from("http://foolio.com"));
    assert_eq!(c.url(), "http://foolio.com");
}

#[test]
fn topology() {
    let mut c = Config::new();
    c.set_topology(Topology::Leader);
    assert_eq!(c.topology(), Topology::Leader);
}

#[test]
fn defaults_of_new_config() {
    let c = Config::new();
    assert_eq!(c.topology(), Topology::Standalone);
    assert_eq!(c.command(), Command::Start);
    assert_eq!(c.url(), "");
    assert_eq!(*c.gossip_listen().addr(), v4(0, 0, 0, 0, 9638));
    assert_eq!(*c.http_listen_addr(), v4(0, 0, 0, 0, 9631));
    assert_eq!(c.update_strategy(), UpdateStrategy::NoUpdate);
    assert_eq!(c.group(), "");
    assert!(c.bind().is_empty());
    assert!(c.gossip_peer().is_empty());
    assert!(!c.gossip_permanent());
    assert_eq!(c.local_artifact(), None);
    assert_eq!(c.organization(), None);
    assert_eq!(c.ring(), None);
    assert_eq!(c.config_from(), None);
    assert_eq!(*c.package(), PackageIdent::default());
    assert_eq!(Config::new(), Config::default());
}





#[test]
fn gossip_addr_set_ip_and_port() {
    let mut a = GossipListenAddr::default();
    a.set_ip(IpAddr::V4(127, 0, 0, 1));
    assert_eq!(*a.addr(), v4(127, 0, 0, 1, 9638));
    a.set_port(7000);
    assert_eq!(*a.addr(), v4(127, 0, 0, 1, 7000));
    a.addr_mut().set_port(7001);
    assert_eq!(a.to_socket_addrs(), vec![v4(127, 0, 0, 1, 7001)]);
}

#[test]
fn peers_are_normalized() {
    let out = normalize_peers(&strings(&["10.0.0.1", "10.0.0.2:8000"]));
    assert_eq!(out, strings(&["10.0.0.1:9638", "10.0.0.2:8000"]));
    assert!(normalize_peers(&Vec::new()).is_empty());
    assert_eq!(normalize_peers(&strings(&["::1"])), strings(&["::1"]));
    assert_eq!(
        normalize_peers(&strings(&["[::1]", "[::1]:80", "[fe80::1]:"])),
        strings(&["[::1]:9638", "[::1]:80", "[fe80::1]:"])
    );
    let mut c = Config::new();
    c.set_gossip_peer(strings(&["a.example", "b.example:1", ""]));
    assert_eq!(c.gossip_peer(), &strings(&["a.example:9638", "b.example:1", ":9638"])[..]);
}

#[test]
fn command_names_round_trip() {
    for (text, cmd) in [("start", Command::Start), ("bash", Command::ShellBash), ("sh", Command::ShellSh)] {
        assert_eq!(Command::parse(text), Ok(cmd));
        assert_eq!(cmd.as_str(), text);
        let parsed: Command = text.parse().unwrap();
        assert_eq!(parsed, cmd);
    }
    assert_eq!(Command::parse("zzz"), Err(SupError::CommandNotImplemented));
    assert_eq!(Command::parse("Start"), Err(SupError::CommandNotImplemented));
    assert_eq!(Command::parse(""), Err(SupError::CommandNotImplemented));
    assert_eq!(Command::default(), Command::Start);
}

#[test]
fn setting_twice_keeps_last() {
    let mut c = Config::new();
    c.set_url(String::from("http://a")).set_url(String::from("http://b"));
    assert_eq!(c.url(), "http://b");
    c.set_ring(String::from("r1"));
    c.set_ring(String::from("r2"));
    assert_eq!(c.ring(), Some("r2"));
}

#[test]
fn chained_equals_separate() {
    let mut chained = Config::new();
    chained
        .set_url(String::from("http://depot"))
        .set_group(String::from("prod"))
        .set_topology(Topology::Leader)
        .set_update_strategy(UpdateStrategy::Rolling)
        .set_gossip_permanent(true)
        .set_organization(String::from("acme"))
        .set_local_artifact(String::from("/tmp/pkg.hart"))
        .set_config_from(Some(String::from("/etc/sup")))
        .set_bind(strings(&["db:postgres.default"]))
        .set_http_listen_ip(IpAddr::V4(10, 0, 0, 9))
        .set_http_listen_port(8080)
        .set_package(PackageIdent::new(String::from("core"), String::from("redis"), None, None));
    let mut separate = Config::new();
    separate.set_url(String::from("http://depot"));
    separate.set_group(String::from("prod"));
    separate.set_topology(Topology::Leader);
    separate.set_update_strategy(UpdateStrategy::Rolling);
    separate.set_gossip_permanent(true);
    separate.set_organization(String::from("acme"));
    separate.set_local_artifact(String::from("/tmp/pkg.hart"));
    separate.set_config_from(Some(String::from("/etc/sup")));
    separate.set_bind(strings(&["db:postgres.default"]));
    separate.set_http_listen_ip(IpAddr::V4(10, 0, 0, 9));
    separate.set_http_listen_port(8080);
    separate.set_package(PackageIdent::new(String::from("core"), String::from("redis"), None, None));
    assert_eq!(chained, separate);
    assert_eq!(*chained.http_listen_addr(), v4(10, 0, 0, 9, 8080));
    assert_eq!(chained.organization(), Some("acme"));
    assert_eq!(chained.local_artifact(), Some("/tmp/pkg.hart"));
    assert_eq!(chained.config_from(), Some(&String::from("/etc/sup")));
    assert_eq!(chained.bind(), strings(&["db:postgres.default"]));
    assert_eq!(chained.package().name, "redis");
}

#[test]
fn gossip_listen_setter() {
    let mut c = Config::new();
    c.set_gossip_listen(GossipListenAddr::from_parsed(None, Some(IpAddr::V4(10, 1, 1, 1))).unwrap());
    assert_eq!(*c.gossip_listen().addr(), v4(10, 1, 1, 1, 9638));
    let h = HttpListenAddr::default();
    assert_eq!(*h.addr(), v4(0, 0, 0, 0, 9631));
}

#[test]
fn cache_keeps_first_publish() {
    let mut cache = ConfigCache::new();
    assert!(!cache.is_published());
    let mut a = Config::new();
    a.set_url(String::from("http://first"));
    let mut b = Config::new();
    b.set_url(String::from("http://second"));
    assert!(cache.publish(a));
    assert!(!cache.publish(b));
    assert!(cache.is_published());
    assert_eq!(cache.current().url(), "http://first");
    assert!(!cache.publish(Config::new()));
    assert_eq!(cache.current().url(), "http://first");
}


#[test]
fn from_parsed_takes_ipv6() {
    let ip6 = IpAddr::V6(0, 0, 0, 0, 0, 0, 0, 1);
    let a = GossipListenAddr::from_parsed(None, Some(ip6)).unwrap();
    assert_eq!(*a.addr(), SocketAddr::new(ip6, 9638));
    let s = SocketAddr::new(ip6, 80);
    assert_eq!(GossipListenAddr::from_parsed(Some(s), Some(ip6)).unwrap(), GossipListenAddr(s));
    assert_eq!(GossipListenAddr::from_parsed(None, None), Err(SupError::AddressParseError));
}

// Each case hands `from_parsed` what std's `SocketAddr` and `IpAddr` parses
// give for the text named in the comment.
#[test]
fn gossip_addr_bare_ip_gets_default_port() {
    // "192.168.1.5"
    let a = GossipListenAddr::from_parsed(None, Some(IpAddr::V4(192, 168, 1, 5))).unwrap();
    assert_eq!(*a.addr(), v4(192, 168, 1, 5, 9638));
    // "::1"
    let ip6 = IpAddr::V6(0, 0, 0, 0, 0, 0, 0, 1);
    let b = GossipListenAddr::from_parsed(None, Some(ip6)).unwrap();
    assert_eq!(*b.addr(), SocketAddr::new(ip6, 9638));
}

#[test]
fn gossip_addr_with_port() {
    // "192.168.1.5:4444"
    let a = GossipListenAddr::from_parsed(Some(v4(192, 168, 1, 5, 4444)), None).unwrap();
    assert_eq!(*a.addr(), v4(192, 168, 1, 5, 4444));
    // "[::1]:80"
    let s6 = SocketAddr::new(IpAddr::V6(0, 0, 0, 0, 0, 0, 0, 1), 80);
    let b = GossipListenAddr::from_parsed(Some(s6), None).unwrap();
    assert_eq!(b, GossipListenAddr(s6));
}

#[test]
fn gossip_addr_rejects_malformed() {
    // "not-an-ip:::", "", "10.0.0.1:70000": neither parse succeeds
    assert_eq!(GossipListenAddr::from_parsed(None, None), Err(SupError::AddressParseError));
}

#[test]
fn command_from_str_matches_parse() {
    assert_eq!("start".parse::<Command>(), Ok(Command::Start));
    assert_eq!("bash".parse::<Command>(), Ok(Command::ShellBash));
    assert_eq!("sh".parse::<Command>(), Ok(Command::ShellSh));
    for bad in ["zzz", "Start", "BASH", "", " sh"] {
        assert_eq!(bad.parse::<Command>(), Err(SupError::CommandNotImplemented));
    }
}
