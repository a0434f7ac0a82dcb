use sup_config::bldr::{Command, Config};

#[test]
fn config_new() {
    let c = Config::new();
    assert_eq!(c.topology(), String::new());
}

#[test]
fn config_command() {
    let mut c = Config::new();
    c.set_command(Command::Install);
    assert_eq!(c.command(), Command::Install);
}

#[test]
fn key() {
    let mut c = Config::new();
    c.set_key(String::from("foolio"));
    assert_eq!(c.key(), "foolio");
}

#[test]
fn package() {
    let mut c = Config::new();
    c.set_package(String::from("foolio"));
    assert_eq!(c.package(), "foolio");
}

#[test]
fn path() {
    let mut c = Config::new();
    c.set_path(String::from("foolio"));
    assert_eq!(c.path(), "foolio");
}

#[test]
fn config_url() {
    let mut c = Config::new();
    c.set_url(String::from("http://foolio.com"));
    assert_eq!(c.url(), "http://foolio.com");
}

#[test]
fn config_topology() {
    let mut c = Config::new();
    c.set_topology(String::from("leader"));
    assert_eq!(c.topology(), "leader");
}

#[test]
fn builder_defaults_and_chaining() {
    let mut c = Config::new();
    assert_eq!(c.command(), Command::Install);
    assert_eq!(c.key(), "");
    assert!(c.watch().is_empty());
    c.set_deriv(String::from("d"))
        .set_version(String::from("1.0.0"))
        .set_release(String::from("20170101"))
        .set_group(String::from("g"))
        .set_watch(vec![String::from("/src")])
        .set_version(String::from("2.0.0"));
    assert_eq!(c.deriv(), "d");
    assert_eq!(c.version(), "2.0.0");
    assert_eq!(c.release(), "20170101");
    assert_eq!(c.group(), "g");
    assert_eq!(c.watch(), &[String::from("/src")][..]);
}
