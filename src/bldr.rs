//! Settings of the package builder: the command it runs and the package it
//! works on.
use vstd::prelude::*;

verus! {

/// The builder's commands.
#[derive(Clone, Copy, Debug, PartialEq, Eq, Structural)]
pub enum Command {
    Install,
    Config,
    Start,
    Key,
    KeyUpload,
    Shell,
    Repo,
    Upload,
    Configuration,
}

impl Default for Command {
    fn default() -> (r: Command)
        ensures
            r == Command::Install,
    {
        Command::Install
    }
}

/// The builder's settings. Every text setting is empty and the watch list is
/// empty until set; the command is `Install`.
pub struct Config {
    pub command: Command,
    pub package: String,
    pub url: String,
    pub topology: String,
    pub group: String,
    pub path: String,
    pub deriv: String,
    pub version: String,
    pub release: String,
    pub watch: Vec<String>,
    pub key: String,
}

impl Default for Config {
    fn default() -> (r: Config)
        ensures
            r.is_default(),
    {
        Config {
            command: Command::default(),
            package: String::new(),
            url: String::new(),
            topology: String::new(),
            group: String::new(),
            path: String::new(),
            deriv: String::new(),
            version: String::new(),
            release: String::new(),
            watch: Vec::new(),
            key: String::new(),
        }
    }
}

impl Config {
    /// Command `Install`, every text empty, no watched paths.
    pub open spec fn is_default(&self) -> bool {
        &&& self.command == Command::Install
        &&& self.package@.len() == 0
        &&& self.url@.len() == 0
        &&& self.topology@.len() == 0
        &&& self.group@.len() == 0
        &&& self.path@.len() == 0
        &&& self.deriv@.len() == 0
        &&& self.version@.len() == 0
        &&& self.release@.len() == 0
        &&& self.watch@.len() == 0
        &&& self.key@.len() == 0
    }

    /// Settings with every value at its default.
    pub fn new() -> (r: Config)
        ensures
            r.is_default(),
    {
        Config::default()
    }

    /// Sets the command that was run.
    pub fn set_command(&mut self, command: Command) -> (r: &mut Config)
        ensures
            *r == (Config { command, ..*old(self) }),
            *final(self) == *final(r),
    {
        self.command = command;
        self
    }

    /// The command that was run.
    pub fn command(&self) -> (r: Command)
        ensures
            r == self.command,
    {
        self.command
    }

    /// Sets the key.
    pub fn set_key(&mut self, key: String) -> (r: &mut Config)
        ensures
            *r == (Config { key, ..*old(self) }),
            *final(self) == *final(r),
    {
        self.key = key;
        self
    }

    /// The key.
    pub fn key(&self) -> (r: &str)
        ensures
            r@ == self.key@,
    {
        self.key.as_str()
    }

    /// Sets the package name.
    pub fn set_package(&mut self, package: String) -> (r: &mut Config)
        ensures
            *r == (Config { package, ..*old(self) }),
            *final(self) == *final(r),
    {
        self.package = package;
        self
    }

    /// The package name.
    pub fn package(&self) -> (r: &str)
        ensures
            r@ == self.package@,
    {
        self.package.as_str()
    }

    /// Sets the derivation.
    pub fn set_deriv(&mut self, deriv: String) -> (r: &mut Config)
        ensures
            *r == (Config { deriv, ..*old(self) }),
            *final(self) == *final(r),
    {
        self.deriv = deriv;
        self
    }

    /// The derivation.
    pub fn deriv(&self) -> (r: &str)
        ensures
            r@ == self.deriv@,
    {
        self.deriv.as_str()
    }

    /// Sets the version.
    pub fn set_version(&mut self, version: String) -> (r: &mut Config)
        ensures
            *r == (Config { version, ..*old(self) }),
            *final(self) == *final(r),
    {
        self.version = version;
        self
    }

    /// The version.
    pub fn version(&self) -> (r: &str)
        ensures
            r@ == self.version@,
    {
        self.version.as_str()
    }

    /// Sets the release.
    pub fn set_release(&mut self, release: String) -> (r: &mut Config)
        ensures
            *r == (Config { release, ..*old(self) }),
            *final(self) == *final(r),
    {
        self.release = release;
        self
    }

    /// The release.
    pub fn release(&self) -> (r: &str)
        ensures
            r@ == self.release@,
    {
        self.release.as_str()
    }

    /// Sets the path.
    pub fn set_path(&mut self, path: String) -> (r: &mut Config)
        ensures
            *r == (Config { path, ..*old(self) }),
            *final(self) == *final(r),
    {
        self.path = path;
        self
    }

    /// The path.
    pub fn path(&self) -> (r: &str)
        ensures
            r@ == self.path@,
    {
        self.path.as_str()
    }

    /// Sets the group.
    pub fn set_group(&mut self, group: String) -> (r: &mut Config)
        ensures
            *r == (Config { group, ..*old(self) }),
            *final(self) == *final(r),
    {
        self.group = group;
        self
    }

    /// The group.
    pub fn group(&self) -> (r: &str)
        ensures
            r@ == self.group@,
    {
        self.group.as_str()
    }

    /// Sets the watched paths.
    pub fn set_watch(&mut self, watch: Vec<String>) -> (r: &mut Config)
        ensures
            *r == (Config { watch, ..*old(self) }),
            *final(self) == *final(r),
    {
        self.watch = watch;
        self
    }

    /// The watched paths.
    pub fn watch(&self) -> (r: &[String])
        ensures
            r@ == self.watch@,
    {
        self.watch.as_slice()
    }

    /// Sets the depot URL.
    pub fn set_url(&mut self, url: String) -> (r: &mut Config)
        ensures
            *r == (Config { url, ..*old(self) }),
            *final(self) == *final(r),
    {
        self.url = url;
        self
    }

    /// The depot URL.
    pub fn url(&self) -> (r: &str)
        ensures
            r@ == self.url@,
    {
        self.url.as_str()
    }

    /// Sets the topology.
    pub fn set_topology(&mut self, topology: String) -> (r: &mut Config)
        ensures
            *r == (Config { topology, ..*old(self) }),
            *final(self) == *final(r),
    {
        self.topology = topology;
        self
    }

    /// The topology.
    pub fn topology(&self) -> (r: &str)
        ensures
            r@ == self.topology@,
    {
        self.topology.as_str()
    }
}

} // verus!
