//! The write-once holder of the published configuration.
use vstd::prelude::*;
use crate::config::Config;

verus! {

/// Holds at most one configuration. The first one published stays for good:
/// later publishes are ignored, and nothing removes or replaces it.
pub struct ConfigCache {
    slot: Option<Config>,
}

/// The content of a cache after `c` is published to a cache holding `held`:
/// what it held, if anything, else `c`.
pub open spec fn after_publish(held: Option<Config>, c: Config) -> Option<Config> {
    match held {
        Some(first) => Some(first),
        None => Some(c),
    }
}

impl View for ConfigCache {
    type V = Option<Config>;

    closed spec fn view(&self) -> Option<Config> {
        self.slot
    }
}

impl ConfigCache {
    /// A cache with nothing published.
    pub fn new() -> (r: ConfigCache)
        ensures
            r@ is None,
    {
        ConfigCache { slot: None }
    }

    /// Whether a configuration has been published.
    pub fn is_published(&self) -> (r: bool)
        ensures
            r == self@ is Some,
    {
        self.slot.is_some()
    }

    /// Stores `config` unless a configuration is held already; returns whether
    /// it was stored. A configuration that is held is never replaced.
    pub fn publish(&mut self, config: Config) -> (r: bool)
        ensures
            final(self)@ == after_publish(old(self)@, config),
            r == old(self)@ is None,
    {
        if self.slot.is_none() {
            self.slot = Some(config);
            true
        } else {
            false
        }
    }

    /// The published configuration. Only to be called once one was published.
    pub fn current(&self) -> (r: &Config)
        requires
            self@ is Some,
        ensures
            *r == self@->Some_0,
    {
        self.slot.as_ref().unwrap()
    }
}

/// Of two publishes, in either order, the first is the one held afterwards,
/// whole; every further publish leaves it in place.
pub proof fn lemma_first_publish_stays(a: Config, b: Config, later: Seq<Config>)
    ensures
        after_publish(after_publish(None, a), b) == Some(a),
        after_publish(after_publish(None, b), a) == Some(b),
        later.fold_left(after_publish(None, a), |h: Option<Config>, c: Config| after_publish(h, c))
            == Some(a),
    decreases later.len(),
{
    if later.len() > 0 {
        lemma_first_publish_stays(a, b, later.drop_last());
    }
}

} // verus!
