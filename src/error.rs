//! Errors raised while reading configuration values.
use vstd::prelude::*;

verus! {

/// Why a configuration value could not be read.
#[derive(Clone, Copy, Debug, PartialEq, Eq, Structural)]
pub enum SupError {
    /// A listen address is neither `host:port` nor a bare IP address.
    AddressParseError,
    /// A command name matches none of the known commands.
    CommandNotImplemented,
}

} // verus!
