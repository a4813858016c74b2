use vstd::prelude::*;

use crate::util::str_eq;

verus! {

/// The display protocol a registered session runs under.
#[derive(Clone, Copy, PartialEq, Eq, Structural, Debug)]
pub enum Protocol {
    X11,
    Wayland,
}

impl Protocol {
    /// The identifier under which this protocol is stored in the registry.
    pub open spec fn config_str(self) -> Seq<char> {
        match self {
            Protocol::X11 => "x11"@,
            Protocol::Wayland => "wayland"@,
        }
    }

    /// The stored form of this protocol.
    pub fn as_config_str(&self) -> (r: &'static str)
        ensures
            r@ == self.config_str(),
    {
        match self {
            Protocol::X11 => "x11",
            Protocol::Wayland => "wayland",
        }
    }
}

/// The protocol a stored identifier denotes, if any.
pub open spec fn spec_protocol_of(s: Seq<char>) -> Option<Protocol> {
    if s == "x11"@ {
        Some(Protocol::X11)
    } else if s == "wayland"@ {
        Some(Protocol::Wayland)
    } else {
        None
    }
}

/// Parse a stored protocol identifier; anything else is an unknown protocol.
pub fn protocol_of_str(s: &str) -> (r: Option<Protocol>)
    ensures
        r == spec_protocol_of(s@),
{
    if str_eq(s, "x11") {
        Some(Protocol::X11)
    } else if str_eq(s, "wayland") {
        Some(Protocol::Wayland)
    } else {
        None
    }
}

} // verus!
