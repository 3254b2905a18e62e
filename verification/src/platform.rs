//! The system that the server runs on.
use vstd::prelude::*;

verus! {

/// The system that the server runs on. VMs need Linux. Elsewhere the server can be developed
/// and tested, and leaves alone what only Linux has.
#[derive(Debug, Clone, Copy, PartialEq, Eq, Structural)]
pub enum Platform {
    Linux,
    /// A Unix other than Linux.
    OtherUnix,
    NotUnix,
}

impl Platform {
    /// Whether files have the permissions of Unix.
    pub open spec fn unix(self) -> bool {
        !(self is NotUnix)
    }

    /// Whether this is Linux.
    pub fn is_linux(self) -> (r: bool)
        ensures
            r == (self is Linux),
    {
        match self {
            Platform::Linux => true,
            _ => false,
        }
    }

    /// Whether files have the permissions of Unix.
    pub fn is_unix(self) -> (r: bool)
        ensures
            r == self.unix(),
    {
        match self {
            Platform::NotUnix => false,
            _ => true,
        }
    }
}

/// Linux alone is Linux, and all but what is no Unix are Unix.
pub proof fn platforms(p: Platform, linux: bool, unix: bool)
    requires
        call_ensures(Platform::is_linux, (p,), linux),
        call_ensures(Platform::is_unix, (p,), unix),
    ensures
        linux <==> p == Platform::Linux,
        unix <==> p != Platform::NotUnix,
        p.unix() <==> p != Platform::NotUnix,
{
}

} // verus!
