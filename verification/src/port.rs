//! The local port on which the backend listens.
//!
//! The caller binds a socket to port 0 on the loopback address, reads the
//! port that the operating system chose and closes the socket again. The
//! port is then free for the backend. Nothing holds it in between: if
//! another process takes it first, the backend's own bind fails and says so.

use vstd::prelude::*;
use vstd::string::*;
use crate::error::LaunchError;
use crate::text::{decimal, render_decimal};

verus! {

/// The lowest port that is not reserved for system services.
pub const LOWEST_EPHEMERAL_PORT: u16 = 1024;

/// A port that the operating system handed out for the backend. Its number
/// is never below [`LOWEST_EPHEMERAL_PORT`].
#[derive(Clone, Copy, Debug, PartialEq, Eq)]
pub struct PortLease {
    port: u16,
}

impl View for PortLease {
    type V = u16;

    closed spec fn view(&self) -> u16 {
        self.port
    }
}

/// What [`PortLease::from_bound`] returns.
pub open spec fn lease_outcome(bound: Option<u16>) -> Result<u16, LaunchError> {
    match bound {
        Some(port) => if port >= LOWEST_EPHEMERAL_PORT {
            Ok(port)
        } else {
            Err(LaunchError::PortExhausted)
        },
        None => Err(LaunchError::PortExhausted),
    }
}

impl PortLease {
    #[verifier::type_invariant]
    spec fn in_range(self) -> bool {
        self.port >= LOWEST_EPHEMERAL_PORT
    }

    /// Takes the port that the operating system bound, or `None` where it
    /// refused to bind any. A port in the ephemeral range becomes a lease;
    /// a refusal, or a port below the range, means that no port can be had.
    pub fn from_bound(bound: Option<u16>) -> (lease: Result<PortLease, LaunchError>)
        ensures
            match lease {
                Ok(l) => lease_outcome(bound) == Ok::<u16, LaunchError>(l@),
                Err(e) => lease_outcome(bound) == Err::<u16, LaunchError>(e),
            },
    {
        match bound {
            Some(port) => {
                if port >= LOWEST_EPHEMERAL_PORT {
                    Ok(PortLease { port })
                } else {
                    Err(LaunchError::PortExhausted)
                }
            },
            None => Err(LaunchError::PortExhausted),
        }
    }

    /// The port number: always in the ephemeral range.
    pub fn port(&self) -> (port: u16)
        ensures
            port == self@,
            port >= LOWEST_EPHEMERAL_PORT,
    {
        proof {
            use_type_invariant(self);
        }
        self.port
    }
}

/// The script that tells the user interface the backend's port.
pub open spec fn port_script(port: u16) -> Seq<char> {
    "window.__BACKEND_PORT__ = "@ + decimal(port as nat) + ";"@
}

/// Builds the script that is run before any code of the user interface and
/// leaves the backend's port in a global of the page.
pub fn port_injection_script(lease: &PortLease) -> (script: String)
    ensures
        script@ == port_script(lease@),
{
    let mut script = String::from_str("window.__BACKEND_PORT__ = ");
    let digits = render_decimal(lease.port() as u32);
    script.append(digits.as_str());
    script.append(";");
    script
}

} // verus!
