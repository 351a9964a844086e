//! Choosing one address out of a name-resolution result.
//!
//! The system resolution call itself is I/O and stays outside the
//! library; it hands in either the list of candidate addresses it
//! produced (each already rendered as text) or nothing, when the
//! mechanism itself failed. The decision — fail explicitly, or take
//! the first candidate with no preference ordering — is made here.

use vstd::prelude::*;

verus! {

/// Why no address could be chosen for a target.
#[derive(Clone, Copy, Debug, PartialEq, Eq, Structural)]
pub enum ResolveError {
    /// Resolution ran but produced zero candidate addresses.
    NoAddressFound,
    /// The resolution mechanism itself failed.
    ResolutionFailed,
}

/// The address chosen for a target, kept next to the hostname the
/// user gave, so that every report line can show both.
#[derive(Clone, Debug)]
pub struct HostAddr {
    /// The chosen socket address, rendered as text.
    pub addr: String,
    /// The hostname the target was given as.
    pub hostname: String,
}

/// Takes the outcome of the system resolution call — `None` when the
/// mechanism failed, otherwise the candidate addresses it produced —
/// and picks the first candidate, deterministically and with no
/// preference ordering. An empty candidate list and a failed
/// mechanism are told apart as the two [`ResolveError`] variants.
pub fn first_address(candidates: Option<Vec<String>>) -> (r: Result<String, ResolveError>)
    ensures
        match candidates {
            Option::None => r == Result::<String, ResolveError>::Err(
                ResolveError::ResolutionFailed,
            ),
            Option::Some(list) => {
                if list@.len() == 0 {
                    r == Result::<String, ResolveError>::Err(ResolveError::NoAddressFound)
                } else {
                    r matches Ok(a) && a@ == list@[0]@
                }
            },
        },
{
    match candidates {
        Option::None => Err(ResolveError::ResolutionFailed),
        Option::Some(list) => {
            if list.len() == 0 {
                Err(ResolveError::NoAddressFound)
            } else {
                let mut list = list;
                Ok(list.remove(0))
            }
        },
    }
}

/// Binds the address picked by [`first_address`] to the hostname it
/// was resolved for. Returns `Ok` exactly when the resolution
/// mechanism ran and produced at least one candidate.
pub fn get_socket_addr(hostname: String, candidates: Option<Vec<String>>) -> (r: Result<
    HostAddr,
    ResolveError,
>)
    ensures
        match candidates {
            Option::None => r matches Err(e) && e == ResolveError::ResolutionFailed,
            Option::Some(list) => {
                if list@.len() == 0 {
                    r matches Err(e) && e == ResolveError::NoAddressFound
                } else {
                    r matches Ok(h) && h.addr@ == list@[0]@ && h.hostname@ == hostname@
                }
            },
        },
{
    match first_address(candidates) {
        Ok(addr) => Ok(HostAddr { addr, hostname }),
        Err(e) => Err(e),
    }
}

} // verus!
