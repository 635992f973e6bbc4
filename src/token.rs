use vstd::prelude::*;

verus! {

/// The raw readiness token of the listener; waiter slots are shifted past it.
pub const LISTENER: usize = 0;

#[verifier::external_type_specification]
pub struct ExToken(mio::Token);

/// Where a readiness event comes from.
#[derive(Clone, Copy, Debug, PartialEq, Eq, Structural)]
pub enum Source {
    /// The bound listener: a new waiter is ready to be accepted.
    Listener,
    /// The waiter connection held at this slot of the connection table.
    Waiter(usize),
}

/// The token under which the connection at table slot `idx` is registered.
pub fn socket_token(idx: usize) -> (r: mio::Token)
    requires
        idx < usize::MAX,
    ensures
        r.0 == idx + 1,
{
    mio::Token(idx + 1)
}

/// The table slot of a waiter token.
pub fn socket_idx(token: mio::Token) -> (r: usize)
    requires
        token.0 > 0,
    ensures
        r == token.0 - 1,
{
    token.0 - 1
}

/// Resolves a raw token to the readiness source it stands for.
pub fn source_of(token: mio::Token) -> (r: Source)
    ensures
        token.0 == 0 ==> r == Source::Listener,
        token.0 > 0 ==> r == Source::Waiter((token.0 - 1) as usize),
{
    if token.0 == LISTENER {
        Source::Listener
    } else {
        Source::Waiter(socket_idx(token))
    }
}

} // verus!
