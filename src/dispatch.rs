use vstd::prelude::*;

verus! {

/// What a consumer says after each result: go on, or stop reading.
#[derive(PartialEq, Eq, Structural, Clone, Copy, Debug)]
pub enum Verdict {
    Continue,
    Stop,
}

impl Verdict {
    /// Stop exactly when handing a result downstream failed, that is when the
    /// receiving side is gone.
    pub fn from_send<T, E>(sent: &Result<T, E>) -> (r: Verdict)
        ensures
            r == (if sent is Ok {
                Verdict::Continue
            } else {
                Verdict::Stop
            }),
    {
        match sent {
            Ok(_) => Verdict::Continue,
            Err(_) => Verdict::Stop,
        }
    }

    /// Whether this ends the loop.
    pub fn is_stop(&self) -> (r: bool)
        ensures
            r == (*self == Verdict::Stop),
    {
        match self {
            Verdict::Continue => false,
            Verdict::Stop => true,
        }
    }
}

/// The capacity of the channel that the readers of `endpoints` endpoints
/// share: room for one result of each, and never zero.
pub fn fan_in_capacity(endpoints: usize) -> (r: usize)
    ensures
        r >= endpoints,
        r >= 1,
        r == endpoints || r == 1,
{
    if endpoints == 0 {
        1
    } else {
        endpoints
    }
}

} // verus!
