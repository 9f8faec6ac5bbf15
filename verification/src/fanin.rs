use vstd::prelude::*;

verus! {

/// Which of the two accept sources an item came from.
#[derive(Clone, Copy, PartialEq, Eq, Structural, Debug)]
pub enum SourceId {
    First,
    Second,
}

/// One cooperative poll of an accept source: an item is ready, or the
/// source would block until woken.
pub enum SourcePoll<T> {
    Ready(T),
    Pending,
}

/// One poll of the combined accept stream, decided from the current polls
/// of its two sources. The first source is checked first and wins under
/// simultaneous readiness — a deliberate, documented bias, not a fairness
/// guarantee; the second source's item is taken only when the first has
/// none; the combined poll is pending only when both sources are.
pub fn fan_in_step<T>(a: SourcePoll<T>, b: SourcePoll<T>) -> (r: SourcePoll<(SourceId, T)>)
    ensures
        a matches SourcePoll::Ready(v) ==> (r matches SourcePoll::Ready(p) && p.0
            == SourceId::First && p.1 == v),
        a is Pending ==> (b matches SourcePoll::Ready(v) ==> (r matches SourcePoll::Ready(p) && p.0
            == SourceId::Second && p.1 == v)),
        a is Pending && b is Pending ==> r is Pending,
{
    match a {
        SourcePoll::Ready(v) => SourcePoll::Ready((SourceId::First, v)),
        SourcePoll::Pending => match b {
            SourcePoll::Ready(v) => SourcePoll::Ready((SourceId::Second, v)),
            SourcePoll::Pending => SourcePoll::Pending,
        },
    }
}

} // verus!
