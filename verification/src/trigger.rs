//! Trigger-source aggregation.
//!
//! A trigger source answers "is the activation control engaged" as a
//! poll-able value. The aggregate over several physical sources is a logical
//! OR of the live sources; once every source has terminated the aggregate
//! itself is terminated, which polling reports as `None` rather than
//! `Some(false)`.

use vstd::prelude::*;

verus! {

/// What one backing source currently reports: the control is up, the control
/// is down, or the source has gone away for good (its device closed or its
/// monitor failed).
#[derive(Clone, Copy, Debug, PartialEq, Eq, Structural)]
pub enum SourceStatus {
    Released,
    Pressed,
    Terminated,
}

/// At least one source reports the control held down.
pub open spec fn any_pressed(s: Seq<SourceStatus>) -> bool {
    exists|i: int| 0 <= i < s.len() && s[i] is Pressed
}

/// Every source has terminated (vacuously true of an empty set of sources).
pub open spec fn all_terminated(s: Seq<SourceStatus>) -> bool {
    forall|i: int| 0 <= i < s.len() ==> s[i] is Terminated
}

/// The polling contract of the aggregate trigger: `Some(true)` exactly when a
/// live source holds the control down, `Some(false)` when all live sources
/// report it up, and `None` exactly when no live source remains.
pub open spec fn aggregate_spec(s: Seq<SourceStatus>) -> Option<bool> {
    if all_terminated(s) {
        None
    } else {
        Some(any_pressed(s))
    }
}

/// Combine one poll of every backing source into the aggregate answer.
pub fn aggregate_pressed(sources: &Vec<SourceStatus>) -> (r: Option<bool>)
    ensures
        r == aggregate_spec(sources@),
{
    let mut pressed = false;
    let mut live = false;
    let n: usize = sources.len();
    for i in 0..n
        invariant
            n == sources@.len(),
            pressed == any_pressed(sources@.take(i as int)),
            live == !all_terminated(sources@.take(i as int)),
    {
        match sources[i] {
            SourceStatus::Pressed => {
                pressed = true;
                live = true;
            },
            SourceStatus::Released => {
                live = true;
            },
            SourceStatus::Terminated => {},
        }
        proof {
            assert(sources@.take(i + 1).drop_last() =~= sources@.take(i as int));
            assert(sources@.take(i + 1).last() == sources@[i as int]);
        }
    }
    proof {
        assert(sources@.take(n as int) =~= sources@);
    }
    if !live {
        None
    } else {
        Some(pressed)
    }
}

/// Trigger aggregation law: the aggregate is `true` exactly when at least one
/// source reports pressed, and it is `None` only once every source has
/// terminated — a source that is merely terminated does not mask another that
/// is still held down.
pub proof fn lemma_trigger_aggregation(s: Seq<SourceStatus>)
    ensures
        aggregate_spec(s) == Some(true) <==> any_pressed(s),
        aggregate_spec(s) is None <==> all_terminated(s),
{
    if any_pressed(s) {
        let i = choose|i: int| 0 <= i < s.len() && s[i] is Pressed;
        assert(!(s[i] is Terminated));
    }
}

} // verus!
