use vstd::prelude::*;

verus! {

/// What the nearest-hit scan learns of one primitive: whether the ray hits
/// it, whether that hit is closer to the ray origin than the best one so far,
/// and whether it lies within the render distance.
#[derive(Clone, Copy, Debug, PartialEq, Eq, Structural)]
pub struct HitOutcome {
    pub hit: bool,
    pub closer: bool,
    pub within_range: bool,
}

/// The best primitive after the scan has looked at primitive `index`: that
/// one, where it is hit closer than the best so far and within the render
/// distance; else the best so far.
pub open spec fn scan_step_of(best: Option<usize>, index: usize, outcome: HitOutcome) -> Option<usize> {
    if outcome.hit && outcome.closer && outcome.within_range {
        Some(index)
    } else {
        best
    }
}

/// The result of a scan over primitives `0, 1, ...` whose outcomes, in scan
/// order, are `outcomes`.
pub open spec fn scan_of(outcomes: Seq<HitOutcome>) -> Option<usize>
    decreases outcomes.len(),
{
    if outcomes.len() == 0 {
        None
    } else {
        scan_step_of(
            scan_of(outcomes.drop_last()),
            (outcomes.len() - 1) as usize,
            outcomes.last(),
        )
    }
}

/// One step of the nearest-hit scan; see `scan_step_of`.
pub fn scan_step(best: Option<usize>, index: usize, outcome: HitOutcome) -> (r: Option<usize>)
    ensures
        r == scan_step_of(best, index, outcome),
{
    if outcome.hit && outcome.closer && outcome.within_range {
        Some(index)
    } else {
        best
    }
}

/// The scan keeps only hits within the render distance: where it finds a
/// primitive, that primitive was hit within it, and where no primitive is hit
/// within it (as for a ray whose origin lies beyond the render distance from
/// all geometry), the scan finds no hit.
pub proof fn lemma_scan_within_range(outcomes: Seq<HitOutcome>)
    requires
        outcomes.len() <= usize::MAX,
    ensures
        scan_of(outcomes) matches Some(i) ==> i < outcomes.len() && outcomes[i as int].hit
            && outcomes[i as int].within_range,
        (forall|j: int| 0 <= j < outcomes.len() ==> !(#[trigger] outcomes[j].hit && outcomes[j].within_range))
            ==> scan_of(outcomes) == None::<usize>,
    decreases outcomes.len(),
{
    if outcomes.len() > 0 {
        let rest = outcomes.drop_last();
        lemma_scan_within_range(rest);
        assert forall|j: int| 0 <= j < rest.len() implies rest[j] == outcomes[j] by {}
        if let Some(i) = scan_of(rest) {
            assert(rest[i as int] == outcomes[i as int]);
        }
        assert(outcomes.last() == outcomes[outcomes.len() - 1]);
    }
}

} // verus!
