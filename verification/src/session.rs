use vstd::prelude::*;

verus! {

/// Where one group's alignment stands in the two-stage pipeline.
#[derive(Clone, Copy, PartialEq, Eq, Structural, Debug)]
pub enum AlignPhase {
    /// Waiting for the coincidence guard: the mean per-rank distance between
    /// the two origin-ranked point sets, compared against the tolerance.
    NeedCoincidenceCheck,
    /// Waiting for the centroid-relative rotation of the first stage.
    NeedLocalRotation,
    /// Waiting for the origin-relative rotation of the second stage.
    NeedGlobalRotation,
    /// The sets were already coincident: the result is the zero translation
    /// and the identity rotation, and no anchor work is attempted.
    SettledIdentity,
    /// Both stages succeeded: the result is the reference origin of the
    /// first stage and the refined rotation of the second.
    SettledTransform,
    /// A stage could not determine a rotation; the group has no result.
    Undetermined,
}

/// The alignment pipeline of one group, tracked phase by phase.
///
/// The caller performs each pending piece of numeric work and reports its
/// outcome; the session decides what follows. The contracts pin the policy:
/// coincident inputs settle to the identity at once, a failed rotation stage
/// settles to undetermined, and only the guard followed by two successful
/// rotation stages yields a transform.
pub struct AlignSession {
    pub phase: AlignPhase,
}

impl AlignSession {
    /// A fresh session: nothing is known until the coincidence guard runs.
    pub fn new() -> (s: Self)
        ensures
            s.phase == AlignPhase::NeedCoincidenceCheck,
    {
        AlignSession { phase: AlignPhase::NeedCoincidenceCheck }
    }

    /// Reports the coincidence guard. Already-coincident sets settle to the
    /// identity result immediately; otherwise the first rotation stage is due.
    pub fn record_coincidence(&mut self, coincident: bool)
        requires
            old(self).phase == AlignPhase::NeedCoincidenceCheck,
        ensures
            final(self).phase == if coincident {
                AlignPhase::SettledIdentity
            } else {
                AlignPhase::NeedLocalRotation
            },
    {
        self.phase = if coincident {
            AlignPhase::SettledIdentity
        } else {
            AlignPhase::NeedLocalRotation
        };
    }

    /// Reports the centroid-relative rotation stage. Success moves the
    /// session on to the origin-relative stage; failure is final.
    pub fn record_local_rotation(&mut self, found: bool)
        requires
            old(self).phase == AlignPhase::NeedLocalRotation,
        ensures
            final(self).phase == if found {
                AlignPhase::NeedGlobalRotation
            } else {
                AlignPhase::Undetermined
            },
    {
        self.phase = if found {
            AlignPhase::NeedGlobalRotation
        } else {
            AlignPhase::Undetermined
        };
    }

    /// Reports the origin-relative rotation stage, the last step: success
    /// settles the transform, failure leaves the group undetermined.
    pub fn record_global_rotation(&mut self, found: bool)
        requires
            old(self).phase == AlignPhase::NeedGlobalRotation,
        ensures
            final(self).phase == if found {
                AlignPhase::SettledTransform
            } else {
                AlignPhase::Undetermined
            },
    {
        self.phase = if found {
            AlignPhase::SettledTransform
        } else {
            AlignPhase::Undetermined
        };
    }
}

} // verus!
