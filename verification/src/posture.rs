//! The five defensive postures, their escalation order, the breakpoints that
//! map a threat level to a posture, and the hysteresis gate that decides
//! whether a proposed transition is committed.
//!
//! Threat levels are carried in thousandths: 0 stands for 0.0 and 1000 for
//! 1.0.

use vstd::prelude::*;

verus! {

/// The whole threat scale: 1000 thousandths stand for a threat level of 1.0.
pub const THREAT_SCALE: u32 = 1000;

/// An escalation is allowed only once the new threat level exceeds this floor
/// (0.3 on the unit scale): escalate readily, but not on noise.
pub const ESCALATION_FLOOR: u32 = 300;

/// A de-escalation is allowed only when the threat level has dropped by more
/// than this gap (0.2 on the unit scale): de-escalate cautiously.
pub const DEESCALATION_GAP: u32 = 200;

/// Default hysteresis-override threshold (0.75 on the unit scale): a jump of
/// the threat level larger than this always allows the transition.
pub const DEFAULT_CHANGE_THRESHOLD: u32 = 750;

/// Current defensive posture of the system.
#[derive(Debug, Clone, Copy, PartialEq, Eq, Structural)]
pub enum Posture {
    /// No visible services, minimal footprint.
    Silent,
    /// Standard server appearance.
    Neutral,
    /// Mimicking a specific target system.
    Mimetic,
    /// Aggressive counter-measures.
    Fulgurant,
    /// Unpredictable behavior to confuse attackers.
    Unstable,
}

impl Posture {
    /// Position of a posture in the fixed escalation order
    /// Neutral < Silent < Mimetic < Fulgurant < Unstable.
    pub open spec fn spec_rank(self) -> int {
        match self {
            Posture::Neutral => 0,
            Posture::Silent => 1,
            Posture::Mimetic => 2,
            Posture::Fulgurant => 3,
            Posture::Unstable => 4,
        }
    }

    /// Executable escalation rank; see [`Posture::spec_rank`].
    pub fn rank(self) -> (r: u8)
        ensures
            r as int == self.spec_rank(),
    {
        match self {
            Posture::Neutral => 0,
            Posture::Silent => 1,
            Posture::Mimetic => 2,
            Posture::Fulgurant => 3,
            Posture::Unstable => 4,
        }
    }

    /// Stable lower-case name of the posture.
    pub fn to_str(self) -> (r: &'static str)
        ensures
            r@ == self.spec_name(),
    {
        match self {
            Posture::Silent => "silent",
            Posture::Neutral => "neutral",
            Posture::Mimetic => "mimetic",
            Posture::Fulgurant => "fulgurant",
            Posture::Unstable => "unstable",
        }
    }

    pub open spec fn spec_name(self) -> Seq<char> {
        match self {
            Posture::Silent => "silent"@,
            Posture::Neutral => "neutral"@,
            Posture::Mimetic => "mimetic"@,
            Posture::Fulgurant => "fulgurant"@,
            Posture::Unstable => "unstable"@,
        }
    }
}

/// The posture a name denotes, compared without regard to ASCII case.
pub open spec fn spec_posture_from(s: Seq<char>) -> Option<Posture> {
    if crate::strutil::ci_eq(s, "silent"@) {
        Some(Posture::Silent)
    } else if crate::strutil::ci_eq(s, "neutral"@) {
        Some(Posture::Neutral)
    } else if crate::strutil::ci_eq(s, "mimetic"@) {
        Some(Posture::Mimetic)
    } else if crate::strutil::ci_eq(s, "fulgurant"@) {
        Some(Posture::Fulgurant)
    } else if crate::strutil::ci_eq(s, "unstable"@) {
        Some(Posture::Unstable)
    } else {
        None
    }
}

impl Posture {
    /// Parse a posture name, without regard to ASCII case; unknown names
    /// parse to nothing.
    pub fn from_str(s: &str) -> (r: Option<Posture>)
        ensures
            r == spec_posture_from(s@),
    {
        if crate::strutil::str_eq_ci(s, "silent") {
            Some(Posture::Silent)
        } else if crate::strutil::str_eq_ci(s, "neutral") {
            Some(Posture::Neutral)
        } else if crate::strutil::str_eq_ci(s, "mimetic") {
            Some(Posture::Mimetic)
        } else if crate::strutil::str_eq_ci(s, "fulgurant") {
            Some(Posture::Fulgurant)
        } else if crate::strutil::str_eq_ci(s, "unstable") {
            Some(Posture::Unstable)
        } else {
            None
        }
    }
}

/// The posture proposed for a given threat level, by the fixed breakpoints
/// 0.20, 0.40, 0.60 and 0.80 of the unit scale.
pub open spec fn spec_posture_for(threat: u32) -> Posture {
    if threat < 200 {
        Posture::Neutral
    } else if threat < 400 {
        Posture::Silent
    } else if threat < 600 {
        Posture::Mimetic
    } else if threat < 800 {
        Posture::Fulgurant
    } else {
        Posture::Unstable
    }
}

/// Map a threat level (in thousandths) to the posture proposed for it.
pub fn posture_for(threat: u32) -> (r: Posture)
    ensures
        r == spec_posture_for(threat),
{
    if threat < 200 {
        Posture::Neutral
    } else if threat < 400 {
        Posture::Silent
    } else if threat < 600 {
        Posture::Mimetic
    } else if threat < 800 {
        Posture::Fulgurant
    } else {
        Posture::Unstable
    }
}

/// Absolute difference of two threat levels.
pub open spec fn spec_threat_gap(a: u32, b: u32) -> int {
    if a >= b {
        a - b
    } else {
        b - a
    }
}

/// The hysteresis gate: whether a transition from `old` to `proposed` is
/// allowed, given the threat level before (`old_threat`) and after
/// (`new_threat`) the event, in thousandths.
///
/// A jump larger than `threshold` always allows the change.  Otherwise an
/// escalation needs the threat to have risen above [`ESCALATION_FLOOR`], and a
/// de-escalation needs a drop larger than [`DEESCALATION_GAP`].  Comparing a
/// posture with itself is a caller defect and never allows a change.
pub open spec fn spec_should_change(
    old: Posture,
    proposed: Posture,
    old_threat: u32,
    new_threat: u32,
    threshold: u32,
) -> bool {
    if spec_threat_gap(new_threat, old_threat) > threshold {
        true
    } else if proposed.spec_rank() == old.spec_rank() {
        false
    } else if proposed.spec_rank() > old.spec_rank() {
        new_threat > old_threat && new_threat > ESCALATION_FLOOR
    } else {
        new_threat < old_threat && old_threat - new_threat > DEESCALATION_GAP
    }
}

/// Executable hysteresis gate; see [`spec_should_change`].
pub fn should_change(
    old: Posture,
    proposed: Posture,
    old_threat: u32,
    new_threat: u32,
    threshold: u32,
) -> (r: bool)
    ensures
        r == spec_should_change(old, proposed, old_threat, new_threat, threshold),
{
    let gap: u32 = if new_threat >= old_threat {
        new_threat - old_threat
    } else {
        old_threat - new_threat
    };
    if gap > threshold {
        true
    } else {
        let old_rank = old.rank();
        let new_rank = proposed.rank();
        if new_rank == old_rank {
            false
        } else if new_rank > old_rank {
            new_threat > old_threat && new_threat > ESCALATION_FLOOR
        } else {
            new_threat < old_threat && old_threat - new_threat > DEESCALATION_GAP
        }
    }
}

/// Law: gating never flips a posture on a small escalation.  Without a
/// threshold override, no escalation is allowed while the new threat level is
/// still at or below the escalation floor (0.3 of the unit scale), however
/// many events arrive.
pub proof fn lemma_no_escalation_below_floor(
    old: Posture,
    proposed: Posture,
    old_threat: u32,
    new_threat: u32,
    threshold: u32,
)
    requires
        proposed.spec_rank() > old.spec_rank(),
        spec_threat_gap(new_threat, old_threat) <= threshold,
        new_threat <= ESCALATION_FLOOR,
    ensures
        !spec_should_change(old, proposed, old_threat, new_threat, threshold),
{
}

/// Law: de-escalation requires a larger gap than escalation.  Without a
/// threshold override, a de-escalation is refused while the threat level has
/// not dropped by more than the de-escalation gap (0.2 of the unit scale),
/// and is granted as soon as it has.
pub proof fn lemma_deescalation_needs_gap(
    old: Posture,
    proposed: Posture,
    old_threat: u32,
    new_threat: u32,
    threshold: u32,
)
    requires
        proposed.spec_rank() < old.spec_rank(),
        spec_threat_gap(new_threat, old_threat) <= threshold,
    ensures
        old_threat - new_threat <= DEESCALATION_GAP
            ==> !spec_should_change(old, proposed, old_threat, new_threat, threshold),
        new_threat < old_threat && old_threat - new_threat > DEESCALATION_GAP
            ==> spec_should_change(old, proposed, old_threat, new_threat, threshold),
{
}

} // verus!
