//! Per-vehicle control schemes.
//!
//! A control scheme names a fixed layout of physical keys and turns a
//! snapshot of the pressed keys into a control vector for exactly one
//! vehicle. Each scheme reads only its own disjoint set of key codes,
//! so several schemes evaluate independently every tick without
//! interference. Evaluation is a pure function of the snapshot and the
//! scheme's static binding table; no state is kept between ticks.

use vstd::prelude::*;

verus! {

/// Key codes of the first layout: W / S / A / D with space as brake.
pub const SCHEME_A_FORWARD: u16 = 87;
pub const SCHEME_A_REVERSE: u16 = 83;
pub const SCHEME_A_LEFT: u16 = 65;
pub const SCHEME_A_RIGHT: u16 = 68;
pub const SCHEME_A_BRAKE: u16 = 32;

/// Key codes of the second layout: the arrow keys with right shift as
/// brake.
pub const SCHEME_B_FORWARD: u16 = 38;
pub const SCHEME_B_REVERSE: u16 = 40;
pub const SCHEME_B_LEFT: u16 = 37;
pub const SCHEME_B_RIGHT: u16 = 39;
pub const SCHEME_B_BRAKE: u16 = 161;

/// Full deflection of a control axis, in hundredths.
pub const CONTROL_FULL: i64 = 100;

/// A named input layout, bound to exactly one vehicle. The closed set
/// of variants keeps the binding tables disjoint by construction.
#[derive(Clone, Copy, PartialEq, Eq, Structural, Debug)]
pub enum ControlSchemeId {
    SchemeA,
    SchemeB,
}

/// The throttle/steering/brake triple one scheme produces for one
/// tick, in hundredths of full deflection.
#[derive(Clone, Copy, PartialEq, Eq, Structural, Debug)]
pub struct ControlVector {
    /// Forward drive, -100 ..= 100.
    pub throttle: i64,
    /// Steering, -100 (left) ..= 100 (right).
    pub steering: i64,
    /// Brake, 0 ..= 100.
    pub brake: i64,
}

impl ControlVector {
    /// Every axis lies inside its declared range.
    pub open spec fn wf(self) -> bool {
        &&& -CONTROL_FULL <= self.throttle <= CONTROL_FULL
        &&& -CONTROL_FULL <= self.steering <= CONTROL_FULL
        &&& 0 <= self.brake <= CONTROL_FULL
    }

    /// The vector a missing input device degrades to.
    pub fn neutral() -> (r: ControlVector)
        ensures
            r == (ControlVector { throttle: 0i64, steering: 0i64, brake: 0i64 }),
            r.wf(),
    {
        ControlVector { throttle: 0, steering: 0, brake: 0 }
    }
}

/// The forward key of `scheme`.
pub open spec fn forward_key(scheme: ControlSchemeId) -> u16 {
    match scheme {
        ControlSchemeId::SchemeA => SCHEME_A_FORWARD,
        ControlSchemeId::SchemeB => SCHEME_B_FORWARD,
    }
}

/// The reverse key of `scheme`.
pub open spec fn reverse_key(scheme: ControlSchemeId) -> u16 {
    match scheme {
        ControlSchemeId::SchemeA => SCHEME_A_REVERSE,
        ControlSchemeId::SchemeB => SCHEME_B_REVERSE,
    }
}

/// The steer-left key of `scheme`.
pub open spec fn left_key(scheme: ControlSchemeId) -> u16 {
    match scheme {
        ControlSchemeId::SchemeA => SCHEME_A_LEFT,
        ControlSchemeId::SchemeB => SCHEME_B_LEFT,
    }
}

/// The steer-right key of `scheme`.
pub open spec fn right_key(scheme: ControlSchemeId) -> u16 {
    match scheme {
        ControlSchemeId::SchemeA => SCHEME_A_RIGHT,
        ControlSchemeId::SchemeB => SCHEME_B_RIGHT,
    }
}

/// The brake key of `scheme`.
pub open spec fn brake_key(scheme: ControlSchemeId) -> u16 {
    match scheme {
        ControlSchemeId::SchemeA => SCHEME_A_BRAKE,
        ControlSchemeId::SchemeB => SCHEME_B_BRAKE,
    }
}

/// The full binding table of `scheme`.
pub open spec fn bindings(scheme: ControlSchemeId) -> Set<u16> {
    set![
        forward_key(scheme),
        reverse_key(scheme),
        left_key(scheme),
        right_key(scheme),
        brake_key(scheme),
    ]
}

/// No key belongs to two different schemes: the binding tables are
/// mutually exclusive input-device partitions.
pub proof fn lemma_bindings_disjoint(a: ControlSchemeId, b: ControlSchemeId)
    requires
        a != b,
    ensures
        bindings(a).disjoint(bindings(b)),
{
    assert forall|k: u16| bindings(a).contains(k) implies !bindings(b).contains(k) by {
    }
}

/// One axis from a pressed pair: positive key minus negative key, at
/// full deflection.
pub open spec fn spec_axis(positive: bool, negative: bool) -> i64 {
    ((if positive {
        CONTROL_FULL as int
    } else {
        0int
    }) - (if negative {
        CONTROL_FULL as int
    } else {
        0int
    })) as i64
}

/// The control vector `scheme` produces for the snapshot `pressed`
/// (the key codes held down this tick). Only membership of the
/// scheme's own five keys matters.
pub open spec fn spec_evaluate(scheme: ControlSchemeId, pressed: Seq<u16>) -> ControlVector {
    ControlVector {
        throttle: spec_axis(pressed.contains(forward_key(scheme)), pressed.contains(reverse_key(scheme))),
        steering: spec_axis(pressed.contains(right_key(scheme)), pressed.contains(left_key(scheme))),
        brake: if pressed.contains(brake_key(scheme)) {
            CONTROL_FULL
        } else {
            0
        },
    }
}

/// Whether `keys` holds `key`.
fn pressed_contains(keys: &Vec<u16>, key: u16) -> (r: bool)
    ensures
        r == keys@.contains(key),
{
    let n = keys.len();
    let mut i: usize = 0;
    while i < n
        invariant
            i <= n,
            n == keys@.len(),
            forall|j: int| 0 <= j < i ==> keys@[j] != key,
        decreases n - i,
    {
        if keys[i] == key {
            return true;
        }
        i = i + 1;
    }
    false
}

/// Evaluate `scheme` on a snapshot of pressed key codes. Pure in its
/// arguments; an empty snapshot (a missing device) gives the neutral
/// vector.
pub fn evaluate(scheme: ControlSchemeId, pressed: &Vec<u16>) -> (r: ControlVector)
    ensures
        r == spec_evaluate(scheme, pressed@),
        r.wf(),
{
    let (fwd, rev, left, right, brake) = match scheme {
        ControlSchemeId::SchemeA => (
            SCHEME_A_FORWARD,
            SCHEME_A_REVERSE,
            SCHEME_A_LEFT,
            SCHEME_A_RIGHT,
            SCHEME_A_BRAKE,
        ),
        ControlSchemeId::SchemeB => (
            SCHEME_B_FORWARD,
            SCHEME_B_REVERSE,
            SCHEME_B_LEFT,
            SCHEME_B_RIGHT,
            SCHEME_B_BRAKE,
        ),
    };
    let throttle = (if pressed_contains(pressed, fwd) {
        CONTROL_FULL
    } else {
        0
    }) - (if pressed_contains(pressed, rev) {
        CONTROL_FULL
    } else {
        0
    });
    let steering = (if pressed_contains(pressed, right) {
        CONTROL_FULL
    } else {
        0
    }) - (if pressed_contains(pressed, left) {
        CONTROL_FULL
    } else {
        0
    });
    let brake_axis = if pressed_contains(pressed, brake) {
        CONTROL_FULL
    } else {
        0
    };
    ControlVector { throttle, steering, brake: brake_axis }
}

/// No cross-talk: a scheme's control vector depends only on its own
/// bound keys. Two snapshots that agree on the scheme's bindings —
/// however they differ on every other vehicle's keys — produce the
/// same control vector.
pub proof fn lemma_no_cross_talk(scheme: ControlSchemeId, s1: Seq<u16>, s2: Seq<u16>)
    requires
        forall|k: u16| bindings(scheme).contains(k) ==> (s1.contains(k) == s2.contains(k)),
    ensures
        spec_evaluate(scheme, s1) == spec_evaluate(scheme, s2),
{
    assert(bindings(scheme).contains(forward_key(scheme)));
    assert(bindings(scheme).contains(reverse_key(scheme)));
    assert(bindings(scheme).contains(left_key(scheme)));
    assert(bindings(scheme).contains(right_key(scheme)));
    assert(bindings(scheme).contains(brake_key(scheme)));
}

} // verus!
