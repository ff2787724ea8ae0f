//! Towers: fixed emplacements that cycle deterministically through a
//! charge/fire state machine and threaten a beam while firing.

use vstd::prelude::*;

use crate::geometry::{Direction, Position};

verus! {

/// Phase of a tower's cycle: counting down through `Charging(n)` from
/// `interval - 1` to `Charging(1)`, then one `Firing` step.
#[derive(Clone, Copy, PartialEq, Eq, Structural, Debug)]
pub enum TowerState {
    Charging(i8),
    Firing,
}

/// A tower. Its position, facing direction, period and range never change
/// after construction; only `state` advances, once per accepted snake move.
#[derive(Clone, Copy, PartialEq, Eq, Structural, Debug)]
pub struct Tower {
    pub direction: Direction,
    pub interval: i8,
    pub position: Position,
    pub state: TowerState,
    pub range: u8,
}

impl Tower {
    /// Well-formed: the period has at least one charging step besides the
    /// firing step, and a charging counter lies in `1 ..= interval - 1`.
    pub open spec fn wf(self) -> bool {
        &&& 2 <= self.interval
        &&& match self.state {
            TowerState::Charging(n) => 1 <= n <= self.interval - 1,
            TowerState::Firing => true,
        }
    }

    /// The tower after one advance of its state machine:
    /// `Firing` recharges to `Charging(interval - 1)`, `Charging(1)` fires,
    /// and any other `Charging(n)` counts down to `Charging(n - 1)`.
    pub open spec fn stepped(self) -> Tower {
        Tower {
            state: match self.state {
                TowerState::Firing => TowerState::Charging((self.interval - 1) as i8),
                TowerState::Charging(n) => if n == 1 {
                    TowerState::Firing
                } else {
                    TowerState::Charging((n - 1) as i8)
                },
            },
            ..self
        }
    }

    /// Steps left until this tower fires: `0` while it is firing.
    pub open spec fn phase(self) -> int {
        match self.state {
            TowerState::Firing => 0,
            TowerState::Charging(n) => n as int,
        }
    }
}

/// The tower after `k` advances of its state machine.
pub open spec fn tower_after(t: Tower, k: nat) -> Tower
    decreases k,
{
    if k == 0 {
        t
    } else {
        tower_after(t, (k - 1) as nat).stepped()
    }
}

/// Advance a tower's state machine by one step.
pub fn update_tower(tower: &Tower) -> (r: Tower)
    requires
        tower.wf(),
    ensures
        r == tower.stepped(),
        r.wf(),
{
    Tower {
        state: match tower.state {
            TowerState::Firing => TowerState::Charging(tower.interval - 1),
            TowerState::Charging(1) => TowerState::Firing,
            TowerState::Charging(i) => TowerState::Charging(i - 1),
        },
        ..*tower
    }
}

/// One advance keeps a tower well-formed.
pub proof fn lemma_stepped_wf(t: Tower)
    requires
        t.wf(),
    ensures
        t.stepped().wf(),
{
}

/// Advancing `a + b` steps is advancing `a` steps and then `b` steps.
pub proof fn lemma_after_add(t: Tower, a: nat, b: nat)
    ensures
        tower_after(t, a + b) == tower_after(tower_after(t, a), b),
    decreases b,
{
    if b > 0 {
        lemma_after_add(t, a, (b - 1) as nat);
        assert(tower_after(t, a + b) == tower_after(t, (a + (b - 1) as nat) + 1));
    }
}

/// A charging tower counts down: after `k <= phase` advances it is at
/// `Charging(phase - k)`, and exactly at `k == phase` it is firing.
proof fn lemma_countdown(t: Tower, k: nat)
    requires
        t.wf(),
        k <= t.phase(),
    ensures
        k < t.phase() ==> tower_after(t, k) == (Tower {
            state: TowerState::Charging((t.phase() - k) as i8),
            ..t
        }),
        k == t.phase() ==> tower_after(t, k) == (Tower { state: TowerState::Firing, ..t }),
    decreases k,
{
    if k > 0 {
        lemma_countdown(t, (k - 1) as nat);
    }
}

/// From a firing tower, `k` advances with `1 <= k <= interval - 1` reach
/// `Charging(interval - k)`.
proof fn lemma_from_firing(t: Tower, k: nat)
    requires
        t.wf(),
        t.state is Firing,
        1 <= k <= t.interval - 1,
    ensures
        tower_after(t, k) == (Tower {
            state: TowerState::Charging((t.interval - k) as i8),
            ..t
        }),
{
    let t1 = t.stepped();
    assert(tower_after(t, 0) == t);
    assert(tower_after(t, 1) == t1);
    assert(t1.phase() == t.interval - 1);
    if k > 1 {
        lemma_after_add(t, 1, (k - 1) as nat);
        lemma_countdown(t1, (k - 1) as nat);
    }
}

/// Law: a well-formed tower's state sequence is periodic with period
/// `interval`, and exactly one step of each period is firing — the step
/// `phase()` advances from now.
pub proof fn lemma_tower_period(t: Tower)
    requires
        t.wf(),
    ensures
        tower_after(t, t.interval as nat) == t,
        forall|j: nat|
            j < t.interval ==> (#[trigger] tower_after(t, j).state is Firing <==> j == t.phase()),
{
    let p = t.phase() as nat;
    lemma_countdown(t, p);
    let f = tower_after(t, p);
    assert(f.state is Firing);
    assert forall|j: nat| j < t.interval implies (#[trigger] tower_after(
        t,
        j,
    ).state is Firing <==> j == t.phase()) by {
        if j < p {
            lemma_countdown(t, j);
        } else if j > p {
            lemma_after_add(t, p, (j - p) as nat);
            lemma_from_firing(f, (j - p) as nat);
        }
    }
    lemma_after_add(t, p, (t.interval - p) as nat);
    if p == 0 {
        assert(f == t);
        lemma_from_firing(t, (t.interval - 1) as nat);
        assert(tower_after(t, t.interval as nat) == tower_after(t, (t.interval - 1) as nat).stepped());
    } else {
        lemma_from_firing(f, (t.interval - p) as nat);
        assert(tower_after(f, (t.interval - p) as nat) == t);
    }
}

} // verus!
