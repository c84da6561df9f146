//! Short-lived effects (smoke puffs, sound cues) that count down, fade and
//! disappear.

use vstd::prelude::*;
use crate::geometry::COORD_LIMIT;
use crate::timer::{Timer, TimerMode, MAX_DT_MS};

verus! {

/// Lifetime of a smoke puff or a sound cue, in milliseconds.
pub const EFFECT_LIFETIME_MS: u64 = 2000;

/// Time over which a smoke puff fades out, in milliseconds.
pub const FADE_WINDOW_MS: u64 = 2000;

/// Full opacity, in thousandths.
pub const OPAQUE: u64 = 1000;

/// What a short-lived effect is: a smoke puff that fades out, or a one-shot
/// sound (of a hit or of a shot) that just ends.
#[derive(Clone, Copy, Debug, PartialEq, Eq, Structural)]
pub enum EffectKind {
    Smoke,
    HitSound,
    FireSound,
}

/// A transient effect at a position (micro-pixels) with its countdown.
#[derive(Clone, Copy, Debug, PartialEq, Eq, Structural)]
pub struct TimedEffect {
    pub x: i64,
    pub y: i64,
    pub kind: EffectKind,
    pub timer: Timer,
}

impl TimedEffect {
    /// A live effect: its one-shot countdown has time left.
    pub open spec fn wf(self) -> bool {
        &&& -COORD_LIMIT <= self.x <= COORD_LIMIT
        &&& -COORD_LIMIT <= self.y <= COORD_LIMIT
        &&& self.timer.wf()
        &&& self.timer.mode == TimerMode::Once
        &&& self.timer.elapsed_ms < self.timer.duration_ms
    }

    pub open spec fn opacity_spec(self) -> int {
        let faded = self.timer.elapsed_ms * OPAQUE / FADE_WINDOW_MS as int;
        OPAQUE - (if faded > OPAQUE { OPAQUE as int } else { faded })
    }

    /// A fresh effect of `kind` at `(x, y)` that lasts the effect lifetime.
    pub fn new(x: i64, y: i64, kind: EffectKind) -> (e: TimedEffect)
        requires
            -COORD_LIMIT <= x <= COORD_LIMIT,
            -COORD_LIMIT <= y <= COORD_LIMIT,
        ensures
            e == fresh_effect(x, y, kind),
            e.wf(),
    {
        TimedEffect { x, y, kind, timer: Timer::new(EFFECT_LIFETIME_MS, TimerMode::Once) }
    }

    /// Opacity in thousandths: `1 - clamp(elapsed / fade window, 0, 1)`,
    /// where the elapsed time is the duration less the time remaining.
    pub fn opacity(&self) -> (r: u64)
        requires
            self.wf(),
        ensures
            r == self.opacity_spec(),
    {
        let faded: u64 = self.timer.elapsed_ms * OPAQUE / FADE_WINDOW_MS;
        if faded > OPAQUE {
            0
        } else {
            OPAQUE - faded
        }
    }
}

/// The opacity an effect is shown with, in thousandths: a smoke puff fades;
/// a sound has nothing to fade and counts as opaque.
pub open spec fn shown_opacity(e: TimedEffect) -> int {
    if e.kind == EffectKind::Smoke {
        e.opacity_spec()
    } else {
        OPAQUE as int
    }
}

/// The shown opacity of each effect in `effects`, in order.
pub fn opacities(effects: &Vec<TimedEffect>) -> (r: Vec<u64>)
    requires
        all_live(effects@),
    ensures
        r@.len() == effects@.len(),
        forall|i: int| 0 <= i < r@.len() ==> r@[i] == shown_opacity(#[trigger] effects@[i]),
{
    let mut r: Vec<u64> = Vec::new();
    let mut i: usize = 0;
    while i < effects.len()
        invariant
            all_live(effects@),
            0 <= i <= effects@.len(),
            r@.len() == i,
            forall|k: int| 0 <= k < i ==> r@[k] == shown_opacity(#[trigger] effects@[k]),
        decreases effects@.len() - i,
    {
        let e = effects[i];
        assert(effects@[i as int].wf());
        let o = if e.kind == EffectKind::Smoke {
            e.opacity()
        } else {
            OPAQUE
        };
        r.push(o);
        i = i + 1;
    }
    r
}

/// A smoke puff's opacity lies between zero and full, and a tick never
/// raises it: the puff kept after `dt` more milliseconds is no more opaque.
pub proof fn lemma_smoke_fades(e: TimedEffect, dt: int)
    requires
        e.wf(),
        dt >= 0,
    ensures
        0 <= e.opacity_spec() <= OPAQUE,
        !e.timer.ticked(dt).1 ==> (TimedEffect { timer: e.timer.ticked(dt).0, ..e }).opacity_spec()
            <= e.opacity_spec(),
{
    let e1 = e.timer.elapsed_ms as int;
    assert(0 <= e1 * 1000 / 2000) by (nonlinear_arith)
        requires
            e1 >= 0,
    ;
    if !e.timer.ticked(dt).1 {
        let e2 = e.timer.ticked(dt).0.elapsed_ms as int;
        assert(e2 == e1 + dt);
        assert(e1 * 1000 / 2000 <= e2 * 1000 / 2000) by (nonlinear_arith)
            requires
                0 <= e1 <= e2,
        {
            vstd::arithmetic::div_mod::lemma_div_is_ordered(e1 * 1000, e2 * 1000, 2000);
        }
    }
}

/// The effect that a hit or a shot creates.
pub open spec fn fresh_effect(x: i64, y: i64, kind: EffectKind) -> TimedEffect {
    TimedEffect {
        x,
        y,
        kind,
        timer: Timer { duration_ms: EFFECT_LIFETIME_MS, elapsed_ms: 0, mode: TimerMode::Once },
    }
}

/// The effects after `dt` milliseconds: those of `kind` count down, and each
/// whose countdown ends in this tick is removed; the others stay unchanged.
/// Order is kept.
pub open spec fn decayed(s: Seq<TimedEffect>, kind: EffectKind, dt: int) -> Seq<TimedEffect>
    decreases s.len(),
{
    if s.len() == 0 {
        seq![]
    } else {
        let rest = decayed(s.drop_last(), kind, dt);
        let e = s.last();
        if e.kind != kind {
            rest.push(e)
        } else {
            let (t, done) = e.timer.ticked(dt);
            if done {
                rest
            } else {
                rest.push(TimedEffect { timer: t, ..e })
            }
        }
    }
}

/// Every effect in `s` is live.
pub open spec fn all_live(s: Seq<TimedEffect>) -> bool {
    forall|i: int| 0 <= i < s.len() ==> #[trigger] s[i].wf()
}

/// Counts down the effects of `kind` by `dt` and removes those that end.
pub fn decay_effects(effects: &mut Vec<TimedEffect>, kind: EffectKind, dt: u64)
    requires
        all_live(old(effects)@),
        dt <= MAX_DT_MS,
    ensures
        final(effects)@ == decayed(old(effects)@, kind, dt as int),
        all_live(final(effects)@),
{
    let ghost s = effects@;
    let mut kept: Vec<TimedEffect> = Vec::new();
    let mut i: usize = 0;
    while i < effects.len()
        invariant
            effects@ == s,
            all_live(s),
            dt <= MAX_DT_MS,
            0 <= i <= s.len(),
            kept@ == decayed(s.subrange(0, i as int), kind, dt as int),
            all_live(kept@),
        decreases s.len() - i,
    {
        let e = effects[i];
        assert(s.subrange(0, i + 1).drop_last() =~= s.subrange(0, i as int));
        assert(e.wf());
        if e.kind != kind {
            kept.push(e);
        } else {
            let mut t = e.timer;
            let done = t.tick(dt);
            if !done {
                kept.push(TimedEffect { timer: t, ..e });
            }
        }
        i = i + 1;
    }
    assert(s.subrange(0, s.len() as int) =~= s);
    *effects = kept;
}

/// A live effect is removed by the tick in which its countdown reaches zero,
/// and otherwise stays with its time left reduced by the tick (never below
/// zero): remaining time is never observed at zero or below.
pub proof fn lemma_effect_expires(e: TimedEffect, dt: int)
    requires
        e.wf(),
        dt >= 0,
    ensures
        e.timer.remaining_spec() <= dt ==> decayed(seq![e], e.kind, dt) == Seq::<TimedEffect>::empty(),
        e.timer.remaining_spec() > dt ==> decayed(seq![e], e.kind, dt) == seq![
            TimedEffect { timer: Timer { elapsed_ms: (e.timer.elapsed_ms + dt) as u64, ..e.timer }, ..e },
        ],
        all_live(decayed(seq![e], e.kind, dt)),
{
    let s = seq![e];
    assert(s.drop_last() =~= Seq::<TimedEffect>::empty());
    assert(decayed(s.drop_last(), e.kind, dt) == Seq::<TimedEffect>::empty());
    if e.timer.remaining_spec() > dt {
        assert(Seq::<TimedEffect>::empty().push(
            TimedEffect { timer: Timer { elapsed_ms: (e.timer.elapsed_ms + dt) as u64, ..e.timer }, ..e },
        ) =~= seq![TimedEffect { timer: Timer { elapsed_ms: (e.timer.elapsed_ms + dt) as u64, ..e.timer }, ..e }]);
    }
}

/// Effects count down one by one: decaying a list with one more effect at
/// its end decays the list and that effect separately. With
/// `lemma_effect_expires` this settles, for every effect of a list, whether
/// it is removed in a tick.
pub proof fn lemma_decay_by_effect(s: Seq<TimedEffect>, e: TimedEffect, kind: EffectKind, dt: int)
    ensures
        decayed(s.push(e), kind, dt) == decayed(s, kind, dt) + decayed(seq![e], kind, dt),
{
    assert(s.push(e).drop_last() =~= s);
    assert(s.push(e).last() == e);
    let one = seq![e];
    assert(one.drop_last() =~= Seq::<TimedEffect>::empty());
    assert(decayed(one.drop_last(), kind, dt) == Seq::<TimedEffect>::empty());
    let d = decayed(s, kind, dt);
    assert(d + Seq::<TimedEffect>::empty() =~= d);
    if e.kind != kind {
        assert(d.push(e) =~= d + Seq::<TimedEffect>::empty().push(e));
    } else {
        let (t, done) = e.timer.ticked(dt);
        if !done {
            assert(d.push(TimedEffect { timer: t, ..e }) =~= d + Seq::<TimedEffect>::empty().push(
                TimedEffect { timer: t, ..e },
            ));
        }
    }
}

} // verus!
