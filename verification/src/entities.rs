//! The entity registry: every active enemy, stored in parallel arrays.
//!
//! Each entity has a position and sprite tag, a walking speed, an
//! optional death timestamp (set when it dies; the entity lingers for
//! a grace period so its death visuals play out) and a knockback
//! velocity (zero unless a grapple launch put it in flight).  The
//! four arrays are always equal in length and index-aligned; removal
//! at an index removes from all four and preserves the order of the
//! rest.

use vstd::prelude::*;

use crate::geom::Vec2Fx;
use crate::config::{SPEED_LIMIT, VEL_LIMIT, VEL_EPS, DEATH_GRACE_MS};

verus! {

/// Visual/state tag of an entity sprite.
///
/// Ranged hits step `Alive -> Wounded -> Battered -> Corpse`; a melee
/// kill or a knockback wall impact tags `Halved` directly.  `Corpse`
/// and `Halved` are terminal: such an entity no longer walks, hurts
/// or takes melee hits.
#[derive(Clone, Copy, PartialEq, Eq, Structural, Debug)]
pub enum SpriteTag {
    Alive,
    Wounded,
    Battered,
    Corpse,
    Halved,
}

/// One entity sprite: where it stands and what it looks like.
#[derive(Clone, Copy, PartialEq, Eq, Structural, Debug)]
pub struct Ent {
    pub pos: Vec2Fx,
    pub tag: SpriteTag,
}

/// The sprite tag after one more ranged hit.
pub open spec fn next_wound(t: SpriteTag) -> SpriteTag {
    match t {
        SpriteTag::Alive => SpriteTag::Wounded,
        SpriteTag::Wounded => SpriteTag::Battered,
        _ => SpriteTag::Corpse,
    }
}

/// A velocity drives knockback flight unless both components are
/// within `VEL_EPS` of zero.
pub open spec fn vel_active(v: Vec2Fx) -> bool {
    v.x > VEL_EPS || v.x < -VEL_EPS || v.y > VEL_EPS || v.y < -VEL_EPS
}

/// Both components of a knockback velocity stay within `VEL_LIMIT`.
pub open spec fn vel_bounded(v: Vec2Fx) -> bool {
    -VEL_LIMIT <= v.x <= VEL_LIMIT && -VEL_LIMIT <= v.y <= VEL_LIMIT
}

/// A death timer, if set, was set no later than `now`.
pub open spec fn timer_at_most(t: Option<u64>, now: u64) -> bool {
    match t {
        Some(v) => v <= now,
        None => true,
    }
}

/// A death timer has outlived the grace period at time `now`.
pub open spec fn timer_expired(t: Option<u64>, now: u64) -> bool {
    match t {
        Some(v) => now - v > DEATH_GRACE_MS,
        None => false,
    }
}

/// The registry of active entities, as index-aligned parallel arrays.
pub struct Entities {
    ents: Vec<Ent>,
    speeds: Vec<i64>,
    death_timers: Vec<Option<u64>>,
    velocities: Vec<Vec2Fx>,
}

impl Entities {
    /// Sprites (position and tag), in insertion order.
    pub closed spec fn ents(self) -> Seq<Ent> {
        self.ents@
    }

    /// Walking speeds, aligned with `ents`.
    pub closed spec fn speeds(self) -> Seq<i64> {
        self.speeds@
    }

    /// Death timers, aligned with `ents`.
    pub closed spec fn death_timers(self) -> Seq<Option<u64>> {
        self.death_timers@
    }

    /// Knockback velocities, aligned with `ents`.
    pub closed spec fn velocities(self) -> Seq<Vec2Fx> {
        self.velocities@
    }

    /// Well-formed: the four arrays are equal in length, every
    /// position is in bounds, and speeds and velocities are within
    /// their limits.
    pub open spec fn wf(self) -> bool {
        &&& self.speeds().len() == self.ents().len()
        &&& self.death_timers().len() == self.ents().len()
        &&& self.velocities().len() == self.ents().len()
        &&& forall|i: int|
            0 <= i < self.ents().len() ==> (#[trigger] self.ents()[i]).pos.in_bounds()
        &&& forall|i: int|
            0 <= i < self.ents().len() ==> 0 <= #[trigger] self.speeds()[i] <= SPEED_LIMIT
        &&& forall|i: int|
            0 <= i < self.ents().len() ==> vel_bounded(#[trigger] self.velocities()[i])
    }

    /// Every death timer was set no later than `now`.
    pub open spec fn timers_at_most(self, now: u64) -> bool {
        forall|i: int|
            0 <= i < self.death_timers().len() ==> timer_at_most(
                #[trigger] self.death_timers()[i],
                now,
            )
    }

    pub fn new() -> (r: Entities)
        ensures
            r.ents().len() == 0,
            r.speeds().len() == 0,
            r.death_timers().len() == 0,
            r.velocities().len() == 0,
            r.wf(),
    {
        Entities {
            ents: Vec::new(),
            speeds: Vec::new(),
            death_timers: Vec::new(),
            velocities: Vec::new(),
        }
    }

    pub fn len(&self) -> (r: usize)
        requires
            self.wf(),
        ensures
            r == self.ents().len(),
    {
        self.ents.len()
    }

    /// Append an entity: death timer absent, velocity zero.
    pub fn push(&mut self, ent: Ent, speed: i64)
        requires
            old(self).wf(),
            ent.pos.in_bounds(),
            0 <= speed <= SPEED_LIMIT,
        ensures
            final(self).ents() == old(self).ents().push(ent),
            final(self).speeds() == old(self).speeds().push(speed),
            final(self).death_timers() == old(self).death_timers().push(None),
            final(self).velocities() == old(self).velocities().push(Vec2Fx { x: 0, y: 0 }),
            final(self).wf(),
    {
        self.ents.push(ent);
        self.speeds.push(speed);
        self.death_timers.push(None);
        self.velocities.push(Vec2Fx::zero());
    }

    /// Delete index `index` from every parallel array, preserving the
    /// relative order of the rest.
    pub fn remove(&mut self, index: usize)
        requires
            old(self).wf(),
            index < old(self).ents().len(),
        ensures
            final(self).ents() == old(self).ents().remove(index as int),
            final(self).speeds() == old(self).speeds().remove(index as int),
            final(self).death_timers() == old(self).death_timers().remove(index as int),
            final(self).velocities() == old(self).velocities().remove(index as int),
            final(self).wf(),
    {
        self.ents.remove(index);
        self.speeds.remove(index);
        self.death_timers.remove(index);
        self.velocities.remove(index);
    }

    /// Move the entity at `i`; the engine's collision-clamped step
    /// hands back the new position.
    pub fn set_pos(&mut self, i: usize, p: Vec2Fx)
        requires
            old(self).wf(),
            i < old(self).ents().len(),
            p.in_bounds(),
        ensures
            final(self).ents() == old(self).ents().update(
                i as int,
                Ent { pos: p, tag: old(self).ents()[i as int].tag },
            ),
            final(self).speeds() == old(self).speeds(),
            final(self).death_timers() == old(self).death_timers(),
            final(self).velocities() == old(self).velocities(),
            final(self).wf(),
            forall|now: u64| old(self).timers_at_most(now) ==> final(self).timers_at_most(now),
    {
        let tag: SpriteTag = self.ents[i].tag;
        self.ents.set(i, Ent { pos: p, tag });
    }

    /// One ranged hit at `i`: the sprite steps one wound stage; if
    /// that reaches `Corpse` the death timer is set to `now` and the
    /// hit killed.
    pub fn wound(&mut self, i: usize, now: u64) -> (killed: bool)
        requires
            old(self).wf(),
            i < old(self).ents().len(),
        ensures
            killed == (next_wound(old(self).ents()[i as int].tag) == SpriteTag::Corpse),
            final(self).ents() == old(self).ents().update(
                i as int,
                Ent {
                    pos: old(self).ents()[i as int].pos,
                    tag: next_wound(old(self).ents()[i as int].tag),
                },
            ),
            final(self).death_timers() == if killed {
                old(self).death_timers().update(i as int, Some(now))
            } else {
                old(self).death_timers()
            },
            final(self).speeds() == old(self).speeds(),
            final(self).velocities() == old(self).velocities(),
            final(self).wf(),
            old(self).timers_at_most(now) ==> final(self).timers_at_most(now),
    {
        let e: Ent = self.ents[i];
        let tag: SpriteTag = match e.tag {
            SpriteTag::Alive => SpriteTag::Wounded,
            SpriteTag::Wounded => SpriteTag::Battered,
            _ => SpriteTag::Corpse,
        };
        self.ents.set(i, Ent { pos: e.pos, tag });
        if tag == SpriteTag::Corpse {
            self.death_timers.set(i, Some(now));
            true
        } else {
            false
        }
    }

    /// Kill the entity at `i` outright: a melee hit or a knockback
    /// wall impact tags it `Halved` and starts its death timer.
    pub fn halve(&mut self, i: usize, now: u64)
        requires
            old(self).wf(),
            i < old(self).ents().len(),
        ensures
            final(self).ents() == old(self).ents().update(
                i as int,
                Ent { pos: old(self).ents()[i as int].pos, tag: SpriteTag::Halved },
            ),
            final(self).death_timers() == old(self).death_timers().update(i as int, Some(now)),
            final(self).speeds() == old(self).speeds(),
            final(self).velocities() == old(self).velocities(),
            final(self).wf(),
            old(self).timers_at_most(now) ==> final(self).timers_at_most(now),
    {
        let pos: Vec2Fx = self.ents[i].pos;
        self.ents.set(i, Ent { pos, tag: SpriteTag::Halved });
        self.death_timers.set(i, Some(now));
    }

    /// Put the entity at `i` into knockback flight along `v`.
    pub fn set_velocity(&mut self, i: usize, v: Vec2Fx)
        requires
            old(self).wf(),
            i < old(self).ents().len(),
            vel_bounded(v),
        ensures
            final(self).velocities() == old(self).velocities().update(i as int, v),
            final(self).ents() == old(self).ents(),
            final(self).speeds() == old(self).speeds(),
            final(self).death_timers() == old(self).death_timers(),
            final(self).wf(),
            forall|now: u64| old(self).timers_at_most(now) ==> final(self).timers_at_most(now),
    {
        self.velocities.set(i, v);
    }

    /// Remove the first entity whose death timer has outlived the
    /// grace period, if any; at most one removal per frame, so later
    /// indices stay valid through the frame.
    pub fn remove_expired(&mut self, now: u64) -> (r: Option<usize>)
        requires
            old(self).wf(),
            old(self).timers_at_most(now),
        ensures
            match r {
                Some(i) => {
                    &&& i < old(self).ents().len()
                    &&& timer_expired(old(self).death_timers()[i as int], now)
                    &&& forall|j: int|
                        0 <= j < i ==> !timer_expired(#[trigger] old(self).death_timers()[j], now)
                    &&& final(self).ents() == old(self).ents().remove(i as int)
                    &&& final(self).speeds() == old(self).speeds().remove(i as int)
                    &&& final(self).death_timers() == old(self).death_timers().remove(i as int)
                    &&& final(self).velocities() == old(self).velocities().remove(i as int)
                    &&& final(self).wf()
                },
                None => {
                    &&& forall|j: int|
                        0 <= j < old(self).ents().len() ==> !timer_expired(
                            #[trigger] old(self).death_timers()[j],
                            now,
                        )
                    &&& *final(self) == *old(self)
                },
            },
    {
        let n: usize = self.ents.len();
        let mut i: usize = 0;
        while i < n
            invariant
                *self == *old(self),
                self.wf(),
                self.timers_at_most(now),
                n == self.ents().len(),
                i <= n,
                forall|j: int| 0 <= j < i ==> !timer_expired(#[trigger] self.death_timers()[j], now),
            decreases n - i,
        {
            if let Some(t) = self.death_timers[i] {
                if now - t > DEATH_GRACE_MS {
                    self.remove(i);
                    return Some(i);
                }
            }
            i += 1;
        }
        None
    }

    pub fn ent(&self, i: usize) -> (r: Ent)
        requires
            self.wf(),
            i < self.ents().len(),
        ensures
            r == self.ents()[i as int],
    {
        self.ents[i]
    }

    pub fn speed(&self, i: usize) -> (r: i64)
        requires
            self.wf(),
            i < self.ents().len(),
        ensures
            r == self.speeds()[i as int],
    {
        self.speeds[i]
    }

    pub fn death_timer(&self, i: usize) -> (r: Option<u64>)
        requires
            self.wf(),
            i < self.ents().len(),
        ensures
            r == self.death_timers()[i as int],
    {
        self.death_timers[i]
    }

    pub fn velocity(&self, i: usize) -> (r: Vec2Fx)
        requires
            self.wf(),
            i < self.ents().len(),
        ensures
            r == self.velocities()[i as int],
    {
        self.velocities[i]
    }
}

} // verus!
