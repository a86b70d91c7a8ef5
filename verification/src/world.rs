//! The per-frame world simulation: camera movement and the grapple,
//! the melee window, spawning, pickups, the goal, knockback flight
//! and proximity damage.
//!
//! Each function here is one phase of the frame.  The engine owns
//! collision and ray casting, so a phase either hands the frame loop
//! a plan (where to move, what to spawn) or takes the engine's
//! answer (a clamped position, a ray hit, an open floor tile) and
//! applies the rules of the game to it.

use vstd::prelude::*;

use crate::geom::Vec2Fx;
use crate::entities::{Entities, Ent, SpriteTag, vel_active, vel_bounded};
use crate::session::{SessionState, AmmoKind, Item, Pickup};
use crate::config::{
    MAX_ENTS, MAX_AMMO_PICKUPS, GUN_AMMO_CREDIT, MG_AMMO_CREDIT, HURT_COOLDOWN_MS,
    JAB_WINDOW_MS, SHAKE_MS, MG_SHAKE_MS, HURT_FLASH_MS, MELEE_RADIUS, PICKUP_RADIUS,
    HURT_RADIUS, GRAPPLE_END_KNIFE, GRAPPLE_END_GUN, KNOCKBACK_SHORTFALL, KNOCKBACK_STEP,
    MOVE_SPEED_KNIFE, MOVE_SPEED_GUN, MOVE_SPEED_MG, GRAPPLE_SPEED_KNIFE, GRAPPLE_SPEED_GUN,
    GRAPPLE_SPEED_MG,
};

verus! {

/// How the camera moves this frame.
#[derive(Clone, Copy, PartialEq, Eq, Structural, Debug)]
pub enum MovePlan {
    /// No grapple in flight: normal controls at this walking speed.
    Walk { speed: i64 },
    /// Grapple in flight: one collision-clamped step toward the
    /// target at this speed.
    GrappleStep { target: Vec2Fx, speed: i64 },
    /// The grapple just arrived: no movement this frame; the caller
    /// plays the impact cue (the shake already started).
    GrappleEnd,
}

/// What a melee jab did to one entity.
#[derive(Clone, Copy, PartialEq, Eq, Structural, Debug)]
pub enum MeleeHit {
    /// Out of reach, out of the facing cone, already halved, or in
    /// knockback flight: untouched.
    Missed,
    /// Hit while no grapple was in flight: killed on the spot (the
    /// caller plays the damage cue).
    Killed,
    /// Hit while a grapple was in flight: launched as a knockback
    /// projectile instead (the caller then cancels the grapple).
    Launched,
}

/// What the spawn roll of this frame asks for.
#[derive(Clone, Copy, PartialEq, Eq, Structural, Debug)]
pub struct SpawnPlan {
    /// Spawn one enemy at a random open tile.
    pub enemy: bool,
    /// Spawn one ammo pickup of this kind at a random open tile.
    pub pickup: Option<AmmoKind>,
}

/// Normal walking speed per frame for an item.
pub open spec fn walk_speed(item: Item) -> i64 {
    match item {
        Item::Knife => MOVE_SPEED_KNIFE,
        Item::Gun => MOVE_SPEED_GUN,
        Item::Mg => MOVE_SPEED_MG,
    }
}

/// Grapple flight speed per frame for an item.
pub open spec fn grapple_speed(item: Item) -> i64 {
    match item {
        Item::Knife => GRAPPLE_SPEED_KNIFE,
        Item::Gun => GRAPPLE_SPEED_GUN,
        Item::Mg => GRAPPLE_SPEED_MG,
    }
}

/// A grapple ends within this radius of its target.
pub open spec fn grapple_end_radius(item: Item) -> i64 {
    match item {
        Item::Knife => GRAPPLE_END_KNIFE,
        _ => GRAPPLE_END_GUN,
    }
}

/// The player may be hurt again: no hit yet, or the last one is at
/// least `HURT_COOLDOWN_MS` old.
pub open spec fn cooldown_ready(last: Option<u64>, now: u64) -> bool {
    match last {
        Some(t) => now - t >= HURT_COOLDOWN_MS,
        None => true,
    }
}

/// Some living entity stands within the lethal radius of the camera.
pub open spec fn spec_danger(ents: Entities, cam: Vec2Fx) -> bool {
    exists|i: int|
        0 <= i < ents.ents().len() && ents.death_timers()[i] is None && Vec2Fx::spec_within(
            (#[trigger] ents.ents()[i]).pos,
            cam,
            HURT_RADIUS,
        )
}

/// The intended knockback displacement target of entity `i`: its
/// position pushed `KNOCKBACK_STEP` multiples of its velocity.
pub open spec fn spec_knockback_target(ents: Entities, i: int) -> Vec2Fx {
    Vec2Fx {
        x: (ents.ents()[i].pos.x + KNOCKBACK_STEP * ents.velocities()[i].x) as i64,
        y: (ents.ents()[i].pos.y + KNOCKBACK_STEP * ents.velocities()[i].y) as i64,
    }
}

/// A melee jab reaches entity `e`: not already halved, not in
/// knockback flight, within reach and inside the facing cone.
pub open spec fn melee_reaches(e: Ent, vel: Vec2Fx, cam: Vec2Fx, facing: bool) -> bool {
    &&& e.tag != SpriteTag::Halved
    &&& !vel_active(vel)
    &&& Vec2Fx::spec_within(e.pos, cam, MELEE_RADIUS)
    &&& facing
}

impl SessionState {
    /// Decide the camera movement of this frame.  With a grapple in
    /// flight the camera is forced toward the target until it gets
    /// within the item's end radius; arriving ends the grapple and
    /// starts the impact shake.  Otherwise normal controls apply at
    /// the item's walking speed.
    pub fn movement(&mut self, cam: Vec2Fx, now: u64) -> (r: MovePlan)
        requires
            old(self).spec_running(),
            old(self).wf(),
            cam.in_bounds(),
        ensures
            !old(self).grappling ==> {
                &&& r == (MovePlan::Walk { speed: walk_speed(old(self).item) })
                &&& *final(self) == *old(self)
            },
            old(self).grappling && Vec2Fx::spec_within(
                cam,
                old(self).grapple_target,
                grapple_end_radius(old(self).item),
            ) ==> {
                &&& r == MovePlan::GrappleEnd
                &&& *final(self) == (SessionState {
                    grappling: false,
                    shake_begin: Some(now),
                    ..*old(self)
                })
            },
            old(self).grappling && !Vec2Fx::spec_within(
                cam,
                old(self).grapple_target,
                grapple_end_radius(old(self).item),
            ) ==> {
                &&& r == (MovePlan::GrappleStep {
                    target: old(self).grapple_target,
                    speed: grapple_speed(old(self).item),
                })
                &&& *final(self) == *old(self)
            },
            final(self).wf(),
    {
        if self.grappling {
            let radius: i64 = if self.item == Item::Knife {
                GRAPPLE_END_KNIFE
            } else {
                GRAPPLE_END_GUN
            };
            if Vec2Fx::within(cam, self.grapple_target, radius) {
                self.grappling = false;
                self.shake_begin = Some(now);
                MovePlan::GrappleEnd
            } else {
                let speed: i64 = match self.item {
                    Item::Knife => GRAPPLE_SPEED_KNIFE,
                    Item::Gun => GRAPPLE_SPEED_GUN,
                    Item::Mg => GRAPPLE_SPEED_MG,
                };
                MovePlan::GrappleStep { target: self.grapple_target, speed }
            }
        } else {
            let speed: i64 = match self.item {
                Item::Knife => MOVE_SPEED_KNIFE,
                Item::Gun => MOVE_SPEED_GUN,
                Item::Mg => MOVE_SPEED_MG,
            };
            MovePlan::Walk { speed }
        }
    }

    /// A grapple ray came back: start pulling toward its hit point.
    /// The caller plays the grapple cue.
    pub fn grapple_acquire(&mut self, target: Vec2Fx)
        requires
            old(self).spec_running(),
            old(self).wf(),
            target.in_bounds(),
        ensures
            *final(self) == (SessionState {
                grappling: true,
                grapple_target: target,
                ..*old(self)
            }),
            final(self).wf(),
    {
        self.grappling = true;
        self.grapple_target = target;
    }

    /// A jab launched an entity: the grapple is cancelled.
    pub fn cancel_grapple(&mut self)
        ensures
            *final(self) == (SessionState { grappling: false, ..*old(self) }),
    {
        self.grappling = false;
    }

    /// The jab window opened by the last knife press is still open.
    pub fn jab_active(&self, now: u64) -> (r: bool)
        requires
            self.times_at_most(now),
        ensures
            r == match self.last_jab {
                Some(t) => now - t < JAB_WINDOW_MS,
                None => false,
            },
    {
        match self.last_jab {
            Some(t) => now - t < JAB_WINDOW_MS,
            None => false,
        }
    }

    /// Place an ammo pickup the spawn roll asked for, at the open
    /// floor tile the caller drew.
    pub fn add_pickup(&mut self, p: Pickup)
        requires
            old(self).wf(),
            old(self).pickups@.len() < MAX_AMMO_PICKUPS,
            p.pos.in_bounds(),
        ensures
            final(self).pickups@ == old(self).pickups@.push(p),
            *final(self) == (SessionState { pickups: final(self).pickups, ..*old(self) }),
            final(self).wf(),
    {
        self.pickups.push(p);
    }

    /// Keep exactly one goal pickup standing: when none stands, one
    /// spawns at the open floor tile the caller drew; a standing one
    /// is left alone.  After this phase a goal pickup always stands.
    pub fn ensure_goal(&mut self, spot: Vec2Fx) -> (spawned: bool)
        requires
            old(self).wf(),
            spot.in_bounds(),
        ensures
            spawned == (old(self).goal is None),
            *final(self) == if spawned {
                (SessionState { goal: Some(spot), ..*old(self) })
            } else {
                *old(self)
            },
            final(self).goal is Some,
            final(self).wf(),
    {
        if self.goal.is_none() {
            self.goal = Some(spot);
            true
        } else {
            false
        }
    }

    /// Collect the first ammo pickup within reach of the camera, if
    /// any: it leaves the floor and credits its account's reserve.
    /// At most one pickup is collected per frame.  Returns its old
    /// index; the caller plays the ammo cue.
    pub fn collect_pickup(&mut self, cam: Vec2Fx) -> (r: Option<usize>)
        requires
            old(self).spec_running(),
            old(self).wf(),
            cam.in_bounds(),
            old(self).gun_reserve <= i64::MAX - GUN_AMMO_CREDIT,
            old(self).mg_reserve <= i64::MAX - MG_AMMO_CREDIT,
        ensures
            match r {
                Some(i) => {
                    &&& i < old(self).pickups@.len()
                    &&& Vec2Fx::spec_within(old(self).pickups@[i as int].pos, cam, PICKUP_RADIUS)
                    &&& forall|j: int|
                        0 <= j < i ==> !Vec2Fx::spec_within(
                            (#[trigger] old(self).pickups@[j]).pos,
                            cam,
                            PICKUP_RADIUS,
                        )
                    &&& final(self).pickups@ == old(self).pickups@.remove(i as int)
                    &&& *final(self) == if old(self).pickups@[i as int].kind == AmmoKind::Gun {
                        (SessionState {
                            pickups: final(self).pickups,
                            gun_reserve: (old(self).gun_reserve + GUN_AMMO_CREDIT) as i64,
                            ..*old(self)
                        })
                    } else {
                        (SessionState {
                            pickups: final(self).pickups,
                            mg_reserve: (old(self).mg_reserve + MG_AMMO_CREDIT) as i64,
                            ..*old(self)
                        })
                    }
                },
                None => {
                    &&& forall|j: int|
                        0 <= j < old(self).pickups@.len() ==> !Vec2Fx::spec_within(
                            (#[trigger] old(self).pickups@[j]).pos,
                            cam,
                            PICKUP_RADIUS,
                        )
                    &&& *final(self) == *old(self)
                },
            },
            final(self).wf(),
    {
        let n: usize = self.pickups.len();
        let mut i: usize = 0;
        while i < n
            invariant
                *self == *old(self),
                self.wf(),
                cam.in_bounds(),
                self.gun_reserve <= i64::MAX - GUN_AMMO_CREDIT,
                self.mg_reserve <= i64::MAX - MG_AMMO_CREDIT,
                n == self.pickups@.len(),
                i <= n,
                forall|j: int|
                    0 <= j < i ==> !Vec2Fx::spec_within(
                        (#[trigger] self.pickups@[j]).pos,
                        cam,
                        PICKUP_RADIUS,
                    ),
            decreases n - i,
        {
            let p: Pickup = self.pickups[i];
            if Vec2Fx::within(p.pos, cam, PICKUP_RADIUS) {
                if p.kind == AmmoKind::Gun {
                    self.gun_reserve = self.gun_reserve + GUN_AMMO_CREDIT;
                } else {
                    self.mg_reserve = self.mg_reserve + MG_AMMO_CREDIT;
                }
                self.pickups.remove(i);
                return Some(i);
            }
            i += 1;
        }
        None
    }

    /// Collect the goal pickup if it stands within reach of the
    /// camera: it leaves the floor and the goal count steps up (the
    /// run freezes once the count reaches its target).
    pub fn collect_goal(&mut self, cam: Vec2Fx) -> (collected: bool)
        requires
            old(self).spec_running(),
            old(self).wf(),
            cam.in_bounds(),
        ensures
            collected == (old(self).goal matches Some(p) && Vec2Fx::spec_within(
                p,
                cam,
                PICKUP_RADIUS,
            )),
            *final(self) == if collected {
                (SessionState {
                    goal: None,
                    nuts_collected: (old(self).nuts_collected + 1) as i64,
                    ..*old(self)
                })
            } else {
                *old(self)
            },
            final(self).wf(),
    {
        if let Some(p) = self.goal {
            if Vec2Fx::within(p, cam, PICKUP_RADIUS) {
                self.goal = None;
                self.nuts_collected = self.nuts_collected + 1;
                return true;
            }
        }
        false
    }

    /// Hurt the player if some living entity stands within the
    /// lethal radius and the hit cooldown has passed: health drops
    /// by one (never below zero) and the cooldown restarts, so
    /// damage lands at most once per `HURT_COOLDOWN_MS`, at any
    /// frame rate.
    pub fn proximity_damage(&mut self, ents: &Entities, cam: Vec2Fx, now: u64) -> (hurt: bool)
        requires
            old(self).spec_running(),
            old(self).wf(),
            old(self).times_at_most(now),
            ents.wf(),
            cam.in_bounds(),
        ensures
            hurt == (cooldown_ready(old(self).last_hurt, now) && spec_danger(*ents, cam)),
            *final(self) == if hurt {
                (SessionState {
                    health: (old(self).health - 1) as i64,
                    last_hurt: Some(now),
                    ..*old(self)
                })
            } else {
                *old(self)
            },
            final(self).wf(),
    {
        let ready: bool = match self.last_hurt {
            Some(t) => now - t >= HURT_COOLDOWN_MS,
            None => true,
        };
        if !ready {
            return false;
        }
        let n: usize = ents.len();
        let mut i: usize = 0;
        while i < n
            invariant
                *self == *old(self),
                self.wf(),
                self.spec_running(),
                cooldown_ready(self.last_hurt, now),
                ents.wf(),
                cam.in_bounds(),
                n == ents.ents().len(),
                i <= n,
                forall|j: int|
                    0 <= j < i ==> !(ents.death_timers()[j] is None && Vec2Fx::spec_within(
                        (#[trigger] ents.ents()[j]).pos,
                        cam,
                        HURT_RADIUS,
                    )),
            decreases n - i,
        {
            if ents.death_timer(i).is_none() && Vec2Fx::within(ents.ent(i).pos, cam, HURT_RADIUS) {
                proof {
                    assert(ents.death_timers()[i as int] is None && Vec2Fx::spec_within(
                        ents.ents()[i as int].pos,
                        cam,
                        HURT_RADIUS,
                    ));
                    assert(spec_danger(*ents, cam));
                }
                self.health = self.health - 1;
                self.last_hurt = Some(now);
                return true;
            }
            i += 1;
        }
        false
    }

    /// The impact screen shake is still running.
    pub fn shake_active(&self, now: u64) -> (r: bool)
        requires
            self.times_at_most(now),
        ensures
            r == match self.shake_begin {
                Some(t) => now - t < SHAKE_MS,
                None => false,
            },
    {
        match self.shake_begin {
            Some(t) => now - t < SHAKE_MS,
            None => false,
        }
    }

    /// The weapon screen shake is still running.
    pub fn mg_shake_active(&self, now: u64) -> (r: bool)
        requires
            self.times_at_most(now),
        ensures
            r == match self.mg_shake_begin {
                Some(t) => now - t < MG_SHAKE_MS,
                None => false,
            },
    {
        match self.mg_shake_begin {
            Some(t) => now - t < MG_SHAKE_MS,
            None => false,
        }
    }

    /// The damage overlay still shows: the player is dead, or the
    /// last hit is younger than its fade-out.
    pub fn hurt_flash_active(&self, now: u64) -> (r: bool)
        requires
            self.times_at_most(now),
        ensures
            r == (self.health == 0 || match self.last_hurt {
                Some(t) => now - t < HURT_FLASH_MS,
                None => false,
            }),
    {
        self.health == 0 || match self.last_hurt {
            Some(t) => now - t < HURT_FLASH_MS,
            None => false,
        }
    }

    /// How long ago the player was last hurt, for the overlay fade.
    pub fn millis_since_hurt(&self, now: u64) -> (r: Option<u64>)
        requires
            self.times_at_most(now),
        ensures
            r == match self.last_hurt {
                Some(t) => Some((now - t) as u64),
                None => None::<u64>,
            },
    {
        match self.last_hurt {
            Some(t) => Some(now - t),
            None => None,
        }
    }
}

/// Some entity is reachable by a jab from `cam` under these facing
/// flags.
pub open spec fn any_melee_reach(ents: Entities, cam: Vec2Fx, facing: Seq<bool>) -> bool {
    exists|i: int|
        0 <= i < ents.ents().len() && melee_reaches(
            #[trigger] ents.ents()[i],
            ents.velocities()[i],
            cam,
            facing[i],
        )
}

/// How many of the first `upto` entities a jab from `cam` reaches.
pub open spec fn melee_reach_count(ents: Entities, cam: Vec2Fx, facing: Seq<bool>, upto: int) -> int
    decreases upto,
{
    if upto <= 0 {
        0
    } else {
        melee_reach_count(ents, cam, facing, upto - 1) + if melee_reaches(
            ents.ents()[upto - 1],
            ents.velocities()[upto - 1],
            cam,
            facing[upto - 1],
        ) {
            1int
        } else {
            0int
        }
    }
}

/// Resolve the melee window of this frame against every entity.
///
/// While the jab window is closed this is a no-op.  While it is
/// open, every entity in reach (see `melee_reaches`; `facing` holds
/// the engine's forward dot-product test per entity) is launched
/// along `launch_dir` if a grapple is in flight — which then cancels
/// the grapple — and killed on the spot otherwise.  Returns how many
/// were killed; the caller plays the damage cue for each.
pub fn melee_window(
    state: &mut SessionState,
    ents: &mut Entities,
    cam: Vec2Fx,
    facing: &Vec<bool>,
    launch_dir: Vec2Fx,
    now: u64,
) -> (killed: usize)
    requires
        old(state).spec_running(),
        old(state).wf(),
        old(state).times_at_most(now),
        old(ents).wf(),
        old(ents).timers_at_most(now),
        facing@.len() == old(ents).ents().len(),
        cam.in_bounds(),
        vel_bounded(launch_dir),
    ensures
        ({
            let active = match old(state).last_jab {
                Some(t) => now - t < JAB_WINDOW_MS,
                None => false,
            };
            if !active {
                &&& killed == 0
                &&& *final(state) == *old(state)
                &&& *final(ents) == *old(ents)
            } else {
                &&& final(ents).ents().len() == old(ents).ents().len()
                &&& forall|j: int|
                    0 <= j < old(ents).ents().len() ==> {
                        let reach = melee_reaches(
                            old(ents).ents()[j],
                            old(ents).velocities()[j],
                            cam,
                            facing@[j],
                        );
                        &&& (#[trigger] final(ents).ents()[j]) == if reach && !old(
                            state,
                        ).grappling {
                            Ent { pos: old(ents).ents()[j].pos, tag: SpriteTag::Halved }
                        } else {
                            old(ents).ents()[j]
                        }
                        &&& final(ents).velocities()[j] == if reach && old(state).grappling {
                            launch_dir
                        } else {
                            old(ents).velocities()[j]
                        }
                        &&& final(ents).death_timers()[j] == if reach && !old(state).grappling {
                            Some(now)
                        } else {
                            old(ents).death_timers()[j]
                        }
                    }
                &&& final(ents).speeds() == old(ents).speeds()
                &&& *final(state) == (SessionState {
                    grappling: old(state).grappling && !any_melee_reach(*old(ents), cam, facing@),
                    ..*old(state)
                })
                &&& killed == if old(state).grappling {
                    0int
                } else {
                    melee_reach_count(*old(ents), cam, facing@, old(ents).ents().len() as int)
                }
                &&& final(ents).wf()
                &&& final(ents).timers_at_most(now)
            }
        }),
{
    let active: bool = match state.last_jab {
        Some(t) => now - t < JAB_WINDOW_MS,
        None => false,
    };
    if !active {
        return 0;
    }
    let grappling: bool = state.grappling;
    let n: usize = ents.len();
    let mut killed: usize = 0;
    let mut launched: bool = false;
    let mut i: usize = 0;
    while i < n
        invariant
            *state == *old(state),
            ents.wf(),
            ents.timers_at_most(now),
            old(ents).wf(),
            n == ents.ents().len(),
            n == old(ents).ents().len(),
            facing@.len() == n,
            cam.in_bounds(),
            vel_bounded(launch_dir),
            grappling == old(state).grappling,
            i <= n,
            killed <= i,
            forall|j: int| i <= j < n ==> (#[trigger] ents.ents()[j]) == old(ents).ents()[j],
            forall|j: int|
                i <= j < n ==> (#[trigger] ents.velocities()[j]) == old(ents).velocities()[j],
            forall|j: int|
                i <= j < n ==> (#[trigger] ents.death_timers()[j]) == old(ents).death_timers()[j],
            forall|j: int|
                0 <= j < i ==> (#[trigger] ents.ents()[j]) == if melee_reaches(
                    old(ents).ents()[j],
                    old(ents).velocities()[j],
                    cam,
                    facing@[j],
                ) && !grappling {
                    Ent { pos: old(ents).ents()[j].pos, tag: SpriteTag::Halved }
                } else {
                    old(ents).ents()[j]
                },
            forall|j: int|
                0 <= j < i ==> (#[trigger] ents.velocities()[j]) == if melee_reaches(
                    old(ents).ents()[j],
                    old(ents).velocities()[j],
                    cam,
                    facing@[j],
                ) && grappling {
                    launch_dir
                } else {
                    old(ents).velocities()[j]
                },
            forall|j: int|
                0 <= j < i ==> (#[trigger] ents.death_timers()[j]) == if melee_reaches(
                    old(ents).ents()[j],
                    old(ents).velocities()[j],
                    cam,
                    facing@[j],
                ) && !grappling {
                    Some(now)
                } else {
                    old(ents).death_timers()[j]
                },
            ents.speeds() == old(ents).speeds(),
            launched == (grappling && exists|j: int|
                0 <= j < i && melee_reaches(
                    #[trigger] old(ents).ents()[j],
                    old(ents).velocities()[j],
                    cam,
                    facing@[j],
                )),
            killed == if grappling {
                0int
            } else {
                melee_reach_count(*old(ents), cam, facing@, i as int)
            },
        decreases n - i,
    {
        match melee_step(ents, i, cam, facing[i], grappling, launch_dir, now) {
            MeleeHit::Killed => {
                killed = killed + 1;
            },
            MeleeHit::Launched => {
                launched = true;
            },
            MeleeHit::Missed => {},
        }
        i += 1;
    }
    if launched {
        state.cancel_grapple();
    }
    killed
}

/// Resolve one open jab window against entity `i`.  Entities already
/// halved or in knockback flight are immune; one in reach and inside
/// the facing cone (`facing`, the engine's forward dot-product test)
/// is launched along `launch_dir` while a grapple is in flight, and
/// killed on the spot otherwise.
pub fn melee_step(
    ents: &mut Entities,
    i: usize,
    cam: Vec2Fx,
    facing: bool,
    grappling: bool,
    launch_dir: Vec2Fx,
    now: u64,
) -> (r: MeleeHit)
    requires
        old(ents).wf(),
        i < old(ents).ents().len(),
        cam.in_bounds(),
        vel_bounded(launch_dir),
        old(ents).timers_at_most(now),
    ensures
        ({
            let e = old(ents).ents()[i as int];
            let reach = melee_reaches(e, old(ents).velocities()[i as int], cam, facing);
            if !reach {
                r == MeleeHit::Missed && *final(ents) == *old(ents)
            } else if grappling {
                &&& r == MeleeHit::Launched
                &&& final(ents).velocities() == old(ents).velocities().update(
                    i as int,
                    launch_dir,
                )
                &&& final(ents).ents() == old(ents).ents()
                &&& final(ents).speeds() == old(ents).speeds()
                &&& final(ents).death_timers() == old(ents).death_timers()
            } else {
                &&& r == MeleeHit::Killed
                &&& final(ents).ents() == old(ents).ents().update(
                    i as int,
                    Ent { pos: e.pos, tag: SpriteTag::Halved },
                )
                &&& final(ents).death_timers() == old(ents).death_timers().update(
                    i as int,
                    Some(now),
                )
                &&& final(ents).speeds() == old(ents).speeds()
                &&& final(ents).velocities() == old(ents).velocities()
            }
        }),
        final(ents).wf(),
        final(ents).timers_at_most(now),
{
    let e: Ent = ents.ent(i);
    let vel: Vec2Fx = ents.velocity(i);
    let in_flight: bool = vel.x > 1 || vel.x < -1 || vel.y > 1 || vel.y < -1;
    if e.tag == SpriteTag::Halved || in_flight {
        return MeleeHit::Missed;
    }
    if !Vec2Fx::within(e.pos, cam, MELEE_RADIUS) || !facing {
        return MeleeHit::Missed;
    }
    if grappling {
        ents.set_velocity(i, launch_dir);
        MeleeHit::Launched
    } else {
        ents.halve(i, now);
        MeleeHit::Killed
    }
}

/// What a spawn roll asks for: a roll under three spawns an enemy
/// while the population is under its cap; a roll of exactly two or
/// three also drops an ammo pickup (gun ammo on two, machine-gun
/// ammo on three) while the floor holds fewer than its cap.
pub open spec fn spec_spawn_plan(roll: i64, n_ents: int, n_pickups: int) -> SpawnPlan {
    SpawnPlan {
        enemy: roll < 3 && n_ents < MAX_ENTS,
        pickup: if (roll == 2 || roll == 3) && n_pickups < MAX_AMMO_PICKUPS {
            if roll == 2 {
                Some(AmmoKind::Gun)
            } else {
                Some(AmmoKind::Mg)
            }
        } else {
            None
        },
    }
}

/// Relies on `macroquad::rand::gen_range` (quad_rand's generator):
/// for the bounds 0 and 100 it returns `floor(100 * r)` with `r`
/// drawn in `[0, 1)`, so the roll lies in `0..100`.  Each call may
/// return a different value.
#[verifier::external_body]
fn percent_roll() -> (r: i64)
    ensures
        0 <= r < 100,
{
    macroquad::rand::gen_range::<i32>(0, 100) as i64
}

/// Draw this frame's spawn roll and decide what it asks for.  The
/// roll is uniform over `0..100`, so the plan is `spec_spawn_plan`
/// of some such roll; `spawn_decision` pins the plan of each roll.
pub fn spawn_roll(n_ents: usize, n_pickups: usize) -> (r: SpawnPlan)
    ensures
        exists|roll: i64| 0 <= roll < 100 && r == spec_spawn_plan(roll, n_ents as int, n_pickups as int),
{
    let roll: i64 = percent_roll();
    spawn_decision(roll, n_ents, n_pickups)
}

/// Decide what the spawn roll of this frame asks for.
pub fn spawn_decision(roll: i64, n_ents: usize, n_pickups: usize) -> (r: SpawnPlan)
    ensures
        r == spec_spawn_plan(roll, n_ents as int, n_pickups as int),
{
    let enemy: bool = roll < 3 && n_ents < MAX_ENTS;
    let pickup: Option<AmmoKind> = if (roll == 2 || roll == 3) && n_pickups < MAX_AMMO_PICKUPS {
        if roll == 2 {
            Some(AmmoKind::Gun)
        } else {
            Some(AmmoKind::Mg)
        }
    } else {
        None
    };
    SpawnPlan { enemy, pickup }
}

/// Whether entity `i` sits this frame out (dead), flies on its
/// knockback velocity, or chases the camera at its own speed.
#[derive(Clone, Copy, PartialEq, Eq, Structural, Debug)]
pub enum EntityMove {
    /// Dead (death timer set): does not move.
    Still,
    /// Knockback flight: one collision-clamped step toward `target`.
    Knockback { target: Vec2Fx },
    /// Chase: one collision-clamped step toward the camera (with the
    /// engine's random heading jitter) at `speed`.
    Chase { speed: i64 },
}

/// Decide how entity `i` moves this frame.
pub fn entity_move_plan(ents: &Entities, i: usize) -> (r: EntityMove)
    requires
        ents.wf(),
        i < ents.ents().len(),
    ensures
        ents.death_timers()[i as int] is Some ==> r == EntityMove::Still,
        ents.death_timers()[i as int] is None && vel_active(ents.velocities()[i as int]) ==> r
            == (EntityMove::Knockback { target: spec_knockback_target(*ents, i as int) }),
        ents.death_timers()[i as int] is None && !vel_active(ents.velocities()[i as int]) ==> r
            == (EntityMove::Chase { speed: ents.speeds()[i as int] }),
        r matches EntityMove::Knockback { target } ==> target.near_bounds(),
{
    if ents.death_timer(i).is_some() {
        return EntityMove::Still;
    }
    let vel: Vec2Fx = ents.velocity(i);
    let in_flight: bool = vel.x > 1 || vel.x < -1 || vel.y > 1 || vel.y < -1;
    if in_flight {
        let pos: Vec2Fx = ents.ent(i).pos;
        EntityMove::Knockback {
            target: Vec2Fx { x: pos.x + KNOCKBACK_STEP * vel.x, y: pos.y + KNOCKBACK_STEP * vel.y },
        }
    } else {
        EntityMove::Chase { speed: ents.speed(i) }
    }
}

/// Land the collision-clamped knockback step of entity `i`.  The
/// entity moves to `newpos`; if that stopped it more than
/// `KNOCKBACK_SHORTFALL` short of its intended target it flew into a
/// wall: it dies halved on the spot and the impact shake starts (the
/// caller plays the impact and death cues).
pub fn knockback_result(
    state: &mut SessionState,
    ents: &mut Entities,
    i: usize,
    newpos: Vec2Fx,
    now: u64,
) -> (killed: bool)
    requires
        old(state).wf(),
        old(ents).wf(),
        i < old(ents).ents().len(),
        newpos.in_bounds(),
        old(ents).timers_at_most(now),
    ensures
        killed == (Vec2Fx::spec_dist_sq(newpos, spec_knockback_target(*old(ents), i as int))
            > KNOCKBACK_SHORTFALL * KNOCKBACK_SHORTFALL),
        final(ents).ents() == old(ents).ents().update(
            i as int,
            Ent {
                pos: newpos,
                tag: if killed {
                    SpriteTag::Halved
                } else {
                    old(ents).ents()[i as int].tag
                },
            },
        ),
        final(ents).death_timers() == if killed {
            old(ents).death_timers().update(i as int, Some(now))
        } else {
            old(ents).death_timers()
        },
        final(ents).speeds() == old(ents).speeds(),
        final(ents).velocities() == old(ents).velocities(),
        *final(state) == if killed {
            (SessionState { shake_begin: Some(now), ..*old(state) })
        } else {
            *old(state)
        },
        final(ents).wf(),
        final(ents).timers_at_most(now),
        final(state).wf(),
{
    let pos: Vec2Fx = ents.ent(i).pos;
    let vel: Vec2Fx = ents.velocity(i);
    let target: Vec2Fx = Vec2Fx {
        x: pos.x + KNOCKBACK_STEP * vel.x,
        y: pos.y + KNOCKBACK_STEP * vel.y,
    };
    ents.set_pos(i, newpos);
    proof {
        assert(0 <= KNOCKBACK_SHORTFALL * KNOCKBACK_SHORTFALL <= 1_000_000_000_000)
            by (nonlinear_arith);
    }
    if Vec2Fx::dist_sq(newpos, target) > KNOCKBACK_SHORTFALL * KNOCKBACK_SHORTFALL {
        ents.halve(i, now);
        state.shake_begin = Some(now);
        true
    } else {
        false
    }
}

} // verus!
