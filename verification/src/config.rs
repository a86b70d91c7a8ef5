//! Tuning constants of the game.
//!
//! Distances and speeds are in fixed-point steps (1000 per world
//! unit, see `geom`); durations and timestamps are in milliseconds.

use vstd::prelude::*;

verus! {

/// Enemy population cap: no enemy spawns while this many are alive.
pub const MAX_ENTS: usize = 30;

/// Ammo-pickup cap on the floor at once.
pub const MAX_AMMO_PICKUPS: usize = 3;

/// Collecting this many goal pickups wins the run.
pub const GOAL_TARGET: i64 = 5;

/// Health at the start of a run.
pub const START_HEALTH: i64 = 5;

/// Magazine capacity of the single-shot gun.
pub const GUN_CAP: i64 = 16;

/// Magazine capacity of the machine gun.
pub const MG_CAP: i64 = 50;

/// Loaded rounds of the gun at the start of a run.
pub const START_GUN_LOADED: i64 = 16;

/// Reserve rounds of the gun at the start of a run.
pub const START_GUN_RESERVE: i64 = 32;

/// Loaded rounds of the machine gun at the start of a run.
pub const START_MG_LOADED: i64 = 50;

/// Reserve rounds of the machine gun at the start of a run.
pub const START_MG_RESERVE: i64 = 100;

/// Reserve rounds credited by a gun-ammo pickup.
pub const GUN_AMMO_CREDIT: i64 = 32;

/// Reserve rounds credited by a machine-gun-ammo pickup.
pub const MG_AMMO_CREDIT: i64 = 100;

/// A reload completes this long after it started.
pub const RELOAD_MS: u64 = 2000;

/// A dead entity is removed once its death timer is older than this.
pub const DEATH_GRACE_MS: u64 = 1000;

/// The player cannot be hurt twice within this interval.
pub const HURT_COOLDOWN_MS: u64 = 1000;

/// Minimum interval between machine-gun shots while the trigger is held.
pub const MG_INTERVAL_MS: u64 = 100;

/// A melee jab keeps hitting for this long after the press.
pub const JAB_WINDOW_MS: u64 = 100;

/// Impact screen shake lasts this long.
pub const SHAKE_MS: u64 = 100;

/// Weapon screen shake lasts this long.
pub const MG_SHAKE_MS: u64 = 50;

/// Damage overlay fades out over this long after a hit.
pub const HURT_FLASH_MS: u64 = 1000;

/// A melee jab reaches entities within this radius.
pub const MELEE_RADIUS: i64 = 30_000;

/// Pickups are collected within this radius of the camera.
pub const PICKUP_RADIUS: i64 = 20_000;

/// A living entity within this radius of the camera hurts the player.
pub const HURT_RADIUS: i64 = 5_000;

/// A grapple ends within this radius of its target with the knife out.
pub const GRAPPLE_END_KNIFE: i64 = 40_000;

/// A grapple ends within this radius of its target with a gun out.
pub const GRAPPLE_END_GUN: i64 = 20_000;

/// A knockback entity stopped more than this short of its intended
/// displacement has hit a wall and dies.
pub const KNOCKBACK_SHORTFALL: i64 = 5_000;

/// Walking speed per frame with the knife equipped.
pub const MOVE_SPEED_KNIFE: i64 = 4_000;

/// Walking speed per frame with the gun equipped.
pub const MOVE_SPEED_GUN: i64 = 3_000;

/// Walking speed per frame with the machine gun equipped.
pub const MOVE_SPEED_MG: i64 = 2_000;

/// Grapple flight speed per frame with the knife equipped.
pub const GRAPPLE_SPEED_KNIFE: i64 = 16_000;

/// Grapple flight speed per frame with the gun equipped.
pub const GRAPPLE_SPEED_GUN: i64 = 10_000;

/// Grapple flight speed per frame with the machine gun equipped.
pub const GRAPPLE_SPEED_MG: i64 = 8_000;

/// A knockback entity advances this many multiples of its unit
/// velocity per frame.
pub const KNOCKBACK_STEP: i64 = 16;

/// Bound on either component of a knockback velocity.  A velocity is
/// a unit vector (magnitude about 1000 steps); the bound only serves
/// the overflow proofs.
pub const VEL_LIMIT: i64 = 2_000;

/// A velocity with both components at most this is "no knockback in
/// flight" (the zero vector, up to rounding).
pub const VEL_EPS: i64 = 1;

/// Bound on a per-entity walking speed.
pub const SPEED_LIMIT: i64 = 1_000_000;

} // verus!
