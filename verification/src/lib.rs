//! Game-logic core of a small first-person raycasting game.
//!
//! The player roams a tile map, fights spawning enemies with a knife,
//! a machine gun and a single-shot gun, grapples across the map,
//! collects ammo pickups and a goal pickup, and wins or loses on the
//! collection count and health.  Rendering, input, audio and the
//! collision/ray engine live outside; this crate holds the state and
//! every per-frame decision, on fixed-point coordinates and
//! millisecond timestamps.
//!
//! A frame runs its phases in a fixed order: camera movement (forced
//! while a grapple is in flight), the reload timer, weapon switches,
//! the fire edge and the fire hold, the open melee window, grapple
//! acquisition, the spawn roll, the goal respawn, pickup and goal
//! collection, one deferred removal of an expired corpse, entity
//! movement (chase or knockback flight), and proximity damage.  The
//! frame loop performs the engine work between phases — ray casts,
//! collision-clamped steps, random open tiles — and hands each
//! result back as a plain value.

pub mod config;
pub mod entities;
pub mod geom;
pub mod laws;
pub mod session;
pub mod world;

pub use entities::{Ent, Entities, SpriteTag};
pub use geom::Vec2Fx;
pub use session::{AmmoKind, FireAction, Item, Pickup, SessionState};
pub use world::{EntityMove, MeleeHit, MovePlan, SpawnPlan};
