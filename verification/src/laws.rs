//! Laws of the game rules that span more than one transition.
//!
//! Each proof function states a guarantee of the simulation in terms
//! of the spec functions that the transition contracts use; the
//! per-transition guarantees (parallel-array alignment on removal,
//! exact reload transfer, dry fire changing nothing, deferred death
//! removal) stand as `ensures` on the transitions themselves.

use vstd::prelude::*;

use crate::session::{SessionState, Item, reload_amount};
use crate::world::cooldown_ready;
use crate::entities::timer_expired;
use crate::config::{HURT_COOLDOWN_MS, DEATH_GRACE_MS};

verus! {

/// A reload can never overfill the magazine nor overdraw the
/// reserve: from any account with `0 <= loaded <= cap` and
/// `0 <= reserve`, moving `min(reserve, cap, cap - loaded)` rounds
/// leaves `loaded <= cap` and `reserve >= 0`.
pub proof fn lemma_reload_within_bounds(reserve: i64, cap: i64, loaded: i64)
    requires
        0 <= loaded <= cap,
        0 <= reserve,
    ensures
        0 <= reload_amount(reserve, cap, loaded),
        loaded + reload_amount(reserve, cap, loaded) <= cap,
        reserve - reload_amount(reserve, cap, loaded) >= 0,
{
}

/// Proximity damage cannot land twice within the hit cooldown,
/// at any frame rate: a hit at `hit` sets the cooldown stamp, and
/// however many frames run before `hit + HURT_COOLDOWN_MS`, the
/// cooldown test fails on every one of them.
pub proof fn lemma_hurt_cooldown(hit: u64, now: u64)
    requires
        now < hit + HURT_COOLDOWN_MS,
    ensures
        !cooldown_ready(Some(hit), now),
{
}

/// A dead entity is never removed before its death timer has been
/// active for the full grace period.
pub proof fn lemma_no_early_removal(death: u64, now: u64)
    requires
        now <= death + DEATH_GRACE_MS,
    ensures
        !timer_expired(Some(death), now),
{
}

/// Switching weapons is a pure selection change: equip `a`, detour
/// through `b`, come back to `a`, and the whole session state — both
/// ammo accounts in particular — is exactly what it was.
pub proof fn lemma_switch_round_trip(s: SessionState, a: Item, b: Item)
    requires
        s.item == a,
    ensures
        ({
            let detour = SessionState { item: b, ..s };
            let back = SessionState { item: a, ..detour };
            &&& back == s
            &&& back.gun_loaded == s.gun_loaded
            &&& back.gun_reserve == s.gun_reserve
            &&& back.mg_loaded == s.mg_loaded
            &&& back.mg_reserve == s.mg_reserve
        }),
{
}

} // verus!
