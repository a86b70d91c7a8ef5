//! Tests of the world simulation: grapple movement, melee, spawning,
//! pickups, the goal, knockback flight, proximity damage and the
//! win/lose freeze.

use nuthunt::world::{knockback_result, melee_step, spawn_decision, spawn_roll};
use nuthunt::{
    AmmoKind, Ent, Entities, EntityMove, FireAction, Item, MeleeHit, MovePlan, Pickup,
    SessionState, SpriteTag, Vec2Fx,
};
use nuthunt::config::{GOAL_TARGET, MAX_AMMO_PICKUPS, MAX_ENTS, START_HEALTH};

fn pt(x: i64, y: i64) -> Vec2Fx {
    Vec2Fx::new(x, y)
}

fn ent_at(x: i64, y: i64) -> Ent {
    Ent { pos: pt(x, y), tag: SpriteTag::Alive }
}

#[test]
fn squared_distance_is_exact() {
    assert_eq!(Vec2Fx::dist_sq(pt(0, 0), pt(3, 4)), 25);
    assert_eq!(Vec2Fx::dist_sq(pt(-1000, 2000), pt(2000, -2000)), 25_000_000);
    assert!(Vec2Fx::within(pt(0, 0), pt(2999, 0), 3000));
    assert!(!Vec2Fx::within(pt(0, 0), pt(3000, 0), 3000));
}

#[test]
fn walking_speed_follows_the_item() {
    let cam = pt(100_000, 100_000);
    let mut s = SessionState::new();
    assert_eq!(s.movement(cam, 0), MovePlan::Walk { speed: 4000 });
    s.switch_item(Item::Gun);
    assert_eq!(s.movement(cam, 0), MovePlan::Walk { speed: 3000 });
    s.switch_item(Item::Mg);
    assert_eq!(s.movement(cam, 0), MovePlan::Walk { speed: 2000 });
}

#[test]
fn grapple_pulls_until_the_end_radius_then_shakes() {
    let target = pt(200_000, 100_000);
    let mut s = SessionState::new();
    s.grapple_acquire(target);
    assert!(s.grappling);

    // Far away: a forced step at the knife's grapple speed.
    let far = pt(100_000, 100_000);
    assert_eq!(s.movement(far, 1000), MovePlan::GrappleStep { target, speed: 16_000 });
    assert!(s.grappling);

    // Within 40 units with the knife out: the grapple ends.
    let near = pt(170_000, 100_000);
    assert_eq!(s.movement(near, 2000), MovePlan::GrappleEnd);
    assert!(!s.grappling);
    assert_eq!(s.shake_begin, Some(2000));
    assert!(s.shake_active(2050));
    assert!(!s.shake_active(2100));

    // The next frame walks normally again.
    assert_eq!(s.movement(near, 2100), MovePlan::Walk { speed: 4000 });
}

#[test]
fn grapple_end_radius_is_tighter_with_a_gun() {
    let target = pt(200_000, 100_000);
    let cam = pt(170_000, 100_000);

    let mut s = SessionState::new();
    s.switch_item(Item::Gun);
    s.grapple_acquire(target);
    // 30 units out: not within the gun's 20-unit end radius.
    assert_eq!(s.movement(cam, 0), MovePlan::GrappleStep { target, speed: 10_000 });

    let closer = pt(185_000, 100_000);
    assert_eq!(s.movement(closer, 0), MovePlan::GrappleEnd);
}

#[test]
fn melee_kills_in_reach_and_launches_while_grappling() {
    let cam = pt(100_000, 100_000);
    let mut ents = Entities::new();
    ents.push(ent_at(120_000, 100_000), 1000);  // 20 units: in reach
    ents.push(ent_at(140_000, 100_000), 1000);  // 40 units: out of reach
    let dir = pt(707, 707);

    // Out of reach, or not faced: missed.
    assert_eq!(melee_step(&mut ents, 1, cam, true, false, dir, 500), MeleeHit::Missed);
    assert_eq!(melee_step(&mut ents, 0, cam, false, false, dir, 500), MeleeHit::Missed);
    assert_eq!(ents.ent(0).tag, SpriteTag::Alive);

    // In reach while grappling: launched, not killed.
    assert_eq!(melee_step(&mut ents, 0, cam, true, true, dir, 500), MeleeHit::Launched);
    assert_eq!(ents.velocity(0), dir);
    assert_eq!(ents.ent(0).tag, SpriteTag::Alive);

    // An entity in knockback flight is immune to further jabs.
    assert_eq!(melee_step(&mut ents, 0, cam, true, false, dir, 600), MeleeHit::Missed);
}

#[test]
fn melee_window_sweeps_all_reached_entities() {
    let cam = pt(100_000, 100_000);
    let mut s = SessionState::new();
    let mut ents = Entities::new();
    ents.push(ent_at(110_000, 100_000), 1000);  // 10 units: in reach
    ents.push(ent_at(100_000, 125_000), 1000);  // 25 units: in reach
    ents.push(ent_at(150_000, 100_000), 1000);  // 50 units: out of reach
    let facing = vec![true, true, true];

    // Window closed: nothing happens.
    assert_eq!(
        nuthunt::world::melee_window(&mut s, &mut ents, cam, &facing, pt(0, 0), 3000),
        0,
    );
    assert_eq!(ents.ent(0).tag, SpriteTag::Alive);

    // Open the window: both entities in reach die in one sweep.
    assert_eq!(s.trigger_pressed(3000), FireAction::Jab);
    assert_eq!(
        nuthunt::world::melee_window(&mut s, &mut ents, cam, &facing, pt(0, 0), 3050),
        2,
    );
    assert_eq!(ents.ent(0).tag, SpriteTag::Halved);
    assert_eq!(ents.ent(1).tag, SpriteTag::Halved);
    assert_eq!(ents.ent(2).tag, SpriteTag::Alive);
}

#[test]
fn melee_window_launch_cancels_the_grapple() {
    let cam = pt(100_000, 100_000);
    let mut s = SessionState::new();
    s.grapple_acquire(pt(200_000, 100_000));
    let mut ents = Entities::new();
    ents.push(ent_at(110_000, 100_000), 1000);
    let facing = vec![true];
    let dir = pt(1000, 0);

    assert_eq!(s.trigger_pressed(4000), FireAction::Jab);
    // In a grapple the jab launches instead of killing, and the
    // grapple is cancelled by the launch.
    assert_eq!(nuthunt::world::melee_window(&mut s, &mut ents, cam, &facing, dir, 4020), 0);
    assert_eq!(ents.ent(0).tag, SpriteTag::Alive);
    assert_eq!(ents.velocity(0), dir);
    assert!(!s.grappling);
}

#[test]
fn melee_kill_outside_a_grapple_is_immediate() {
    let cam = pt(100_000, 100_000);
    let mut ents = Entities::new();
    ents.push(ent_at(110_000, 100_000), 1000);
    assert_eq!(melee_step(&mut ents, 0, cam, true, false, pt(0, 0), 900), MeleeHit::Killed);
    assert_eq!(ents.ent(0).tag, SpriteTag::Halved);
    assert_eq!(ents.death_timer(0), Some(900));
}

#[test]
fn entity_move_plans_follow_state() {
    let mut ents = Entities::new();
    ents.push(ent_at(100_000, 100_000), 2500);
    ents.push(ent_at(50_000, 50_000), 1200);
    ents.push(ent_at(60_000, 60_000), 1200);
    ents.set_velocity(1, pt(1000, 0));
    ents.halve(2, 100);

    assert_eq!(nuthunt::world::entity_move_plan(&ents, 0), EntityMove::Chase { speed: 2500 });
    assert_eq!(
        nuthunt::world::entity_move_plan(&ents, 1),
        EntityMove::Knockback { target: pt(66_000, 50_000) },
    );
    assert_eq!(nuthunt::world::entity_move_plan(&ents, 2), EntityMove::Still);
}

#[test]
fn knockback_blocked_short_of_its_target_kills() {
    let mut state = SessionState::new();
    let mut ents = Entities::new();
    ents.push(ent_at(100_000, 100_000), 1000);
    ents.set_velocity(0, pt(1000, 0));

    // Intended target is x = 116_000; a wall stopped it at 109_000,
    // 7 units short: it dies halved and the impact shake starts.
    let killed = knockback_result(&mut state, &mut ents, 0, pt(109_000, 100_000), 4000);
    assert!(killed);
    assert_eq!(ents.ent(0).pos, pt(109_000, 100_000));
    assert_eq!(ents.ent(0).tag, SpriteTag::Halved);
    assert_eq!(ents.death_timer(0), Some(4000));
    assert_eq!(state.shake_begin, Some(4000));
}

#[test]
fn knockback_within_the_shortfall_survives() {
    let mut state = SessionState::new();
    let mut ents = Entities::new();
    ents.push(ent_at(100_000, 100_000), 1000);
    ents.set_velocity(0, pt(1000, 0));

    // Exactly 5 units short: not over the threshold, it flies on.
    let killed = knockback_result(&mut state, &mut ents, 0, pt(111_000, 100_000), 4000);
    assert!(!killed);
    assert_eq!(ents.ent(0).pos, pt(111_000, 100_000));
    assert_eq!(ents.ent(0).tag, SpriteTag::Alive);
    assert_eq!(ents.death_timer(0), None);
    assert_eq!(state.shake_begin, None);
}

#[test]
fn spawn_rolls_map_to_exact_plans() {
    assert_eq!(spawn_decision(0, 0, 0).enemy, true);
    assert_eq!(spawn_decision(0, 0, 0).pickup, None);

    let two = spawn_decision(2, 5, 1);
    assert_eq!(two.enemy, true);
    assert_eq!(two.pickup, Some(AmmoKind::Gun));

    let three = spawn_decision(3, 5, 1);
    assert_eq!(three.enemy, false);
    assert_eq!(three.pickup, Some(AmmoKind::Mg));

    let four = spawn_decision(4, 5, 1);
    assert_eq!(four.enemy, false);
    assert_eq!(four.pickup, None);
}

#[test]
fn spawn_respects_population_caps() {
    assert_eq!(spawn_decision(0, MAX_ENTS, 0).enemy, false);
    assert_eq!(spawn_decision(2, MAX_ENTS, MAX_AMMO_PICKUPS).enemy, false);
    assert_eq!(spawn_decision(2, 0, MAX_AMMO_PICKUPS).pickup, None);

    // However the roll falls, a full world spawns nothing.
    for _ in 0..100 {
        let plan = spawn_roll(MAX_ENTS, MAX_AMMO_PICKUPS);
        assert!(!plan.enemy);
        assert_eq!(plan.pickup, None);
    }
}

#[test]
fn drawn_spawn_plans_are_plans_of_some_percent_roll() {
    // A pickup of gun ammo comes only from a roll of exactly 2, which
    // also spawns an enemy while the population is under its cap.
    for _ in 0..500 {
        let plan = spawn_roll(0, 0);
        if plan.pickup == Some(AmmoKind::Gun) {
            assert!(plan.enemy);
        }
    }
}

#[test]
fn exactly_one_goal_stands_while_running() {
    let mut s = SessionState::new();
    assert_eq!(s.goal, None);

    // The first spawn places it; a second attempt changes nothing.
    assert!(s.ensure_goal(pt(40_000, 40_000)));
    assert_eq!(s.goal, Some(pt(40_000, 40_000)));
    assert!(!s.ensure_goal(pt(90_000, 90_000)));
    assert_eq!(s.goal, Some(pt(40_000, 40_000)));

    // Out of reach: it stays; in reach: collected and respawned.
    assert!(!s.collect_goal(pt(100_000, 100_000)));
    assert_eq!(s.nuts_collected, 0);
    assert!(s.collect_goal(pt(45_000, 40_000)));
    assert_eq!(s.nuts_collected, 1);
    assert_eq!(s.goal, None);
    assert!(s.ensure_goal(pt(70_000, 70_000)));
    assert_eq!(s.goal, Some(pt(70_000, 70_000)));
}

#[test]
fn collecting_the_goal_target_freezes_the_run() {
    let mut s = SessionState::new();
    for i in 0..GOAL_TARGET {
        assert!(s.is_running());
        s.ensure_goal(pt(40_000, 40_000));
        assert!(s.collect_goal(pt(40_000, 40_000)));
        assert_eq!(s.nuts_collected, i + 1);
    }
    assert!(!s.is_running());
}

#[test]
fn first_pickup_in_reach_is_collected_and_credits_its_account() {
    let cam = pt(100_000, 100_000);
    let mut s = SessionState::new();
    s.add_pickup(Pickup { pos: pt(200_000, 200_000), kind: AmmoKind::Gun });
    s.add_pickup(Pickup { pos: pt(110_000, 100_000), kind: AmmoKind::Mg });
    let (gun_before, mg_before): (i64, i64) = (s.gun_reserve, s.mg_reserve);

    // The far one is passed over; the near one credits 100 rounds.
    assert_eq!(s.collect_pickup(cam), Some(1));
    assert_eq!(s.mg_reserve, mg_before + 100);
    assert_eq!(s.gun_reserve, gun_before);
    assert_eq!(s.pickups.len(), 1);

    // Nothing left in reach.
    assert_eq!(s.collect_pickup(cam), None);
}

#[test]
fn gun_ammo_pickup_credits_thirty_two() {
    let cam = pt(100_000, 100_000);
    let mut s = SessionState::new();
    s.add_pickup(Pickup { pos: pt(100_000, 115_000), kind: AmmoKind::Gun });
    let before = s.gun_reserve;
    assert_eq!(s.collect_pickup(cam), Some(0));
    assert_eq!(s.gun_reserve, before + 32);
    assert!(s.pickups.is_empty());
}

#[test]
fn proximity_damage_respects_the_hit_cooldown() {
    let cam = pt(100_000, 100_000);
    let mut s = SessionState::new();
    let mut ents = Entities::new();
    ents.push(ent_at(103_000, 100_000), 1000);  // 3 units away: lethal range

    assert!(s.proximity_damage(&ents, cam, 5000));
    assert_eq!(s.health, START_HEALTH - 1);
    assert_eq!(s.last_hurt, Some(5000));

    // However many frames run inside the cooldown, nothing lands.
    assert!(!s.proximity_damage(&ents, cam, 5001));
    assert!(!s.proximity_damage(&ents, cam, 5500));
    assert!(!s.proximity_damage(&ents, cam, 5999));
    assert_eq!(s.health, START_HEALTH - 1);

    // At the cooldown boundary the next hit lands.
    assert!(s.proximity_damage(&ents, cam, 6000));
    assert_eq!(s.health, START_HEALTH - 2);
}

#[test]
fn dead_entities_do_not_hurt_and_health_stops_the_run_at_zero() {
    let cam = pt(100_000, 100_000);
    let mut s = SessionState::new();
    let mut ents = Entities::new();
    ents.push(ent_at(103_000, 100_000), 1000);
    ents.halve(0, 0);

    // A corpse in lethal range hurts nobody.
    assert!(!s.proximity_damage(&ents, cam, 5000));
    assert_eq!(s.health, START_HEALTH);

    // A living one drains health to zero, which freezes the run.
    let mut ents = Entities::new();
    ents.push(ent_at(103_000, 100_000), 1000);
    let mut now: u64 = 10_000;
    for _ in 0..START_HEALTH {
        assert!(s.is_running());
        assert!(s.proximity_damage(&ents, cam, now));
        now += 1000;
    }
    assert_eq!(s.health, 0);
    assert!(!s.is_running());
}

#[test]
fn weapon_shake_and_damage_flash_windows() {
    let mut s = SessionState::new();
    s.switch_item(Item::Gun);
    assert_eq!(s.trigger_pressed(1000), FireAction::Shot);
    assert_eq!(s.mg_shake_begin, Some(1000));
    assert!(s.mg_shake_active(1049));
    assert!(!s.mg_shake_active(1050));

    s.last_hurt = Some(2000);
    assert!(s.hurt_flash_active(2500));
    assert!(!s.hurt_flash_active(3000));
    assert_eq!(s.millis_since_hurt(2400), Some(400));
}
