//! The turrets: choosing a target among the enemies in range, and firing at it.
//!
//! Enemies are named by integer ids (distinct, as the game's entities are);
//! `ids[i]` names the enemy `enemies[i]`.

use vstd::prelude::*;
use crate::enemies::{Enemy, passes};

verus! {

/// A turret and the id of the enemy it aims at, if any.
#[derive(Clone, Copy, PartialEq, Eq, Debug)]
pub struct Turret {
    pub target: Option<u64>,
}

impl Turret {
    /// A freshly built turret, aiming at nothing.
    pub fn new() -> (t: Turret)
        ensures
            t.target is None,
    {
        Turret { target: None }
    }
}

/// No id occurs twice.
pub open spec fn distinct(ids: Seq<u64>) -> bool {
    forall|i: int, j: int| 0 <= i < j < ids.len() ==> ids[i] != ids[j]
}

/// A turret without a target takes the first enemy in range; a turret with a
/// target keeps it. `in_range[i]` says whether enemy `ids[i]` is within the
/// turret's reach.
pub fn discover_target(turret: &mut Turret, ids: &Vec<u64>, in_range: &Vec<bool>)
    requires
        ids.len() == in_range.len(),
    ensures
        old(turret).target is Some ==> *final(turret) == *old(turret),
        old(turret).target is None ==> match final(turret).target {
            None => forall|i: int| 0 <= i < ids.len() ==> !#[trigger] in_range[i],
            Some(t) => exists|k: int|
                0 <= k < ids.len() && #[trigger] in_range[k] && ids[k] == t
                    && forall|j: int| 0 <= j < k ==> !#[trigger] in_range[j],
        },
{
    let ghost start = *turret;
    let n = ids.len();
    let mut i: usize = 0;
    while i < n
        invariant
            n == ids.len(),
            n == in_range.len(),
            i <= n,
            start == *old(turret),
            start.target is Some ==> *turret == start,
            start.target is None ==> match turret.target {
                None => forall|j: int| 0 <= j < i ==> !#[trigger] in_range[j],
                Some(t) => exists|k: int|
                    0 <= k < i && #[trigger] in_range[k] && ids[k] == t
                        && forall|j: int| 0 <= j < k ==> !#[trigger] in_range[j],
            },
        decreases n - i,
    {
        if in_range[i] && turret.target.is_none() {
            turret.target = Some(ids[i]);
        }
        i = i + 1;
    }
}

/// What a turret did in one frame.
#[derive(Clone, Copy, PartialEq, Eq, Debug)]
pub enum ShotOutcome {
    /// The turret is still cooling down from its last shot.
    CoolingDown,
    /// The turret hit the enemy at this index (restart the cooldown).
    Fired(usize),
    /// The turret had no target among the enemies and now aims at nothing.
    Idle,
}

/// The enemy after a hit: one point of health less.
pub open spec fn hit(e: Enemy) -> Enemy {
    Enemy { health: (e.health - 1) as i8, target_index: e.target_index, path: e.path }
}

/// One frame of a turret. `cooling` says whether its cooldown is still running.
/// A turret that is not cooling down and whose target is among the enemies
/// hits that enemy once, and lets go of it if it has no health left; one whose
/// target is not among them lets go of it.
pub fn shoot_target(turret: &mut Turret, cooling: bool, ids: &Vec<u64>, enemies: &mut Vec<Enemy>) -> (r: ShotOutcome)
    requires
        ids.len() == old(enemies).len(),
        distinct(ids@),
        forall|i: int|
            0 <= i < ids.len() && !cooling && old(turret).target == Some(#[trigger] ids[i])
                ==> old(enemies)[i].health > i8::MIN,
    ensures
        final(enemies).len() == old(enemies).len(),
        (r == ShotOutcome::CoolingDown) == cooling,
        r == ShotOutcome::CoolingDown ==> *final(turret) == *old(turret) && final(enemies)@ == old(enemies)@,
        match r {
            ShotOutcome::Fired(k) => {
                &&& k < ids.len()
                &&& old(turret).target == Some(ids[k as int])
                &&& final(enemies)@ == old(enemies)@.update(k as int, hit(old(enemies)[k as int]))
                &&& final(turret).target == if hit(old(enemies)[k as int]).health <= 0 {
                    None
                } else {
                    old(turret).target
                }
            },
            ShotOutcome::Idle => {
                &&& forall|i: int| 0 <= i < ids.len() ==> old(turret).target != Some(#[trigger] ids[i])
                &&& final(enemies)@ == old(enemies)@
                &&& final(turret).target is None
            },
            ShotOutcome::CoolingDown => true,
        },
{
    if cooling {
        return ShotOutcome::CoolingDown;
    }
    let ghost orig = enemies@;
    let ghost start = turret.target;
    let n = ids.len();
    let mut fired: Option<usize> = None;
    let mut found = false;
    let mut i: usize = 0;
    while i < n
        invariant
            n == ids.len(),
            n == enemies.len(),
            orig == old(enemies)@,
            start == old(turret).target,
            distinct(ids@),
            forall|j: int|
                0 <= j < n && start == Some(#[trigger] ids[j]) ==> orig[j].health > i8::MIN,
            i <= n,
            found == (fired is Some),
            match fired {
                Some(k) => {
                    &&& k < i
                    &&& start == Some(ids[k as int])
                    &&& enemies@ == orig.update(k as int, hit(orig[k as int]))
                    &&& turret.target == if hit(orig[k as int]).health <= 0 { None } else { start }
                },
                None => {
                    &&& forall|j: int| 0 <= j < i ==> start != Some(#[trigger] ids[j])
                    &&& enemies@ == orig
                    &&& turret.target == start
                },
            },
        decreases n - i,
    {
        if let Some(t) = turret.target {
            if ids[i] == t {
                found = true;
                if fired.is_none() {
                    let e = enemies[i];
                    enemies[i] = Enemy { health: e.health - 1, target_index: e.target_index, path: e.path };
                    fired = Some(i);
                }
                if enemies[i].health <= 0 {
                    turret.target = None;
                }
            }
        }
        i = i + 1;
    }
    if turret.target.is_some() && !found {
        turret.target = None;
    }
    match fired {
        Some(k) => ShotOutcome::Fired(k),
        None => ShotOutcome::Idle,
    }
}

/// An enemy that a hit leaves without health never marches again: the next
/// march that comes to it removes it (see `move_enemies`), whether or not it
/// stands at its waypoint.
pub proof fn lemma_shot_down_enemy_is_removed(e: Enemy, reached: bool)
    requires
        e.health > i8::MIN,
        hit(e).health <= 0,
    ensures
        !passes(hit(e), reached),
{
}

/// A hit costs exactly one point of health and changes nothing else about
/// the enemy: neither its waypoint nor its path.
pub proof fn lemma_hit_only_costs_health(e: Enemy)
    requires
        e.health > i8::MIN,
    ensures
        hit(e).health == e.health - 1,
        hit(e).target_index == e.target_index,
        hit(e).path == e.path,
        e.wf() ==> hit(e).wf(),
{
}

} // verus!
