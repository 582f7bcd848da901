//! The enemies: how a wave is spawned, how each enemy marches from waypoint to
//! waypoint, and when an enemy is removed or the game is lost.

use vstd::prelude::*;
use crate::paths::{PATH_LEN, path_points, waypoint};

verus! {

/// The health an enemy is spawned with.
pub const SPAWN_HEALTH: i8 = 4;

/// An enemy on the map: its health, the index of the waypoint it walks
/// towards, and the tag of the path it follows (see `path_points`).
#[derive(Clone, Copy, PartialEq, Eq, Debug, Structural)]
pub struct Enemy {
    pub health: i8,
    pub target_index: usize,
    pub path: i8,
}

impl Enemy {
    /// The enemy still has a waypoint ahead of it.
    pub open spec fn wf(&self) -> bool {
        self.target_index < PATH_LEN
    }

    /// A fresh enemy on path `path`: full health, walking towards the second
    /// waypoint (it appears on the first).
    pub fn spawned(path: i8) -> (e: Enemy)
        ensures
            e == (Enemy { health: SPAWN_HEALTH, target_index: 1, path }),
            e.wf(),
    {
        Enemy { health: SPAWN_HEALTH, target_index: 1, path }
    }

    /// The waypoint the enemy walks towards.
    pub fn target(&self) -> (p: (u32, u32))
        requires
            self.wf(),
        ensures
            p == path_points(self.path)[self.target_index as int],
    {
        waypoint(self.path, self.target_index)
    }
}

/// The state of the current wave: its level and how many enemies of it are
/// still to be spawned.
#[derive(Clone, Copy, PartialEq, Eq, Debug, Structural)]
pub struct Game {
    pub level: u32,
    pub enemies_left: u32,
}

/// The number of enemies in the wave that starts at `level`.
pub open spec fn wave_size(level: int) -> int {
    level * level + 10
}

impl Game {
    /// The first wave: level 1 with ten enemies.
    pub fn new() -> (g: Game)
        ensures
            g == (Game { level: 1, enemies_left: 10 }),
    {
        Game { level: 1, enemies_left: 10 }
    }
}

/// A spawner, remembering the path tag of the last enemy it placed.
#[derive(Clone, Copy, PartialEq, Eq, Debug, Structural)]
pub struct SpawnTimer {
    pub last_spawned: i8,
}

impl SpawnTimer {
    /// A spawner whose last enemy went on the first path.
    pub fn new() -> (s: SpawnTimer)
        ensures
            s.last_spawned == 0,
    {
        SpawnTimer { last_spawned: 0 }
    }
}

/// The path tag a spawner switches to: tag 0 becomes 1, any other becomes 0.
pub open spec fn next_tag(tag: i8) -> i8 {
    if tag == 0 { 1 } else { 0 }
}

/// What a spawner does in one frame of the spawning phase.
#[derive(Clone, Copy, PartialEq, Eq, Debug)]
pub enum SpawnAction {
    /// Place `enemy` at map position `at` (and restart the spawn cooldown).
    Spawn { enemy: Enemy, at: (u32, u32) },
    /// Nothing to place this frame.
    Wait,
    /// The wave is exhausted: the next wave has begun (restart the countdown).
    NextWave,
}

/// The wave state after one frame of a spawner (see `spawn_step`).
pub open spec fn spawned_game(g: Game, ready: bool) -> Game {
    if g.enemies_left != 0 {
        if ready {
            Game { level: g.level, enemies_left: (g.enemies_left - 1) as u32 }
        } else {
            g
        }
    } else {
        Game { level: (g.level + 1) as u32, enemies_left: wave_size(g.level + 1) as u32 }
    }
}

/// One frame of a spawner while the countdown between waves has run out.
/// `ready` says whether the spawner's cooldown has elapsed.
///
/// The spawner always switches path tags. While enemies of the wave are left,
/// a ready spawner places one on the path of its new tag, at that path's first
/// waypoint; once none is left, the level rises and the next wave gets
/// `level * level + 10` enemies.
pub fn spawn_step(game: &mut Game, spawner: &mut SpawnTimer, ready: bool) -> (action: SpawnAction)
    requires
        old(game).enemies_left == 0 ==> old(game).level < 65535,
    ensures
        final(spawner).last_spawned == next_tag(old(spawner).last_spawned),
        *final(game) == spawned_game(*old(game), ready),
        old(game).enemies_left != 0 && ready ==> {
            &&& action == SpawnAction::Spawn {
                enemy: Enemy { health: SPAWN_HEALTH, target_index: 1, path: final(spawner).last_spawned },
                at: path_points(final(spawner).last_spawned)[0],
            }
            &&& *final(game) == (Game { level: old(game).level, enemies_left: (old(game).enemies_left - 1) as u32 })
        },
        old(game).enemies_left != 0 && !ready ==> action == SpawnAction::Wait && *final(game) == *old(game),
        old(game).enemies_left == 0 ==> {
            &&& action == SpawnAction::NextWave
            &&& final(game).level == old(game).level + 1
            &&& final(game).enemies_left == wave_size(final(game).level as int)
            &&& final(game).enemies_left == final(game).level * final(game).level + 10
        },
{
    spawner.last_spawned = if spawner.last_spawned == 0 { 1 } else { 0 };
    if game.enemies_left != 0 {
        if ready {
            game.enemies_left = game.enemies_left - 1;
            let path = spawner.last_spawned;
            SpawnAction::Spawn { enemy: Enemy::spawned(path), at: waypoint(path, 0) }
        } else {
            SpawnAction::Wait
        }
    } else {
        let level = game.level + 1;
        assert(level * level <= 65535 * 65535) by (nonlinear_arith)
            requires
                level <= 65535,
        ;
        game.level = level;
        game.enemies_left = level * level + 10;
        SpawnAction::NextWave
    }
}

/// The wave state after `n` frames in each of which the spawner is ready.
pub open spec fn ready_frames(g: Game, n: nat) -> Game
    decreases n,
{
    if n == 0 {
        g
    } else {
        spawned_game(ready_frames(g, (n - 1) as nat), true)
    }
}

proof fn lemma_ready_frames_count_down(g: Game, k: nat)
    requires
        k <= g.enemies_left,
    ensures
        ready_frames(g, k) == (Game { level: g.level, enemies_left: (g.enemies_left - k) as u32 }),
    decreases k,
{
    if k > 0 {
        lemma_ready_frames_count_down(g, (k - 1) as nat);
    }
}

/// A wave with `w` enemies still to place is exhausted after exactly `w`
/// frames in which the spawner is ready (each of them places one enemy), and
/// the frame after that starts the next level, whose wave has
/// `level * level + 10` enemies.
pub proof fn lemma_wave_is_exhausted(g: Game)
    requires
        g.level < 65535,
    ensures
        ready_frames(g, g.enemies_left as nat) == (Game { level: g.level, enemies_left: 0 }),
        forall|k: nat| k < g.enemies_left ==> #[trigger] ready_frames(g, k).enemies_left != 0,
        ready_frames(g, g.enemies_left as nat + 1) == (Game {
            level: (g.level + 1) as u32,
            enemies_left: wave_size(g.level + 1) as u32,
        }),
        wave_size(g.level + 1) <= u32::MAX,
{
    lemma_ready_frames_count_down(g, g.enemies_left as nat);
    assert forall|k: nat| k < g.enemies_left implies #[trigger] ready_frames(g, k).enemies_left != 0 by {
        lemma_ready_frames_count_down(g, k);
    }
    let l = g.level + 1;
    assert(l * l <= 65535 * 65535) by (nonlinear_arith)
        requires
            0 <= l <= 65535,
    ;
    assert(ready_frames(g, g.enemies_left as nat + 1) == spawned_game(
        ready_frames(g, g.enemies_left as nat),
        true,
    ));
}

/// After its first frame a spawner only ever holds the tags 0 and 1, and it
/// switches between them on every frame, so enemies placed on consecutive
/// frames go on different paths.
pub proof fn lemma_spawner_alternates(tag: i8)
    ensures
        next_tag(tag) == 0 || next_tag(tag) == 1,
        next_tag(next_tag(tag)) != next_tag(tag),
        path_points(next_tag(next_tag(tag))) != path_points(next_tag(tag)),
{
    let a = path_points(0);
    let b = path_points(1);
    assert(a[0] != b[0]);
}

/// How a frame of marching ended.
#[derive(Clone, Copy, PartialEq, Eq, Debug, Structural)]
pub enum EnemyFrame {
    /// Every enemy marched.
    Continue,
    /// The enemy at this index has no health left and leaves the map; the
    /// enemies after it do not march this frame.
    Killed(usize),
    /// The enemy at this index walked past the last waypoint: the game is lost.
    Lost(usize),
}

/// An enemy that marches on in this frame without being removed or ending the game.
pub open spec fn passes(e: Enemy, reached: bool) -> bool {
    e.health > 0 && !(reached && e.target_index + 1 >= PATH_LEN)
}

/// The enemy after its march: if it reached its waypoint, it walks towards the next.
pub open spec fn advanced(e: Enemy, reached: bool) -> Enemy {
    if reached {
        Enemy { health: e.health, target_index: (e.target_index + 1) as usize, path: e.path }
    } else {
        e
    }
}

/// Marching changes nothing about an enemy but its waypoint: one that did not
/// reach its waypoint keeps walking towards it, one that did walks towards the
/// next waypoint of the same path, with the same health.
pub proof fn lemma_march_moves_only_arrivals(e: Enemy, reached: bool)
    requires
        e.wf(),
    ensures
        !reached ==> advanced(e, reached) == e,
        reached ==> advanced(e, reached).target_index == e.target_index + 1,
        advanced(e, reached).health == e.health,
        advanced(e, reached).path == e.path,
{
}

/// The wave at every level `l` has `l * l + 10` enemies.
pub proof fn lemma_wave_size(l: int)
    ensures
        wave_size(l) == l * l + 10,
        wave_size(l) >= 10,
{
    assert(l * l >= 0) by (nonlinear_arith);
}

/// How many enemies, from the front, were handled in a frame that ended with `r`.
pub open spec fn handled(r: EnemyFrame, n: int) -> int {
    match r {
        EnemyFrame::Continue => n,
        EnemyFrame::Killed(k) => k as int,
        EnemyFrame::Lost(k) => k + 1,
    }
}

/// One frame of marching. `reached[i]` says whether enemy `i` stood at its
/// waypoint when the frame began. Enemies are handled in order: the first one
/// without health ends the frame as `Killed`; one that reaches the last
/// waypoint ends it as `Lost`; every other enemy moves on to its next waypoint
/// if it reached its current one. Every enemy reached alive in this order must
/// have a waypoint ahead, since the game reads it to move the enemy.
pub fn move_enemies(enemies: &mut Vec<Enemy>, reached: &Vec<bool>) -> (r: EnemyFrame)
    requires
        old(enemies).len() == reached.len(),
        forall|i: int|
            0 <= i < old(enemies).len() && old(enemies)[i].health > 0 && (forall|j: int|
                0 <= j < i ==> passes(#[trigger] old(enemies)[j], reached[j])) ==> #[trigger] old(enemies)[i].wf(),
    ensures
        final(enemies).len() == old(enemies).len(),
        match r {
            EnemyFrame::Continue => forall|j: int|
                0 <= j < old(enemies).len() ==> passes(#[trigger] old(enemies)[j], reached[j]),
            EnemyFrame::Killed(k) => {
                &&& k < old(enemies).len()
                &&& forall|j: int| 0 <= j < k ==> passes(#[trigger] old(enemies)[j], reached[j])
                &&& old(enemies)[k as int].health <= 0
            },
            EnemyFrame::Lost(k) => {
                &&& k < old(enemies).len()
                &&& forall|j: int| 0 <= j < k ==> passes(#[trigger] old(enemies)[j], reached[j])
                &&& old(enemies)[k as int].health > 0
                &&& reached[k as int]
                &&& old(enemies)[k as int].target_index + 1 >= PATH_LEN
            },
        },
        forall|j: int|
            0 <= j < old(enemies).len() && !reached[j] ==> #[trigger] final(enemies)[j] == old(enemies)[j],
        forall|j: int|
            0 <= j < old(enemies).len() && reached[j] && j < handled(r, old(enemies).len() as int) ==> {
                &&& #[trigger] final(enemies)[j].target_index == old(enemies)[j].target_index + 1
                &&& final(enemies)[j].health == old(enemies)[j].health
                &&& final(enemies)[j].path == old(enemies)[j].path
            },
        forall|j: int|
            0 <= j < old(enemies).len() ==> #[trigger] final(enemies)[j] == if j < handled(r, old(enemies).len() as int) {
                advanced(old(enemies)[j], reached[j])
            } else {
                old(enemies)[j]
            },
        forall|j: int|
            0 <= j < old(enemies).len() && old(enemies)[j].wf() && !(r == EnemyFrame::Lost(j as usize))
                ==> #[trigger] final(enemies)[j].wf(),
{
    let ghost orig = enemies@;
    let n = enemies.len();
    let mut i: usize = 0;
    while i < n
        invariant
            n == enemies.len(),
            n == reached.len(),
            n == orig.len(),
            orig == old(enemies)@,
            i <= n,
            forall|k: int|
                0 <= k < n && orig[k].health > 0 && (forall|j: int|
                    0 <= j < k ==> passes(#[trigger] orig[j], reached[j])) ==> #[trigger] orig[k].wf(),
            forall|j: int| 0 <= j < i ==> passes(#[trigger] orig[j], reached[j]),
            forall|j: int| 0 <= j < n ==> #[trigger] enemies@[j] == if j < i {
                advanced(orig[j], reached[j])
            } else {
                orig[j]
            },
        decreases n - i,
    {
        let e = enemies[i];
        assert(e == orig[i as int]);
        if e.health <= 0 {
            return EnemyFrame::Killed(i);
        }
        assert(orig[i as int].wf());
        if reached[i] {
            let next = e.target_index + 1;
            enemies[i] = Enemy { health: e.health, target_index: next, path: e.path };
            if next >= PATH_LEN {
                return EnemyFrame::Lost(i);
            }
        }
        i = i + 1;
    }
    EnemyFrame::Continue
}

/// The enemy after reaching its waypoint in each of `n` frames.
pub open spec fn arrivals(e: Enemy, n: nat) -> Enemy
    decreases n,
{
    if n == 0 {
        e
    } else {
        advanced(arrivals(e, (n - 1) as nat), true)
    }
}

proof fn lemma_arrivals_index(e: Enemy, n: nat)
    requires
        e.target_index + n <= usize::MAX,
    ensures
        arrivals(e, n) == (Enemy { health: e.health, target_index: (e.target_index + n) as usize, path: e.path }),
    decreases n,
{
    if n > 0 {
        lemma_arrivals_index(e, (n - 1) as nat);
    }
}

/// A freshly placed enemy that reaches a waypoint in every frame walks
/// towards every later waypoint of its path in turn, and ends the game on the
/// frame it reaches the last one, its `PATH_LEN - 1`-th arrival.
pub proof fn lemma_enemy_walks_whole_path(path: i8, n: nat)
    ensures
        n < PATH_LEN - 2 ==> passes(arrivals(Enemy { health: SPAWN_HEALTH, target_index: 1, path }, n), true),
        n < PATH_LEN - 1 ==> arrivals(Enemy { health: SPAWN_HEALTH, target_index: 1, path }, n).target_index == 1 + n,
        n == PATH_LEN - 2 ==> !passes(arrivals(Enemy { health: SPAWN_HEALTH, target_index: 1, path }, n), true),
{
    if n < PATH_LEN {
        lemma_arrivals_index(Enemy { health: SPAWN_HEALTH, target_index: 1, path }, n);
    }
}

} // verus!
