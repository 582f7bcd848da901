//! The two paths along which the enemies march, as lists of waypoints on the
//! map. Every waypoint of the game lies on whole map units.

use vstd::prelude::*;

verus! {

/// How many waypoints each path has.
pub const PATH_LEN: usize = 16;

/// The waypoints of the first path.
pub open spec fn first_path() -> Seq<(u32, u32)> {
    seq![
        (15u32, 102u32), (117, 107), (150, 80), (207, 71), (258, 73), (283, 49), (353, 61), (417, 53),
        (350, 83), (480, 141), (549, 172), (646, 166), (708, 123), (780, 97), (880, 95), (980, 183),
    ]
}

/// The waypoints of the second path.
pub open spec fn second_path() -> Seq<(u32, u32)> {
    seq![
        (33u32, 240u32), (61, 230), (93, 192), (132, 174), (278, 153), (278, 153), (353, 133), (401, 142),
        (449, 120), (481, 53), (542, 27), (643, 49), (711, 74), (780, 96), (878, 94), (981, 188),
    ]
}

/// The path that an enemy with the given path tag follows: tag 0 selects the
/// first path, every other tag the second.
pub open spec fn path_points(path: i8) -> Seq<(u32, u32)> {
    if path == 0 { first_path() } else { second_path() }
}

/// The waypoints of the path selected by `path`.
pub fn path_waypoints(path: i8) -> (points: Vec<(u32, u32)>)
    ensures
        points@ == path_points(path),
        points.len() == PATH_LEN,
{
    if path == 0 {
        let v = vec![
            (15u32, 102u32), (117, 107), (150, 80), (207, 71), (258, 73), (283, 49), (353, 61), (417, 53),
            (350, 83), (480, 141), (549, 172), (646, 166), (708, 123), (780, 97), (880, 95), (980, 183),
        ];
        assert(v@ =~= first_path());
        v
    } else {
        let v = vec![
            (33u32, 240u32), (61, 230), (93, 192), (132, 174), (278, 153), (278, 153), (353, 133), (401, 142),
            (449, 120), (481, 53), (542, 27), (643, 49), (711, 74), (780, 96), (878, 94), (981, 188),
        ];
        assert(v@ =~= second_path());
        v
    }
}

/// The waypoint at position `index` of the path selected by `path`.
pub fn waypoint(path: i8, index: usize) -> (p: (u32, u32))
    requires
        index < PATH_LEN,
    ensures
        p == path_points(path)[index as int],
{
    let points = path_waypoints(path);
    points[index]
}

/// The first path, waypoint by waypoint, from the enemies' entrance on the
/// left of the map to the exit on the right.
pub proof fn lemma_first_path_table()
    ensures
        path_points(0).len() == 16,
        path_points(0)[0] == (15u32, 102u32),
        path_points(0)[1] == (117u32, 107u32),
        path_points(0)[2] == (150u32, 80u32),
        path_points(0)[3] == (207u32, 71u32),
        path_points(0)[4] == (258u32, 73u32),
        path_points(0)[5] == (283u32, 49u32),
        path_points(0)[6] == (353u32, 61u32),
        path_points(0)[7] == (417u32, 53u32),
        path_points(0)[8] == (350u32, 83u32),
        path_points(0)[9] == (480u32, 141u32),
        path_points(0)[10] == (549u32, 172u32),
        path_points(0)[11] == (646u32, 166u32),
        path_points(0)[12] == (708u32, 123u32),
        path_points(0)[13] == (780u32, 97u32),
        path_points(0)[14] == (880u32, 95u32),
        path_points(0)[15] == (980u32, 183u32),
{
}

/// The second path, waypoint by waypoint; every tag other than 0 selects it.
pub proof fn lemma_second_path_table(tag: i8)
    requires
        tag != 0,
    ensures
        path_points(tag).len() == 16,
        path_points(tag)[0] == (33u32, 240u32),
        path_points(tag)[1] == (61u32, 230u32),
        path_points(tag)[2] == (93u32, 192u32),
        path_points(tag)[3] == (132u32, 174u32),
        path_points(tag)[4] == (278u32, 153u32),
        path_points(tag)[5] == (278u32, 153u32),
        path_points(tag)[6] == (353u32, 133u32),
        path_points(tag)[7] == (401u32, 142u32),
        path_points(tag)[8] == (449u32, 120u32),
        path_points(tag)[9] == (481u32, 53u32),
        path_points(tag)[10] == (542u32, 27u32),
        path_points(tag)[11] == (643u32, 49u32),
        path_points(tag)[12] == (711u32, 74u32),
        path_points(tag)[13] == (780u32, 96u32),
        path_points(tag)[14] == (878u32, 94u32),
        path_points(tag)[15] == (981u32, 188u32),
{
}

} // verus!
