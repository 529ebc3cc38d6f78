use vstd::prelude::*;

verus! {

/// An obstacle of the world: a box or a sphere, by its position in the
/// world's list of boxes or of spheres.
#[derive(Clone, Copy, Debug, PartialEq, Eq, Structural)]
pub enum Obstacle {
    Cube(usize),
    Sphere(usize),
}

/// `i` is the first position at which `hits` is true.
pub open spec fn is_first_hit(hits: Seq<bool>, i: int) -> bool {
    &&& 0 <= i < hits.len()
    &&& hits[i]
    &&& forall|j: int| 0 <= j < i ==> !hits[j]
}

/// `hits` is true nowhere.
pub open spec fn no_hit(hits: Seq<bool>) -> bool {
    forall|j: int| 0 <= j < hits.len() ==> !hits[j]
}

/// The first position at which `hits` is true, if there is one.
pub fn first_hit(hits: &Vec<bool>) -> (r: Option<usize>)
    ensures
        match r {
            Some(i) => is_first_hit(hits@, i as int),
            None => no_hit(hits@),
        },
{
    let n: usize = hits.len();
    let mut i: usize = 0;
    while i < n
        invariant
            n == hits@.len(),
            i <= n,
            forall|j: int| 0 <= j < i ==> !hits@[j],
        decreases n - i,
    {
        if hits[i] {
            return Some(i);
        }
        i = i + 1;
    }
    None
}

/// The obstacle that answers a collision query, given for each box and for
/// each sphere, in the world's order, whether the player touches it: the
/// first box touched; if no box is touched, the first sphere touched; if
/// neither, none (and the terrain is asked next).
pub fn first_obstacle(cube_hits: &Vec<bool>, sphere_hits: &Vec<bool>) -> (r: Option<Obstacle>)
    ensures
        match r {
            Some(Obstacle::Cube(i)) => is_first_hit(cube_hits@, i as int),
            Some(Obstacle::Sphere(i)) => no_hit(cube_hits@) && is_first_hit(sphere_hits@, i as int),
            None => no_hit(cube_hits@) && no_hit(sphere_hits@),
        },
{
    match first_hit(cube_hits) {
        Some(i) => Some(Obstacle::Cube(i)),
        None => match first_hit(sphere_hits) {
            Some(i) => Some(Obstacle::Sphere(i)),
            None => None,
        },
    }
}

/// There is at most one first hit, and there is one exactly when some
/// position is hit.
pub proof fn lemma_first_hit_unique(hits: Seq<bool>, i: int, j: int)
    ensures
        is_first_hit(hits, i) && is_first_hit(hits, j) ==> i == j,
        is_first_hit(hits, i) ==> !no_hit(hits),
{
}

/// Boxes take precedence: when some box is touched, the answer is that box
/// which comes first, whatever the spheres say; a sphere answers only when
/// no box is touched, and nothing answers only when nothing is touched.
pub proof fn lemma_boxes_take_precedence(cube_hits: Seq<bool>, sphere_hits: Seq<bool>, r: Option<Obstacle>, k: int)
    requires
        match r {
            Some(Obstacle::Cube(i)) => is_first_hit(cube_hits, i as int),
            Some(Obstacle::Sphere(i)) => no_hit(cube_hits) && is_first_hit(sphere_hits, i as int),
            None => no_hit(cube_hits) && no_hit(sphere_hits),
        },
    ensures
        is_first_hit(cube_hits, k) ==> r == Some(Obstacle::Cube(k as usize)),
        no_hit(cube_hits) && is_first_hit(sphere_hits, k) ==> r == Some(Obstacle::Sphere(k as usize)),
        r is None <==> (no_hit(cube_hits) && no_hit(sphere_hits)),
{
    match r {
        Some(Obstacle::Cube(i)) => {
            lemma_first_hit_unique(cube_hits, i as int, k);
        },
        Some(Obstacle::Sphere(i)) => {
            lemma_first_hit_unique(sphere_hits, i as int, k);
            lemma_first_hit_unique(cube_hits, k, k);
            lemma_first_hit_unique(sphere_hits, i as int, i as int);
        },
        None => {},
    }
}

} // verus!
