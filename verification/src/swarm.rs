//! The point arena and the two phases of a tick.
//!
//! A tick first derives a new velocity for every point from the positions of
//! its two partners, then moves every point by its velocity unless the
//! simulation is paused. Positions and velocities are values of a caller
//! chosen vector type `V`; the steering rule and the vector addition are
//! passed in as functions, and the contracts here are stated over whatever
//! those functions guarantee.

use crate::controls::Paused;
use crate::partners::{assign_partners, link_partners, lemma_links_of_valid_graph, ConfigError, CornerPartners};
use vstd::prelude::*;

verus! {

/// One simulated point: its velocity, its position, and the indicator that
/// displays its velocity, if one is attached.
#[derive(Debug)]
pub struct CornerPhysics<V> {
    pub speed: V,
    pub pos: V,
    pub velocity_arrow: Option<usize>,
}

impl<V: Copy> Clone for CornerPhysics<V> {
    fn clone(&self) -> (corner: Self)
        ensures
            corner == *self,
    {
        *self
    }
}

impl<V: Copy> Copy for CornerPhysics<V> {

}

impl<V> CornerPhysics<V> {
    /// A point at `pos` with velocity `at_rest` and no indicator.
    pub fn new(pos: V, at_rest: V) -> (corner: Self)
        ensures
            corner.pos == pos,
            corner.speed == at_rest,
            corner.velocity_arrow is None,
    {
        Self { speed: at_rest, pos, velocity_arrow: None }
    }
}

/// Builds the population: one point at rest at each of `positions`, and a
/// partner graph over them.
///
/// Fails exactly when there are fewer than three positions. On success the
/// points stand at the given positions in the given order, and every point
/// has two partners that resolve, differ from each other and are not the
/// point itself.
pub fn create_points<V: Copy>(positions: &Vec<V>, at_rest: V) -> (res: Result<
    (Vec<CornerPhysics<V>>, Vec<CornerPartners>),
    ConfigError,
>)
    requires
        positions.len() <= u32::MAX,
    ensures
        res is Err <==> positions.len() < 3,
        res matches Ok(built) ==> {
            &&& built.0.len() == positions.len()
            &&& built.1.len() == positions.len()
            &&& forall|i: int|
                0 <= i < positions.len() ==> {
                    &&& (#[trigger] built.0[i]).pos == positions[i]
                    &&& built.0[i].speed == at_rest
                    &&& built.0[i].velocity_arrow is None
                }
            &&& forall|i: int|
                0 <= i < positions.len() ==> (#[trigger] built.1[i]).valid_for(
                    i,
                    positions.len() as int,
                )
        },
{
    let n = positions.len();
    let pairs = match assign_partners(n as u32) {
        Ok(pairs) => pairs,
        Err(e) => {
            return Err(e);
        },
    };
    let partners = link_partners(&pairs);
    proof {
        lemma_links_of_valid_graph(pairs@, partners@);
    }
    let mut points: Vec<CornerPhysics<V>> = Vec::new();
    let mut i: usize = 0;
    while i < n
        invariant
            i <= n,
            n == positions.len(),
            points.len() == i,
            forall|j: int|
                0 <= j < i ==> {
                    &&& (#[trigger] points[j]).pos == positions[j]
                    &&& points[j].speed == at_rest
                    &&& points[j].velocity_arrow is None
                },
        decreases n - i,
    {
        points.push(CornerPhysics::new(positions[i], at_rest));
        i += 1;
    }
    Ok((points, partners))
}

/// The arguments that the steering rule gets for point `i`: its own position
/// and the positions of its two partners, all taken from `before`.
pub open spec fn steer_input<V>(before: Seq<CornerPhysics<V>>, link: CornerPartners, i: int) -> (
    V,
    V,
    V,
) {
    (
        before[i].pos,
        before[link.partner_1->0 as int].pos,
        before[link.partner_2->0 as int].pos,
    )
}

/// `v` is a velocity that the steering rule gives point `i` for the
/// positions in `before`, or the previous velocity where the rule declines.
pub open spec fn steered<V, F: Fn(V, V, V) -> Option<V>>(
    steer: F,
    before: Seq<CornerPhysics<V>>,
    link: CornerPartners,
    i: int,
    v: V,
) -> bool {
    ||| steer.ensures(steer_input(before, link, i), Some(v))
    ||| (steer.ensures(steer_input(before, link, i), None) && v == before[i].speed)
}

/// What the velocity update may leave as the velocity `v` of point `i`.
///
/// Where both partners resolve, `v` is a velocity that the steering rule
/// gives for the positions in `before`, or the previous velocity where the
/// rule declines. Where a partner does not resolve, the previous velocity
/// stays.
pub open spec fn speed_follows<V, F: Fn(V, V, V) -> Option<V>>(
    steer: F,
    before: Seq<CornerPhysics<V>>,
    link: CornerPartners,
    i: int,
    v: V,
) -> bool {
    if link.resolves_in(before.len() as int) {
        steered(steer, before, link, i, v)
    } else {
        v == before[i].speed
    }
}

/// The steering rule accepts the positions of every point whose partners
/// resolve.
pub open spec fn steerable<V, F: Fn(V, V, V) -> Option<V>>(
    steer: F,
    points: Seq<CornerPhysics<V>>,
    partners: Seq<CornerPartners>,
) -> bool {
    forall|i: int|
        0 <= i < partners.len() && (#[trigger] partners[i]).resolves_in(points.len() as int)
            ==> steer.requires(steer_input(points, partners[i], i))
}

/// `after` is `before` with the velocities updated: nothing but velocities
/// changed, and each velocity follows from the positions in `before`.
pub open spec fn speeds_updated<V, F: Fn(V, V, V) -> Option<V>>(
    steer: F,
    before: Seq<CornerPhysics<V>>,
    partners: Seq<CornerPartners>,
    after: Seq<CornerPhysics<V>>,
) -> bool {
    &&& after.len() == before.len()
    &&& forall|i: int|
        0 <= i < before.len() ==> {
            &&& (#[trigger] after[i]).pos == before[i].pos
            &&& after[i].velocity_arrow == before[i].velocity_arrow
            &&& speed_follows(steer, before, partners[i], i, after[i].speed)
        }
}

/// `after` is `before` with every point moved by its velocity: nothing but
/// positions changed, and each position is one that `advance` gives for the
/// point's previous position and its velocity.
pub open spec fn positions_advanced<V, A: Fn(V, V) -> V>(
    advance: A,
    before: Seq<CornerPhysics<V>>,
    after: Seq<CornerPhysics<V>>,
) -> bool {
    &&& after.len() == before.len()
    &&& forall|i: int|
        0 <= i < before.len() ==> {
            &&& (#[trigger] after[i]).speed == before[i].speed
            &&& after[i].velocity_arrow == before[i].velocity_arrow
            &&& advance.ensures((before[i].pos, before[i].speed), after[i].pos)
        }
}

/// Velocity update: gives every point a new velocity, computed by `steer`
/// from the point's position and its partners' positions.
///
/// All positions are those from before the call, so no point sees a value
/// written in the same pass. A point whose partners do not resolve, or for
/// which `steer` returns `None`, keeps its velocity.
pub fn calc_new_speed<V: Copy, F: Fn(V, V, V) -> Option<V>>(
    points: &mut Vec<CornerPhysics<V>>,
    partners: &Vec<CornerPartners>,
    steer: F,
)
    requires
        old(points).len() == partners.len(),
        steerable(steer, old(points)@, partners@),
    ensures
        speeds_updated(steer, old(points)@, partners@, final(points)@),
{
    let ghost before = points@;
    let n = points.len();
    let mut i: usize = 0;
    while i < n
        invariant
            i <= n,
            n == points.len(),
            n == partners.len(),
            n == before.len(),
            steerable(steer, before, partners@),
            forall|j: int|
                0 <= j < n ==> {
                    &&& (#[trigger] points[j]).pos == before[j].pos
                    &&& points[j].velocity_arrow == before[j].velocity_arrow
                },
            forall|j: int|
                0 <= j < i ==> speed_follows(
                    steer,
                    before,
                    partners[j],
                    j,
                    (#[trigger] points[j]).speed,
                ),
            forall|j: int| i <= j < n ==> (#[trigger] points[j]).speed == before[j].speed,
        decreases n - i,
    {
        let link = partners[i];
        let me = points[i];
        let mut next: Option<V> = None;
        if let Some(a) = link.partner_1 {
            if let Some(b) = link.partner_2 {
                if a < n && b < n {
                    assert(partners[i as int].resolves_in(before.len() as int));
                    next = steer(me.pos, points[a].pos, points[b].pos);
                }
            }
        }
        if let Some(v) = next {
            points.set(i, CornerPhysics { speed: v, pos: me.pos, velocity_arrow: me.velocity_arrow });
        }
        i += 1;
    }
}

/// Integration: moves every point by its velocity, unless paused.
///
/// While paused nothing changes at all, whatever the velocities are.
/// Otherwise each position becomes what `advance` gives for the previous
/// position and the velocity; velocities stay as they are.
pub fn calc_new_position<V: Copy, A: Fn(V, V) -> V>(
    points: &mut Vec<CornerPhysics<V>>,
    paused: &Paused,
    advance: A,
)
    requires
        !paused.0 ==> forall|i: int|
            0 <= i < old(points).len() ==> advance.requires(
                ((#[trigger] old(points)[i]).pos, old(points)[i].speed),
            ),
    ensures
        paused.0 ==> final(points)@ == old(points)@,
        !paused.0 ==> positions_advanced(advance, old(points)@, final(points)@),
{
    if paused.0 {
        return ;
    }
    let ghost before = points@;
    let n = points.len();
    let mut i: usize = 0;
    while i < n
        invariant
            i <= n,
            n == points.len(),
            n == before.len(),
            forall|j: int|
                0 <= j < n ==> advance.requires(((#[trigger] before[j]).pos, before[j].speed)),
            forall|j: int|
                0 <= j < n ==> {
                    &&& (#[trigger] points[j]).speed == before[j].speed
                    &&& points[j].velocity_arrow == before[j].velocity_arrow
                },
            forall|j: int|
                0 <= j < i ==> advance.ensures(
                    (before[j].pos, before[j].speed),
                    (#[trigger] points[j]).pos,
                ),
            forall|j: int| i <= j < n ==> (#[trigger] points[j]).pos == before[j].pos,
        decreases n - i,
    {
        let me = points[i];
        assert(me.pos == before[i as int].pos);
        let moved = advance(me.pos, me.speed);
        points.set(i, CornerPhysics { speed: me.speed, pos: moved, velocity_arrow: me.velocity_arrow });
        i += 1;
    }
}

/// With a valid partner graph every lookup succeeds, so after a velocity
/// update each velocity is either one the steering rule gave or, where the
/// rule declined, the previous one.
pub proof fn lemma_valid_links_always_steer<V, F: Fn(V, V, V) -> Option<V>>(
    steer: F,
    before: Seq<CornerPhysics<V>>,
    partners: Seq<CornerPartners>,
    after: Seq<CornerPhysics<V>>,
    i: int,
)
    requires
        0 <= i < before.len(),
        partners.len() == before.len(),
        partners[i].valid_for(i, before.len() as int),
        speeds_updated(steer, before, partners, after),
    ensures
        steered(steer, before, partners[i], i, after[i].speed),
{
    assert(after[i].pos == before[i].pos);
}

/// A steering rule that gives the same velocity `z` whatever the positions,
/// and never declines, leaves every point of a valid graph with velocity
/// `z`. A rule scaled by an elapsed time of zero is of this kind, with `z`
/// the zero vector.
pub proof fn lemma_constant_rule_sets_every_speed<V, F: Fn(V, V, V) -> Option<V>>(
    steer: F,
    before: Seq<CornerPhysics<V>>,
    partners: Seq<CornerPartners>,
    after: Seq<CornerPhysics<V>>,
    z: V,
)
    requires
        partners.len() == before.len(),
        forall|i: int|
            0 <= i < partners.len() ==> (#[trigger] partners[i]).valid_for(i, before.len() as int),
        speeds_updated(steer, before, partners, after),
        forall|input: (V, V, V), r: Option<V>| #[trigger] steer.ensures(input, r) ==> r == Some(z),
    ensures
        forall|i: int| 0 <= i < after.len() ==> (#[trigger] after[i]).speed == z,
{
    assert forall|i: int| 0 <= i < after.len() implies (#[trigger] after[i]).speed == z by {
        lemma_valid_links_always_steer(steer, before, partners, after, i);
    }
}

/// A population together with its partner graph.
pub struct Swarm<V> {
    pub points: Vec<CornerPhysics<V>>,
    pub partners: Vec<CornerPartners>,
}

impl<V: Copy> Swarm<V> {
    /// There is one link per point, and every point has two partners that
    /// resolve, differ from each other and are not the point itself.
    pub open spec fn wf(&self) -> bool {
        &&& self.partners.len() == self.points.len()
        &&& forall|i: int|
            0 <= i < self.partners.len() ==> (#[trigger] self.partners[i]).valid_for(
                i,
                self.points.len() as int,
            )
    }

    /// A swarm of points at rest at `positions`, with a fresh partner graph.
    /// Fails exactly when there are fewer than three positions.
    pub fn new(positions: &Vec<V>, at_rest: V) -> (res: Result<Self, ConfigError>)
        requires
            positions.len() <= u32::MAX,
        ensures
            res is Err <==> positions.len() < 3,
            res matches Ok(swarm) ==> {
                &&& swarm.wf()
                &&& swarm.points.len() == positions.len()
                &&& forall|i: int|
                    0 <= i < positions.len() ==> {
                        &&& (#[trigger] swarm.points[i]).pos == positions[i]
                        &&& swarm.points[i].speed == at_rest
                        &&& swarm.points[i].velocity_arrow is None
                    }
            },
    {
        match create_points(positions, at_rest) {
            Ok(built) => Ok(Swarm { points: built.0, partners: built.1 }),
            Err(e) => Err(e),
        }
    }

    /// Velocity update on a well-formed swarm. The partner graph and the
    /// positions stay as they are; every velocity is one that `steer` gave
    /// for the positions before the call, or the previous one where `steer`
    /// declined.
    pub fn update_speeds<F: Fn(V, V, V) -> Option<V>>(&mut self, steer: F)
        requires
            old(self).wf(),
            steerable(steer, old(self).points@, old(self).partners@),
        ensures
            final(self).wf(),
            final(self).partners@ == old(self).partners@,
            speeds_updated(steer, old(self).points@, old(self).partners@, final(self).points@),
            forall|i: int|
                0 <= i < old(self).points.len() ==> steered(
                    steer,
                    old(self).points@,
                    old(self).partners[i],
                    i,
                    (#[trigger] final(self).points[i]).speed,
                ),
    {
        let ghost before = self.points@;
        calc_new_speed(&mut self.points, &self.partners, steer);
        proof {
            assert forall|i: int| 0 <= i < before.len() implies steered(
                steer,
                before,
                self.partners[i],
                i,
                (#[trigger] self.points[i]).speed,
            ) by {
                lemma_valid_links_always_steer(steer, before, self.partners@, self.points@, i);
            }
        }
    }

    /// Integration on a well-formed swarm: positions move by the velocities
    /// unless paused. The partner graph stays as it is.
    pub fn integrate<A: Fn(V, V) -> V>(&mut self, paused: &Paused, advance: A)
        requires
            old(self).wf(),
            !paused.0 ==> forall|i: int|
                0 <= i < old(self).points.len() ==> advance.requires(
                    ((#[trigger] old(self).points[i]).pos, old(self).points[i].speed),
                ),
        ensures
            final(self).wf(),
            final(self).partners@ == old(self).partners@,
            paused.0 ==> final(self).points@ == old(self).points@,
            !paused.0 ==> positions_advanced(advance, old(self).points@, final(self).points@),
    {
        calc_new_position(&mut self.points, paused, advance);
    }

    /// One tick: the velocity update for all points, then integration.
    ///
    /// The new velocities are computed from the positions before the tick.
    /// The positions then move by the new velocities, unless paused; while
    /// paused the velocities are still renewed and the positions stay.
    pub fn tick<F: Fn(V, V, V) -> Option<V>, A: Fn(V, V) -> V>(
        &mut self,
        paused: &Paused,
        steer: F,
        advance: A,
    )
        requires
            old(self).wf(),
            steerable(steer, old(self).points@, old(self).partners@),
            forall|p: V, v: V| advance.requires((p, v)),
        ensures
            final(self).wf(),
            final(self).partners@ == old(self).partners@,
            forall|i: int|
                0 <= i < old(self).points.len() ==> {
                    &&& steered(
                        steer,
                        old(self).points@,
                        old(self).partners[i],
                        i,
                        (#[trigger] final(self).points[i]).speed,
                    )
                    &&& final(self).points[i].velocity_arrow == old(self).points[i].velocity_arrow
                    &&& paused.0 ==> final(self).points[i].pos == old(self).points[i].pos
                    &&& !paused.0 ==> advance.ensures(
                        (old(self).points[i].pos, final(self).points[i].speed),
                        final(self).points[i].pos,
                    )
                },
    {
        self.update_speeds(steer);
        self.integrate(paused, advance);
    }
}

} // verus!
