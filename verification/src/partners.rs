//! The partner graph: for every point, two other points whose bisector it
//! steers toward.

use rand::Rng;
use vstd::prelude::*;

verus! {

/// Number of points in the reference configuration.
pub const COUNT: usize = 40;

/// How often a draw is repeated before the remaining candidates are
/// enumerated directly.
pub const MAX_REDRAWS: u32 = 64;

/// Why a partner graph cannot be built.
#[derive(Debug, Clone, Copy)]
pub enum ConfigError {
    /// Fewer than three points: no point can have two distinct partners
    /// other than itself.
    TooFewPoints,
}

/// The two partners of one point, by index into the point arena. Both are
/// unset until the graph is built.
#[derive(Debug, Clone, Copy)]
pub struct CornerPartners {
    pub partner_1: Option<usize>,
    pub partner_2: Option<usize>,
}

/// A pair of partner indices is valid for point `me` among `n` points when
/// both lie in range, neither is `me`, and they differ.
pub open spec fn valid_pair(me: int, pair: (u32, u32), n: int) -> bool {
    &&& pair.0 < n
    &&& pair.1 < n
    &&& pair.0 != me
    &&& pair.1 != me
    &&& pair.0 != pair.1
}

/// Every point of the graph has a valid pair of partners.
pub open spec fn valid_graph(pairs: Seq<(u32, u32)>) -> bool {
    forall|i: int| 0 <= i < pairs.len() ==> valid_pair(i, #[trigger] pairs[i], pairs.len() as int)
}

/// The `k`-th value of the natural numbers with `hole` left out.
pub open spec fn skip_one(k: int, hole: int) -> int {
    if k >= hole {
        k + 1
    } else {
        k
    }
}

/// The `k`-th value of the natural numbers with `a` and `b` left out.
pub open spec fn skip_two(k: int, a: int, b: int) -> int {
    let lo = if a <= b { a } else { b };
    let hi = if a <= b { b } else { a };
    skip_one(skip_one(k, lo), hi)
}

impl CornerPartners {
    /// No partners yet.
    pub fn new() -> (link: Self)
        ensures
            link.partner_1 is None,
            link.partner_2 is None,
    {
        Self { partner_1: None, partner_2: None }
    }

    /// The link that points at the two indices of `pair`.
    pub fn linked(pair: (u32, u32)) -> (link: Self)
        ensures
            link.partner_1 == Some(pair.0 as usize),
            link.partner_2 == Some(pair.1 as usize),
    {
        Self { partner_1: Some(pair.0 as usize), partner_2: Some(pair.1 as usize) }
    }

    /// Both partners are set and name points of an arena of `n` points.
    pub open spec fn resolves_in(self, n: int) -> bool {
        &&& self.partner_1 is Some
        &&& self.partner_2 is Some
        &&& self.partner_1->0 < n
        &&& self.partner_2->0 < n
    }

    /// Both partners are set, differ from each other and from `me`, and name
    /// points of an arena of `n` points.
    pub open spec fn valid_for(self, me: int, n: int) -> bool {
        &&& self.resolves_in(n)
        &&& self.partner_1->0 != me
        &&& self.partner_2->0 != me
        &&& self.partner_1->0 != self.partner_2->0
    }
}

impl Default for CornerPartners {
    fn default() -> (link: Self)
        ensures
            link.partner_1 is None,
            link.partner_2 is None,
    {
        Self::new()
    }
}

/// Draws from `rand`'s thread-local generator through
/// `Uniform::new(0, count)` and `Rng::sample`. The contract claims only what
/// holds of every draw: the value lies in `[0, count)`. An empty range, on
/// which `Uniform::new` panics, is excluded.
#[verifier::external_body]
fn sample_below(count: u32) -> (r: u32)
    requires
        count > 0,
    ensures
        r < count,
{
    rand::thread_rng().sample(rand::distributions::Uniform::new(0, count))
}

/// Maps a draw `k` from a range one shorter onto the values other than
/// `hole`, keeping their order.
pub fn skip_past(k: u32, hole: u32) -> (r: u32)
    requires
        k < u32::MAX,
    ensures
        r == skip_one(k as int, hole as int),
        r != hole,
{
    if k >= hole {
        k + 1
    } else {
        k
    }
}

/// Maps a draw `k` from a range two shorter onto the values other than `a`
/// and `b`, keeping their order.
pub fn skip_past_two(k: u32, a: u32, b: u32) -> (r: u32)
    requires
        k < u32::MAX - 1,
        a != b,
    ensures
        r == skip_two(k as int, a as int, b as int),
        r != a,
        r != b,
{
    let lo: u32 = if a <= b { a } else { b };
    let hi: u32 = if a <= b { b } else { a };
    skip_past(skip_past(k, lo), hi)
}

/// A random index below `count` other than `i`.
///
/// Draws are rejected while they hit `i`. After `MAX_REDRAWS` rejections one
/// more draw is taken from the range with `i` removed, so the function
/// always returns and every admissible index stays equally likely.
pub fn rnd_except_i(i: u32, count: u32) -> (r: u32)
    requires
        count > 0,
        count == 1 ==> i != 0,
    ensures
        r < count,
        r != i,
{
    let mut r: u32 = sample_below(count);
    let mut redraws: u32 = 0;
    while r == i && redraws < MAX_REDRAWS
        invariant
            count > 0,
            r < count,
            redraws <= MAX_REDRAWS,
        decreases MAX_REDRAWS - redraws,
    {
        r = sample_below(count);
        redraws += 1;
    }
    if r == i {
        let k: u32 = sample_below(count - 1);
        r = skip_past(k, i);
    }
    r
}

/// Two random partners for point `i` among `count` points.
///
/// Pairs are rejected while the two draws coincide. After `MAX_REDRAWS`
/// rejections the second partner is drawn from the range with `i` and the
/// first partner removed.
pub fn pick_partners(i: u32, count: u32) -> (pair: (u32, u32))
    requires
        i < count,
        count >= 3,
    ensures
        valid_pair(i as int, pair, count as int),
{
    let mut x0: u32 = rnd_except_i(i, count);
    let mut x1: u32 = rnd_except_i(i, count);
    let mut redraws: u32 = 0;
    while x0 == x1 && redraws < MAX_REDRAWS
        invariant
            i < count,
            count >= 3,
            x0 < count,
            x1 < count,
            x0 != i,
            x1 != i,
            redraws <= MAX_REDRAWS,
        decreases MAX_REDRAWS - redraws,
    {
        x0 = rnd_except_i(i, count);
        x1 = rnd_except_i(i, count);
        redraws += 1;
    }
    if x0 == x1 {
        let k: u32 = sample_below(count - 2);
        x1 = skip_past_two(k, i, x0);
    }
    (x0, x1)
}

/// Builds the partner graph for `count` points: one valid pair per point.
/// Fails exactly when `count` is below three.
pub fn assign_partners(count: u32) -> (res: Result<Vec<(u32, u32)>, ConfigError>)
    ensures
        res is Err <==> count < 3,
        res matches Ok(pairs) ==> pairs.len() == count && valid_graph(pairs@),
{
    if count < 3 {
        return Err(ConfigError::TooFewPoints);
    }
    let mut pairs: Vec<(u32, u32)> = Vec::new();
    let mut i: u32 = 0;
    while i < count
        invariant
            count >= 3,
            i <= count,
            pairs.len() == i,
            forall|j: int| 0 <= j < i ==> valid_pair(j, #[trigger] pairs[j], count as int),
        decreases count - i,
    {
        let pair = pick_partners(i, count);
        pairs.push(pair);
        i += 1;
    }
    Ok(pairs)
}

/// Turns a list of index pairs into the links that the update phase reads.
pub fn link_partners(pairs: &Vec<(u32, u32)>) -> (links: Vec<CornerPartners>)
    ensures
        links.len() == pairs.len(),
        forall|i: int|
            0 <= i < pairs.len() ==> {
                &&& (#[trigger] links[i]).partner_1 == Some(pairs[i].0 as usize)
                &&& links[i].partner_2 == Some(pairs[i].1 as usize)
            },
{
    let mut links: Vec<CornerPartners> = Vec::new();
    let mut i: usize = 0;
    while i < pairs.len()
        invariant
            i <= pairs.len(),
            links.len() == i,
            forall|j: int|
                0 <= j < i ==> {
                    &&& (#[trigger] links[j]).partner_1 == Some(pairs[j].0 as usize)
                    &&& links[j].partner_2 == Some(pairs[j].1 as usize)
                },
        decreases pairs.len() - i,
    {
        links.push(CornerPartners::linked(pairs[i]));
        i += 1;
    }
    links
}

/// Leaving out `hole` sends the indices below `n - 1` into the indices
/// below `n` other than `hole`, and keeps their order.
pub proof fn lemma_skip_one_in_order(hole: int, n: int)
    requires
        0 <= hole < n,
    ensures
        forall|k: int|
            0 <= k < n - 1 ==> 0 <= #[trigger] skip_one(k, hole) < n && skip_one(k, hole) != hole,
        forall|j: int, k: int|
            j < k ==> #[trigger] skip_one(j, hole) < #[trigger] skip_one(k, hole),
{
}

/// Every index below `n` other than `hole` is reached by `skip_one` from an
/// index below `n - 1`, which is returned.
pub proof fn lemma_skip_one_reaches(v: int, hole: int, n: int) -> (k: int)
    requires
        0 <= hole < n,
        0 <= v < n,
        v != hole,
    ensures
        0 <= k < n - 1,
        skip_one(k, hole) == v,
{
    if v > hole {
        v - 1
    } else {
        v
    }
}

/// Leaving out `a` and `b` sends the indices below `n - 2` into the indices
/// below `n` other than `a` and `b`, and keeps their order.
pub proof fn lemma_skip_two_in_order(a: int, b: int, n: int)
    requires
        0 <= a < n,
        0 <= b < n,
        a != b,
    ensures
        forall|k: int|
            0 <= k < n - 2 ==> {
                &&& 0 <= #[trigger] skip_two(k, a, b) < n
                &&& skip_two(k, a, b) != a
                &&& skip_two(k, a, b) != b
            },
        forall|j: int, k: int|
            j < k ==> #[trigger] skip_two(j, a, b) < #[trigger] skip_two(k, a, b),
{
}

/// Every index below `n` other than `a` and `b` is reached by `skip_two`
/// from an index below `n - 2`, which is returned.
pub proof fn lemma_skip_two_reaches(v: int, a: int, b: int, n: int) -> (k: int)
    requires
        0 <= a < n,
        0 <= b < n,
        a != b,
        0 <= v < n,
        v != a,
        v != b,
    ensures
        0 <= k < n - 2,
        skip_two(k, a, b) == v,
{
    let below_a: int = if v > a { 1 } else { 0 };
    let below_b: int = if v > b { 1 } else { 0 };
    v - below_a - below_b
}

/// The links of a valid graph are valid for their points: both partners
/// resolve, neither is the point itself, and the two differ.
pub proof fn lemma_links_of_valid_graph(pairs: Seq<(u32, u32)>, links: Seq<CornerPartners>)
    requires
        valid_graph(pairs),
        links.len() == pairs.len(),
        forall|i: int|
            0 <= i < pairs.len() ==> {
                &&& (#[trigger] links[i]).partner_1 == Some(pairs[i].0 as usize)
                &&& links[i].partner_2 == Some(pairs[i].1 as usize)
            },
    ensures
        forall|i: int|
            0 <= i < links.len() ==> (#[trigger] links[i]).valid_for(i, links.len() as int),
{
    assert forall|i: int| 0 <= i < links.len() implies (#[trigger] links[i]).valid_for(
        i,
        links.len() as int,
    ) by {
        assert(valid_pair(i, pairs[i], pairs.len() as int));
    }
}

} // verus!
