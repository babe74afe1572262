//! Monte Carlo hit counting for estimating pi.
//!
//! A point is a pair of `u32` coordinates, read as `x / 2^32` and `y / 2^32` in
//! `[0, 1)`. It is a hit when it lies in the quarter disc of radius 1, that is
//! when `x^2 + y^2 <= 2^64`. Over uniform draws the share of hits tends to
//! `pi / 4`.
use vstd::prelude::*;
use rand::rngs::StdRng;

verus! {

/// The number of trials of the standard estimate.
pub const TRIALS: u64 = 10_000_000;

#[verifier::external_type_specification]
#[verifier::external_body]
pub struct ExStdRng(rand::rngs::StdRng);

/// The scale of a coordinate: `u32` values stand for multiples of `1 / 2^32`.
pub open spec fn scale() -> int {
    0x1_0000_0000
}

/// The point `(x, y)` lies in the quarter disc of radius [`scale`].
pub open spec fn in_quarter_disc(x: int, y: int) -> bool {
    x * x + y * y <= scale() * scale()
}

/// The number of hits among the points `(s[0], s[1])`, `(s[2], s[3])`, ...
/// read from a log of drawn coordinates; an unpaired last value is no point.
pub open spec fn hits_in(s: Seq<u32>) -> nat
    decreases s.len(),
{
    if s.len() < 2 {
        0
    } else {
        hits_in(s.subrange(0, s.len() - 2)) + if in_quarter_disc(
            s[s.len() - 2] as int,
            s[s.len() - 1] as int,
        ) {
            1nat
        } else {
            0nat
        }
    }
}

/// Relies on `rand::Rng::random::<u32>` on a `StdRng`: it draws one value from
/// the generator. Nothing is assumed of the value drawn.
#[verifier::external_body]
fn draw_coordinate(rng: &mut StdRng) -> (r: u32) {
    rand::Rng::random::<u32>(rng)
}

/// Whether the point `(x, y)` lies in the quarter disc.
pub fn is_inside(x: u32, y: u32) -> (r: bool)
    ensures
        r == in_quarter_disc(x as int, y as int),
{
    assert((x as int) * (x as int) < 0x1_0000_0000_0000_0000 && (y as int) * (y as int)
        < 0x1_0000_0000_0000_0000) by (nonlinear_arith)
        requires
            x < 0x1_0000_0000,
            y < 0x1_0000_0000,
    ;
    let xx: u128 = (x as u128) * (x as u128);
    let yy: u128 = (y as u128) * (y as u128);
    xx + yy <= 0x1_0000_0000_0000_0000u128
}

/// A source of coordinates that keeps a log of every value it has drawn.
pub struct PointSource {
    rng: StdRng,
    drawn: Ghost<Seq<u32>>,
}

impl PointSource {
    /// The values drawn so far, oldest first.
    pub closed spec fn log(&self) -> Seq<u32> {
        self.drawn@
    }

    /// A source that draws from `rng` and has drawn nothing yet.
    pub fn new(rng: StdRng) -> (r: Self)
        ensures
            r.log() == Seq::<u32>::empty(),
    {
        PointSource { rng, drawn: Ghost(Seq::empty()) }
    }

    /// Draws one coordinate and records it in the log.
    pub fn draw(&mut self) -> (r: u32)
        ensures
            final(self).log() == old(self).log().push(r),
    {
        let r = draw_coordinate(&mut self.rng);
        self.drawn = Ghost(self.drawn@.push(r));
        r
    }
}

/// Draws `trials` points from `src`, x before y for each, and returns how many
/// of them lie in the quarter disc.
pub fn count_inside(src: &mut PointSource, trials: u64) -> (r: u64)
    ensures
        final(src).log().len() == old(src).log().len() + 2 * trials,
        final(src).log().subrange(0, old(src).log().len() as int) == old(src).log(),
        r == hits_in(
            final(src).log().subrange(old(src).log().len() as int, final(src).log().len() as int),
        ),
        r <= trials,
{
    let ghost first = src.log();
    let ghost base = first.len() as int;
    let mut inside: u64 = 0;
    let mut k: u64 = 0;
    while k < trials
        invariant
            k <= trials,
            base == first.len(),
            src.log().len() == base + 2 * k,
            src.log().subrange(0, base) == first,
            inside == hits_in(src.log().subrange(base, src.log().len() as int)),
            inside <= k,
        decreases trials - k,
    {
        let ghost before = src.log();
        let x = src.draw();
        let y = src.draw();
        proof {
            let after = src.log();
            assert(after =~= before.push(x).push(y));
            assert(after.subrange(0, base) =~= before.subrange(0, base));
            let s = after.subrange(base, after.len() as int);
            assert(s.subrange(0, s.len() - 2) =~= before.subrange(base, before.len() as int));
            assert(s[s.len() - 2] == x && s[s.len() - 1] == y);
        }
        if is_inside(x, y) {
            inside = inside + 1;
        }
        k = k + 1;
    }
    inside
}

} // verus!
