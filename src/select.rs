//! Weighted choice between the built-in pool and the file pool, and the
//! random start color.

use vstd::prelude::*;

use crate::builtins::{all_builtins, Builtins};

verus! {

/// What a run shows.
#[derive(Clone, Copy, Debug, PartialEq, Eq, Structural)]
pub enum Pick {
    /// Both pools are empty: there is nothing to show.
    Nothing,
    /// A built-in piece.
    Builtin(Builtins),
    /// The file at this index of the file pool.
    File(usize),
}

/// The built-in pool: empty when built-ins are off, else the named ones in their
/// order, or every built-in when none is named.
pub open spec fn builtin_pool_of(no_builtins: bool, named: Seq<Builtins>) -> Seq<Builtins> {
    if no_builtins {
        seq![]
    } else if named.len() == 0 {
        all_builtins()
    } else {
        named
    }
}

/// The pick for a pool drawn by weight (0 for the built-ins, 1 for the files) and
/// an index drawn in that pool.
pub open spec fn pick_of(pool: Seq<Builtins>, side: int, index: int) -> Pick {
    if side == 0 {
        Pick::Builtin(pool[index])
    } else {
        Pick::File(index as usize)
    }
}

/// Relies on rand's `Rng::gen_range` over `0..n` with the thread-local generator:
/// the value lies in the range.
#[verifier::external_body]
pub(crate) fn random_below(n: usize) -> (r: usize)
    requires
        n > 0,
    ensures
        r < n,
{
    rand::Rng::gen_range(&mut rand::thread_rng(), 0..n)
}

/// Relies on rand's `WeightedIndex` over the two weights, sampled with the
/// thread-local generator: it draws index 0 or 1, never one of weight zero.
#[verifier::external_body]
fn draw_weighted(first: usize, second: usize) -> (r: usize)
    requires
        0 < first as int + second as int <= usize::MAX,
    ensures
        r < 2,
        r == 0 ==> first > 0,
        r == 1 ==> second > 0,
{
    let dist = rand::distributions::WeightedIndex::new([first, second]).expect(
        "failed to parse weighted index list!",
    );
    rand::distributions::Distribution::sample(&dist, &mut rand::thread_rng())
}

/// The built-in pool for the settings.
pub fn builtin_pool(no_builtins: bool, named: &Vec<Builtins>) -> (r: Vec<Builtins>)
    ensures
        r@ == builtin_pool_of(no_builtins, named@),
{
    if no_builtins {
        Vec::new()
    } else if named.len() == 0 {
        Builtins::all()
    } else {
        let mut r: Vec<Builtins> = Vec::new();
        let mut k: usize = 0;
        while k < named.len()
            invariant
                k <= named@.len(),
                r@ == named@.take(k as int),
            decreases named@.len() - k,
        {
            r.push(named[k]);
            k = k + 1;
            assert(r@ =~= named@.take(k as int));
        }
        assert(named@.take(k as int) =~= named@);
        r
    }
}

/// The pick once the pool and the index in it are drawn.
pub fn pick_drawn(pool: &Vec<Builtins>, file_count: usize, side: usize, index: usize) -> (r: Pick)
    requires
        side < 2,
        side == 0 ==> index < pool@.len(),
        side == 1 ==> index < file_count,
    ensures
        r == pick_of(pool@, side as int, index as int),
{
    if side == 0 {
        Pick::Builtin(pool[index])
    } else {
        Pick::File(index)
    }
}

/// Picks what to show: a pool with chance in proportion to its size, then an
/// item of it, each item equally likely. Nothing when both pools are empty; a
/// built-in only from the built-in pool, so never when built-ins are off.
pub fn select(no_builtins: bool, named: &Vec<Builtins>, file_count: usize) -> (r: Pick)
    requires
        builtin_pool_of(no_builtins, named@).len() + file_count <= usize::MAX,
    ensures
        (r == Pick::Nothing) <==> (builtin_pool_of(no_builtins, named@).len() == 0 && file_count == 0),
        r matches Pick::Builtin(b) ==> builtin_pool_of(no_builtins, named@).contains(b),
        r matches Pick::File(i) ==> i < file_count,
        no_builtins ==> !(r is Builtin),
{
    let pool = builtin_pool(no_builtins, named);
    let count = pool.len();
    if count == 0 && file_count == 0 {
        return Pick::Nothing;
    }
    let side = draw_weighted(count, file_count);
    let index = if side == 0 {
        random_below(count)
    } else {
        random_below(file_count)
    };
    let r = pick_drawn(&pool, file_count, side, index);
    proof {
        if side == 0 {
            assert(pool@.contains(pool@[index as int]));
        }
    }
    r
}

/// The color offset to start from: the one set, else one drawn from 0 to 4.
pub fn start_offset(configured: Option<u8>) -> (r: u8)
    ensures
        configured matches Some(v) ==> r == v,
        configured is None ==> r < 5,
{
    match configured {
        Some(v) => v,
        None => random_below(5) as u8,
    }
}

} // verus!
