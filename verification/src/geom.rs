//! The nearest-hit rule of scene intersection.
//!
//! A scene scan intersects every object against the ray and keeps the
//! closest valid hit, narrowing the accepted interval as it proceeds: a hit
//! already found is overwritten only by a strictly closer one, so of two
//! equally distant hits the earlier object wins. The floating-point
//! intersection math stays in the application layer; it hands the candidate
//! hit distances over in an order-preserving integer encoding, and the
//! verified selection below decides which object the ray strikes first.

use vstd::prelude::*;

verus! {

/// Index of the object the ray strikes first: the earliest smallest entry
/// among the candidate hit distances, one per object in iteration order,
/// `None` standing for an object the ray misses.
pub fn nearest_hit_index(ts: &Vec<Option<u32>>) -> (r: Option<usize>)
    ensures
        match r {
            Some(i) => {
                &&& i < ts@.len()
                &&& ts@[i as int] matches Some(ti) && (forall|j: int|
                    0 <= j < ts@.len() ==> ((#[trigger] ts@[j]) matches Some(tj) ==> ti <= tj)) && (forall|
                    j: int,
                |
                    0 <= j < i ==> ((#[trigger] ts@[j]) matches Some(tj) ==> ti < tj))
            },
            None => forall|j: int| 0 <= j < ts@.len() ==> ts@[j] is None,
        },
{
    let mut best: Option<usize> = None;
    let mut best_t: u32 = 0;
    let mut k: usize = 0;
    while k < ts.len()
        invariant
            k <= ts@.len(),
            match best {
                Some(i) => {
                    &&& i < k
                    &&& ts@[i as int] matches Some(ti) && ti == best_t && (forall|j: int|
                        0 <= j < k ==> ((#[trigger] ts@[j]) matches Some(tj) ==> best_t <= tj)) && (forall|
                        j: int,
                    |
                        0 <= j < i ==> ((#[trigger] ts@[j]) matches Some(tj) ==> best_t < tj))
                },
                None => forall|j: int| 0 <= j < k ==> ts@[j] is None,
            },
        decreases ts@.len() - k,
    {
        match ts[k] {
            Some(t) => match best {
                Some(_) => {
                    if t < best_t {
                        best = Some(k);
                        best_t = t;
                    }
                },
                None => {
                    best = Some(k);
                    best_t = t;
                },
            },
            None => {},
        }
        k = k + 1;
    }
    best
}

} // verus!
