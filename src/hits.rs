use vstd::prelude::*;

verus! {

/// A candidate hit counts when the member reported one no farther than `limit`.
pub open spec fn counts(h: Option<u32>, limit: u32) -> bool {
    match h {
        Some(k) => k <= limit,
        None => false,
    }
}

/// The key of a reported hit, or `limit` where there is none.
pub open spec fn key_or(h: Option<u32>, limit: u32) -> u32 {
    match h {
        Some(k) => k,
        None => limit,
    }
}

/// `i` is the first of the candidates that reports the nearest hit up to `limit`.
pub open spec fn is_closest(hits: Seq<Option<u32>>, limit: u32, i: int) -> bool {
    &&& 0 <= i < hits.len()
    &&& counts(hits[i], limit)
    &&& forall|j: int| 0 <= j < hits.len() && counts(#[trigger] hits[j], limit)
            ==> key_or(hits[i], limit) <= key_or(hits[j], limit)
    &&& forall|j: int| 0 <= j < i && counts(#[trigger] hits[j], limit)
            ==> key_or(hits[i], limit) < key_or(hits[j], limit)
}

/// Picks, over the hits that the members of a scene reported for one ray, the
/// one nearest to the ray's origin. A hit is given by an order key of its
/// distance (a larger key is a farther hit); only keys up to and including
/// `limit` count, and of equal keys the earlier member wins.
pub fn closest_hit(hits: &Vec<Option<u32>>, limit: u32) -> (r: Option<usize>)
    ensures
        r.is_none() <==> forall|j: int| 0 <= j < hits@.len() ==> !counts(#[trigger] hits@[j], limit),
        r matches Some(i) ==> is_closest(hits@, limit, i as int),
{
    let mut best: Option<usize> = None;
    let mut closest: u32 = limit;
    let mut n: usize = 0;
    while n < hits.len()
        invariant
            n <= hits@.len(),
            best.is_none() <==> forall|j: int| 0 <= j < n ==> !counts(#[trigger] hits@[j], limit),
            best matches Some(i) ==> closest == key_or(hits@[i as int], limit),
            best matches Some(i) ==> {
                &&& i < n
                &&& counts(hits@[i as int], limit)
                &&& forall|j: int| 0 <= j < n && counts(#[trigger] hits@[j], limit)
                        ==> closest <= key_or(hits@[j], limit)
                &&& forall|j: int| 0 <= j < i && counts(#[trigger] hits@[j], limit)
                        ==> closest < key_or(hits@[j], limit)
            },
        decreases hits@.len() - n,
    {
        match hits[n] {
            Some(k) => {
                if k <= limit && (best.is_none() || k < closest) {
                    closest = k;
                    best = Some(n);
                }
            },
            None => {},
        }
        n = n + 1;
    }
    best
}

} // verus!
