//! Collision and damage resolution.
//!
//! Once per tick, after movement, every live projectile is tested against
//! every live opponent in creation order with an axis-aligned overlap test
//! on the entities' half extents. On the first live opponent a projectile
//! overlaps, one explosion event is raised at the projectile's position,
//! the opponent takes the projectile's damage, the projectile is despawned
//! and no further opponents are checked for it: at most one hit per
//! projectile per tick.

use vstd::prelude::*;

use crate::events::DestroyUapEvent;
use crate::events::ProjectileExplosionEvent;
use crate::events::ScoreEvent;
use crate::fixed::mag;
use crate::fixed::TRAVEL_CAP;
use crate::projectile::Projectile;
use crate::projectile::PROJECTILE_HALF_HEIGHT;
use crate::projectile::PROJECTILE_HALF_WIDTH;
use crate::uap::Uap;
use crate::uap::DESTROY_POINTS;
use crate::uap::UAP_HALF_HEIGHT;
use crate::uap::UAP_HALF_WIDTH;

verus! {

/// Axis-aligned overlap: both coordinate gaps are strictly below the sum
/// of the half extents.
pub open spec fn overlaps(p: Projectile, u: Uap) -> bool {
    &&& mag(p.x - u.x) < PROJECTILE_HALF_WIDTH + UAP_HALF_WIDTH
    &&& mag(p.y - u.y) < PROJECTILE_HALF_HEIGHT + UAP_HALF_HEIGHT
}

/// A projectile hits an opponent when the opponent is still live and their
/// boxes overlap.
pub open spec fn hits(p: Projectile, u: Uap) -> bool {
    u.live() && overlaps(p, u)
}

/// Index of the first opponent, in creation order, that a projectile hits.
pub open spec fn first_hit(p: Projectile, uaps: Seq<Uap>) -> Option<int>
    decreases uaps.len(),
{
    if uaps.len() == 0 {
        None
    } else if hits(p, uaps[0]) {
        Some(0int)
    } else {
        match first_hit(p, uaps.drop_first()) {
            Some(j) => Some(j + 1),
            None => None,
        }
    }
}

/// `first_hit` returns exactly the least hit index.
pub proof fn lemma_first_hit_some(p: Projectile, uaps: Seq<Uap>, j: int)
    requires
        0 <= j < uaps.len(),
        hits(p, uaps[j]),
        forall|k: int| 0 <= k < j ==> !hits(p, uaps[k]),
    ensures
        first_hit(p, uaps) == Some(j),
    decreases uaps.len(),
{
    if j == 0 {
    } else {
        assert(!hits(p, uaps[0]));
        assert forall|k: int| 0 <= k < j - 1 implies !hits(p, uaps.drop_first()[k]) by {
            assert(uaps.drop_first()[k] == uaps[k + 1]);
        }
        assert(uaps.drop_first()[j - 1] == uaps[j]);
        lemma_first_hit_some(p, uaps.drop_first(), j - 1);
    }
}

/// When no opponent is hit, `first_hit` reports none.
pub proof fn lemma_first_hit_none(p: Projectile, uaps: Seq<Uap>)
    requires
        forall|k: int| 0 <= k < uaps.len() ==> !hits(p, uaps[k]),
    ensures
        first_hit(p, uaps) == None::<int>,
    decreases uaps.len(),
{
    if uaps.len() > 0 {
        assert forall|k: int| 0 <= k < uaps.len() - 1 implies !hits(p, uaps.drop_first()[k]) by {
            assert(uaps.drop_first()[k] == uaps[k + 1]);
        }
        lemma_first_hit_none(p, uaps.drop_first());
    }
}

/// State of a resolution pass: the projectiles that survived so far, the
/// opponents with damage applied, and the events raised.
pub struct Resolution {
    pub survivors: Seq<Projectile>,
    pub uaps: Seq<Uap>,
    pub explosions: Seq<ProjectileExplosionEvent>,
    pub destroys: Seq<DestroyUapEvent>,
    pub scores: Seq<ScoreEvent>,
}

/// Resolution of a single projectile: either it hits its first live
/// overlapping opponent — one explosion at the projectile's position, the
/// damage applied, destroy and score events exactly when the opponent's
/// health drops to zero or below, and the projectile despawned — or it
/// survives unchanged.
pub open spec fn resolve_one(p: Projectile, st: Resolution) -> Resolution {
    match first_hit(p, st.uaps) {
        None => Resolution { survivors: st.survivors.push(p), ..st },
        Some(j) => {
            let u = st.uaps[j];
            let w = u.damaged(p.damage);
            Resolution {
                survivors: st.survivors,
                uaps: st.uaps.update(j, w),
                explosions: st.explosions.push(ProjectileExplosionEvent { x: p.x, y: p.y }),
                destroys: if w.health <= 0 {
                    st.destroys.push(DestroyUapEvent { entity: u.id, x: u.x, y: u.y })
                } else {
                    st.destroys
                },
                scores: if w.health <= 0 {
                    st.scores.push(ScoreEvent { score_to_add: DESTROY_POINTS })
                } else {
                    st.scores
                },
            }
        },
    }
}

/// Resolution of a whole projectile queue, in order.
pub open spec fn resolve_all(ps: Seq<Projectile>, st: Resolution) -> Resolution
    decreases ps.len(),
{
    if ps.len() == 0 {
        st
    } else {
        resolve_all(ps.drop_first(), resolve_one(ps[0], st))
    }
}

/// A reported hit index is always in range.
pub proof fn lemma_first_hit_in_range(p: Projectile, uaps: Seq<Uap>)
    ensures
        match first_hit(p, uaps) {
            Some(j) => 0 <= j < uaps.len() && hits(p, uaps[j]),
            None => true,
        },
    decreases uaps.len(),
{
    if uaps.len() > 0 && !hits(p, uaps[0]) {
        lemma_first_hit_in_range(p, uaps.drop_first());
    }
}

/// Resolution never changes the number of opponents.
pub proof fn lemma_resolve_keeps_uap_count(ps: Seq<Projectile>, st: Resolution)
    ensures
        resolve_all(ps, st).uaps.len() == st.uaps.len(),
    decreases ps.len(),
{
    if ps.len() > 0 {
        lemma_first_hit_in_range(ps[0], st.uaps);
        lemma_resolve_keeps_uap_count(ps.drop_first(), resolve_one(ps[0], st));
    }
}

/// Every projectile either survives resolution or detonates: the survivors
/// and the explosions raised account for the whole queue, one explosion
/// per despawned projectile.
pub proof fn lemma_resolve_partitions(ps: Seq<Projectile>, st: Resolution)
    ensures
        resolve_all(ps, st).survivors.len() + resolve_all(ps, st).explosions.len() == st.survivors.len()
            + st.explosions.len() + ps.len(),
    decreases ps.len(),
{
    if ps.len() > 0 {
        lemma_resolve_partitions(ps.drop_first(), resolve_one(ps[0], st));
    }
}

/// The axis-aligned overlap test.
fn collides(p: &Projectile, u: &Uap) -> (r: bool)
    requires
        p.wf(),
        p.distance <= TRAVEL_CAP,
        u.wf(),
    ensures
        r == overlaps(*p, *u),
{
    let dx: i64 = if p.x >= u.x {
        p.x - u.x
    } else {
        u.x - p.x
    };
    let dy: i64 = if p.y >= u.y {
        p.y - u.y
    } else {
        u.y - p.y
    };
    dx < PROJECTILE_HALF_WIDTH + UAP_HALF_WIDTH && dy < PROJECTILE_HALF_HEIGHT + UAP_HALF_HEIGHT
}

/// Finds the first opponent, in creation order, that the projectile hits.
fn find_target(p: &Projectile, uaps: &Vec<Uap>) -> (r: Option<usize>)
    requires
        p.wf(),
        p.distance <= TRAVEL_CAP,
        forall|k: int| 0 <= k < uaps@.len() ==> (#[trigger] uaps@[k]).wf(),
    ensures
        match r {
            Some(j) => j < uaps@.len() && hits(*p, uaps@[j as int]) && first_hit(*p, uaps@)
                == Some(j as int),
            None => first_hit(*p, uaps@) == None::<int>,
        },
{
    let mut j: usize = 0;
    while j < uaps.len()
        invariant
            j <= uaps@.len(),
            p.wf(),
            p.distance <= TRAVEL_CAP,
            forall|k: int| 0 <= k < uaps@.len() ==> (#[trigger] uaps@[k]).wf(),
            forall|k: int| 0 <= k < j ==> !hits(*p, #[trigger] uaps@[k]),
        decreases uaps@.len() - j,
    {
        let live: bool = uaps[j].health > 0;
        if live && collides(p, &uaps[j]) {
            proof {
                lemma_first_hit_some(*p, uaps@, j as int);
            }
            return Some(j);
        }
        j = j + 1;
    }
    proof {
        lemma_first_hit_none(*p, uaps@);
    }
    None
}

/// Resolves every projectile against the opponents, in order: survivors
/// are returned, damage is applied in place, and the explosion, destroy
/// and score events raised are appended to the queues.
pub fn projectile_collision(
    ps: &Vec<Projectile>,
    uaps: &mut Vec<Uap>,
    explosions: &mut Vec<ProjectileExplosionEvent>,
    destroys: &mut Vec<DestroyUapEvent>,
    scores: &mut Vec<ScoreEvent>,
) -> (survivors: Vec<Projectile>)
    requires
        forall|k: int| 0 <= k < ps@.len() ==> (#[trigger] ps@[k]).wf() && ps@[k].distance
            <= TRAVEL_CAP,
        forall|k: int| 0 <= k < old(uaps)@.len() ==> (#[trigger] old(uaps)@[k]).wf(),
    ensures
        ({
            let out = resolve_all(
                ps@,
                Resolution {
                    survivors: Seq::empty(),
                    uaps: old(uaps)@,
                    explosions: old(explosions)@,
                    destroys: old(destroys)@,
                    scores: old(scores)@,
                },
            );
            &&& survivors@ == out.survivors
            &&& final(uaps)@ == out.uaps
            &&& final(explosions)@ == out.explosions
            &&& final(destroys)@ == out.destroys
            &&& final(scores)@ == out.scores
        }),
        final(uaps)@.len() == old(uaps)@.len(),
        forall|k: int| 0 <= k < final(uaps)@.len() ==> (#[trigger] final(uaps)@[k]).wf(),
        forall|k: int| 0 <= k < survivors@.len() ==> (#[trigger] survivors@[k]).wf()
            && survivors@[k].distance <= TRAVEL_CAP,
{
    let ghost init = Resolution {
        survivors: Seq::empty(),
        uaps: uaps@,
        explosions: explosions@,
        destroys: destroys@,
        scores: scores@,
    };
    let mut out: Vec<Projectile> = Vec::new();
    proof {
        assert(ps@.skip(0) =~= ps@);
    }
    let mut i: usize = 0;
    while i < ps.len()
        invariant
            i <= ps@.len(),
            forall|k: int| 0 <= k < ps@.len() ==> (#[trigger] ps@[k]).wf() && ps@[k].distance
                <= TRAVEL_CAP,
            uaps@.len() == init.uaps.len(),
            forall|k: int| 0 <= k < uaps@.len() ==> (#[trigger] uaps@[k]).wf(),
            forall|k: int| 0 <= k < out@.len() ==> (#[trigger] out@[k]).wf() && out@[k].distance
                <= TRAVEL_CAP,
            resolve_all(ps@, init) == resolve_all(
                ps@.skip(i as int),
                Resolution {
                    survivors: out@,
                    uaps: uaps@,
                    explosions: explosions@,
                    destroys: destroys@,
                    scores: scores@,
                },
            ),
        decreases ps@.len() - i,
    {
        let ghost st0 = Resolution {
            survivors: out@,
            uaps: uaps@,
            explosions: explosions@,
            destroys: destroys@,
            scores: scores@,
        };
        let p: Projectile = ps[i];
        match find_target(&p, uaps) {
            Some(j) => {
                explosions.push(ProjectileExplosionEvent { x: p.x, y: p.y });
                let mut u: Uap = uaps[j];
                u.take_damage(p.damage, destroys, scores);
                uaps.set(j, u);
            },
            None => {
                out.push(p);
            },
        }
        proof {
            let st1 = Resolution {
                survivors: out@,
                uaps: uaps@,
                explosions: explosions@,
                destroys: destroys@,
                scores: scores@,
            };
            assert(st1 == resolve_one(p, st0));
            assert(ps@.skip(i as int).drop_first() =~= ps@.skip(i + 1));
            assert(ps@.skip(i as int)[0] == ps@[i as int]);
            assert(resolve_all(ps@.skip(i as int), st0) == resolve_all(ps@.skip(i + 1), st1));
        }
        i = i + 1;
    }
    proof {
        assert(ps@.skip(ps@.len() as int) =~= Seq::<Projectile>::empty());
    }
    out
}

} // verus!
