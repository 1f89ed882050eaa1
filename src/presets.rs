//! Preset identifiers: the list of known presets, and the automatic rotation
//! that moves to a random other preset once the rig has been idle long enough.
use vstd::prelude::*;
use rand::Rng;

verus! {

/// The preset identifier that stands for "no preset".
pub const NO_PRESET: i32 = 0;

/// `s` is in strictly ascending order, hence free of duplicates.
pub open spec fn strictly_ascending(s: Seq<i32>) -> bool {
    forall|i: int, j: int| 0 <= i < j < s.len() ==> s[i] < s[j]
}

/// Inserts `x` into the strictly ascending `v`, unless it is already there.
fn insert_sorted(v: &mut Vec<i32>, x: i32)
    requires
        strictly_ascending(old(v)@),
    ensures
        strictly_ascending(final(v)@),
        forall|y: i32| final(v)@.contains(y) <==> (old(v)@.contains(y) || y == x),
{
    let mut i: usize = 0;
    while i < v.len() && v[i] < x
        invariant
            v@ == old(v)@,
            strictly_ascending(v@),
            i <= v@.len(),
            forall|k: int| 0 <= k < i ==> v@[k] < x,
        decreases v@.len() - i,
    {
        i = i + 1;
    }
    if i < v.len() && v[i] == x {
        assert(v@[i as int] == x);
        assert(v@.contains(x));
        return;
    }
    let ghost before = v@;
    v.insert(i, x);
    assert(v@ == before.insert(i as int, x));
    assert forall|a: int, b: int| 0 <= a < b < v@.len() implies v@[a] < v@[b] by {
        if b < i {
            assert(v@[a] == before[a] && v@[b] == before[b]);
        } else if b == i {
            assert(v@[a] == before[a]);
        } else if a < i {
            assert(v@[a] == before[a] && v@[b] == before[b - 1]);
            assert(before[a] < before[i as int] || before[a] == before[i as int]);
        } else if a == i {
            assert(v@[b] == before[b - 1]);
            assert(before[i as int] >= x);
            assert(before[i as int] != x);
            if b - 1 > i {
                assert(before[i as int] < before[b - 1]);
            }
        } else {
            assert(v@[a] == before[a - 1] && v@[b] == before[b - 1]);
        }
    }
    assert forall|y: i32| v@.contains(y) <==> (before.contains(y) || y == x) by {
        if v@.contains(y) {
            let k = choose|k: int| 0 <= k < v@.len() && v@[k] == y;
            if k < i {
                assert(before[k] == y);
            } else if k > i {
                assert(before[k - 1] == y);
            }
        }
        if before.contains(y) {
            let k = choose|k: int| 0 <= k < before.len() && before[k] == y;
            if k < i {
                assert(v@[k] == y);
            } else {
                assert(v@[k + 1] == y);
            }
        }
        if y == x {
            assert(v@[i as int] == y);
        }
    }
}

/// The presets known to the store: every identifier that an engine record or
/// an LED record refers to, each once, in ascending order.
pub fn merge_preset_ids(engine_presets: Vec<i32>, led_presets: Vec<i32>) -> (r: Vec<i32>)
    ensures
        strictly_ascending(r@),
        forall|p: i32| r@.contains(p) <==> (engine_presets@.contains(p) || led_presets@.contains(p)),
{
    let mut r: Vec<i32> = Vec::new();
    let mut i: usize = 0;
    while i < engine_presets.len()
        invariant
            i <= engine_presets@.len(),
            strictly_ascending(r@),
            forall|p: i32| r@.contains(p) <==> engine_presets@.subrange(0, i as int).contains(p),
        decreases engine_presets@.len() - i,
    {
        let ghost seen = engine_presets@.subrange(0, i as int);
        insert_sorted(&mut r, engine_presets[i]);
        proof {
            let next = engine_presets@.subrange(0, i + 1);
            assert(next =~= seen.push(engine_presets@[i as int]));
            assert forall|p: i32| next.contains(p) <==> (seen.contains(p) || p == engine_presets@[i as int]) by {
                if next.contains(p) {
                    let k = choose|k: int| 0 <= k < next.len() && next[k] == p;
                    if k < i {
                        assert(seen[k] == p);
                    }
                }
                if seen.contains(p) {
                    let k = choose|k: int| 0 <= k < seen.len() && seen[k] == p;
                    assert(next[k] == p);
                }
                if p == engine_presets@[i as int] {
                    assert(next[i as int] == p);
                }
            }
        }
        i = i + 1;
    }
    assert(engine_presets@.subrange(0, engine_presets@.len() as int) =~= engine_presets@);
    let mut j: usize = 0;
    while j < led_presets.len()
        invariant
            j <= led_presets@.len(),
            strictly_ascending(r@),
            forall|p: i32| r@.contains(p) <==> (engine_presets@.contains(p)
                || led_presets@.subrange(0, j as int).contains(p)),
        decreases led_presets@.len() - j,
    {
        let ghost seen = led_presets@.subrange(0, j as int);
        insert_sorted(&mut r, led_presets[j]);
        proof {
            let next = led_presets@.subrange(0, j + 1);
            assert forall|p: i32| next.contains(p) <==> (seen.contains(p) || p == led_presets@[j as int]) by {
                if next.contains(p) {
                    let k = choose|k: int| 0 <= k < next.len() && next[k] == p;
                    if k < j {
                        assert(seen[k] == p);
                    }
                }
                if seen.contains(p) {
                    let k = choose|k: int| 0 <= k < seen.len() && seen[k] == p;
                    assert(next[k] == p);
                }
                if p == led_presets@[j as int] {
                    assert(next[j as int] == p);
                }
            }
        }
        j = j + 1;
    }
    assert(led_presets@.subrange(0, led_presets@.len() as int) =~= led_presets@);
    r
}

/// The presets that a rotation away from `active` may move to, in order.
pub open spec fn rotation_candidates(presets: Seq<i32>, active: i32) -> Seq<i32> {
    presets.filter(differs_from(active))
}

/// Holds of the presets other than `active`.
pub open spec fn differs_from(active: i32) -> spec_fn(i32) -> bool {
    |p: i32| p != active
}

/// Keeps the presets other than `active`, in their order.
pub fn other_presets(presets: &Vec<i32>, active: i32) -> (r: Vec<i32>)
    ensures
        r@ == rotation_candidates(presets@, active),
{
    let mut r: Vec<i32> = Vec::new();
    let mut i: usize = 0;
    while i < presets.len()
        invariant
            i <= presets@.len(),
            r@ == rotation_candidates(presets@.subrange(0, i as int), active),
        decreases presets@.len() - i,
    {
        let p = presets[i];
        proof {
            assert(presets@.subrange(0, i + 1) =~= presets@.subrange(0, i as int).push(p));
            presets@.subrange(0, i as int).lemma_filter_push(p, differs_from(active));
        }
        if p != active {
            r.push(p);
        }
        i = i + 1;
    }
    assert(presets@.subrange(0, presets@.len() as int) =~= presets@);
    r
}

/// The rotation target picked by the draw `draw` among the presets other than
/// `active`: the candidate at `draw` modulo their number, `None` when there is
/// no other preset.
pub fn target_from_draw(presets: &Vec<i32>, active: i32, draw: usize) -> (r: Option<i32>)
    ensures
        rotation_candidates(presets@, active).len() == 0 ==> r.is_none(),
        rotation_candidates(presets@, active).len() > 0 ==> r == Some(
            rotation_candidates(presets@, active)[draw as int % rotation_candidates(presets@, active).len() as int],
        ),
{
    let candidates = other_presets(presets, active);
    if candidates.len() == 0 {
        None
    } else {
        Some(candidates[draw % candidates.len()])
    }
}

/// Relies on `rand::Rng::gen_range` over `thread_rng()`: a value drawn from
/// `0..bound`, which rand documents to lie in that range (it panics only on
/// an empty range, which `requires` leaves out).
#[verifier::external_body]
fn random_below(bound: usize) -> (r: usize)
    requires
        bound > 0,
    ensures
        r < bound,
{
    rand::thread_rng().gen_range(0..bound)
}

/// A preset to rotate to: drawn at random among those other than `active`;
/// `None` exactly when there is no other preset.
pub fn pick_rotation_target(presets: &Vec<i32>, active: i32) -> (r: Option<i32>)
    ensures
        r.is_none() <==> (forall|p: i32| presets@.contains(p) ==> p == active),
        r matches Some(t) ==> presets@.contains(t) && t != active,
{
    let candidates = other_presets(presets, active);
    proof {
        lemma_candidates(presets@, active);
    }
    if candidates.len() == 0 {
        return None;
    }
    let k = random_below(candidates.len());
    let t = candidates[k];
    assert(rotation_candidates(presets@, active).contains(t));
    Some(t)
}

/// The candidates are exactly the presets that differ from `active`.
pub proof fn lemma_candidates(presets: Seq<i32>, active: i32)
    ensures
        forall|p: i32| rotation_candidates(presets, active).contains(p) <==> (presets.contains(p) && p != active),
        rotation_candidates(presets, active).len() == 0 <==> (forall|p: i32| presets.contains(p) ==> p == active),
{
    let pred = differs_from(active);
    let c = rotation_candidates(presets, active);
    assert forall|p: i32| c.contains(p) <==> (presets.contains(p) && p != active) by {
        if c.contains(p) {
            presets.lemma_filter_contains_rev(pred, p);
            let k = choose|k: int| 0 <= k < c.len() && c[k] == p;
            presets.lemma_filter_pred(pred, k);
        }
        if presets.contains(p) && p != active {
            let k = choose|k: int| 0 <= k < presets.len() && presets[k] == p;
            presets.lemma_filter_contains(pred, k);
        }
    }
    if c.len() > 0 {
        assert(c.contains(c[0]));
    }
}

/// Whether the rig has been idle for longer than `delay_minutes` whole
/// minutes with automatic rotation on.
pub fn rotation_due(enabled: bool, delay_minutes: i32, idle_seconds: u64) -> (r: bool)
    ensures
        r == (enabled && (idle_seconds / 60) as int > delay_minutes as int),
{
    if !enabled {
        return false;
    }
    if delay_minutes < 0 {
        return true;
    }
    idle_seconds / 60 > delay_minutes as u64
}

/// One poll of the automatic rotation controller. When rotation is due and
/// another preset exists it returns the preset to move to: the caller then
/// preempts the active screen with a move to that preset and restarts its
/// idle timer.
pub fn poll_rotation(enabled: bool, delay_minutes: i32, idle_seconds: u64, presets: &Vec<i32>, active: i32) -> (r: Option<i32>)
    ensures
        !(enabled && (idle_seconds / 60) as int > delay_minutes as int) ==> r.is_none(),
        (enabled && (idle_seconds / 60) as int > delay_minutes as int) ==> (r.is_none() <==> (forall|p: i32|
            presets@.contains(p) ==> p == active)),
        r matches Some(t) ==> presets@.contains(t) && t != active,
{
    if rotation_due(enabled, delay_minutes, idle_seconds) {
        pick_rotation_target(presets, active)
    } else {
        None
    }
}

} // verus!
