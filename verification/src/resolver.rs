use vstd::prelude::*;
use crate::color::Rgb8;
use crate::color::gray;
use crate::color::rgb_of;
use crate::color::rgb_of_color;
use crate::config::Config;
use crate::keys::PhysicalKey;
use crate::pp7::PP7KeyBind;
use crate::pp7::Presentation;
use crate::pp7::PresentationGroup;

verus! {

/// Does binding `b` name key `k`?  By key label or by LED index; neither has
/// priority, either alone suffices.
pub open spec fn bind_matches_key(b: PP7KeyBind, k: PhysicalKey) -> bool {
    b.key@ == k.label@ || b.num == k.index
}

/// Is `name` the name of some group of the snapshot?
pub open spec fn name_active(groups: Seq<PresentationGroup>, name: Seq<char>) -> bool {
    exists|j: int| 0 <= j < groups.len() && groups[j].name@ == name
}

/// An active binding for key `k`: it names `k` and its group is among the
/// snapshot's groups.
pub open spec fn bind_active_for_key(
    b: PP7KeyBind,
    k: PhysicalKey,
    groups: Seq<PresentationGroup>,
) -> bool {
    bind_matches_key(b, k) && name_active(groups, b.bind@)
}

/// Does key `k` have at least one active binding?
pub open spec fn key_has_active_bind(
    k: PhysicalKey,
    binds: Seq<PP7KeyBind>,
    groups: Seq<PresentationGroup>,
) -> bool {
    exists|i: int| 0 <= i < binds.len() && bind_active_for_key(binds[i], k, groups)
}

/// Is group `g` named by some binding that names key `k`?
pub open spec fn group_matched(g: PresentationGroup, k: PhysicalKey, binds: Seq<PP7KeyBind>) -> bool {
    exists|i: int|
        0 <= i < binds.len() && bind_matches_key(binds[i], k) && binds[i].bind@ == g.name@
}

/// Index of the first group, in snapshot order, that is named by a binding
/// naming `k`.  Meaningful only when such a group exists.
pub open spec fn first_match_index(
    groups: Seq<PresentationGroup>,
    k: PhysicalKey,
    binds: Seq<PP7KeyBind>,
) -> int
    decreases groups.len(),
{
    if groups.len() == 0 {
        0
    } else if group_matched(groups[0], k, binds) {
        0
    } else {
        1 + first_match_index(groups.skip(1), k, binds)
    }
}

/// The color the resolver owes key `k`: the dim gray without an active
/// binding; the plain on-gray with one while color mode is off; otherwise the
/// first matched group's color quantized to eight bits.
pub open spec fn resolved_key_color(
    k: PhysicalKey,
    binds: Seq<PP7KeyBind>,
    groups: Seq<PresentationGroup>,
    cfg: Config,
) -> Rgb8 {
    if !key_has_active_bind(k, binds, groups) {
        gray(cfg.led_dim)
    } else if !cfg.led_colors {
        gray(cfg.led_on)
    } else {
        rgb_of_color(groups[first_match_index(groups, k, binds)].color)
    }
}

/// The whole frame: one color per physical key, in LED order.
pub open spec fn resolved_frame(
    keys: Seq<PhysicalKey>,
    binds: Seq<PP7KeyBind>,
    groups: Seq<PresentationGroup>,
    cfg: Config,
) -> Seq<Rgb8> {
    Seq::new(keys.len(), |i: int| resolved_key_color(keys[i], binds, groups, cfg))
}

/// Inconsistency between binding table and snapshot: a binding matched a key
/// although no group carries its name.  `resolve` provably never produces it.
#[derive(Clone, Copy, PartialEq, Eq, Structural, Debug)]
pub enum ResolutionError {
    NoMatchingGroup,
}

fn name_is_active(groups: &Vec<PresentationGroup>, name: &String) -> (r: bool)
    ensures
        r == name_active(groups@, name@),
{
    let mut j: usize = 0;
    while j < groups.len()
        invariant
            j <= groups@.len(),
            forall|t: int| 0 <= t < j ==> groups@[t].name@ != name@,
        decreases groups@.len() - j,
    {
        if groups[j].name == *name {
            return true;
        }
        j += 1;
    }
    false
}

fn bind_is_active_for_key(
    b: &PP7KeyBind,
    k: &PhysicalKey,
    groups: &Vec<PresentationGroup>,
) -> (r: bool)
    ensures
        r == bind_active_for_key(*b, *k, groups@),
{
    let named: bool = b.key == k.label || b.num == k.index;
    if named {
        name_is_active(groups, &b.bind)
    } else {
        false
    }
}

fn key_active_bind_exists(
    k: &PhysicalKey,
    binds: &Vec<PP7KeyBind>,
    groups: &Vec<PresentationGroup>,
) -> (r: bool)
    ensures
        r == key_has_active_bind(*k, binds@, groups@),
{
    let mut i: usize = 0;
    while i < binds.len()
        invariant
            i <= binds@.len(),
            forall|t: int| 0 <= t < i ==> !bind_active_for_key(binds@[t], *k, groups@),
        decreases binds@.len() - i,
    {
        if bind_is_active_for_key(&binds[i], k, groups) {
            return true;
        }
        i += 1;
    }
    false
}

fn group_is_matched(g: &PresentationGroup, k: &PhysicalKey, binds: &Vec<PP7KeyBind>) -> (r: bool)
    ensures
        r == group_matched(*g, *k, binds@),
{
    let mut i: usize = 0;
    while i < binds.len()
        invariant
            i <= binds@.len(),
            forall|t: int|
                0 <= t < i ==> !(bind_matches_key(binds@[t], *k) && binds@[t].bind@ == g.name@),
        decreases binds@.len() - i,
    {
        if (binds[i].key == k.label || binds[i].num == k.index) && binds[i].bind == g.name {
            return true;
        }
        i += 1;
    }
    false
}

/// When some group at or above `i` is matched and none below `i` is, `i` is
/// the first matched index.
proof fn lemma_first_match_at(
    groups: Seq<PresentationGroup>,
    k: PhysicalKey,
    binds: Seq<PP7KeyBind>,
    i: int,
)
    requires
        0 <= i < groups.len(),
        group_matched(groups[i], k, binds),
        forall|t: int| 0 <= t < i ==> !group_matched(groups[t], k, binds),
    ensures
        first_match_index(groups, k, binds) == i,
    decreases i,
{
    if i > 0 {
        let tail = groups.skip(1);
        assert(forall|t: int| 0 <= t < tail.len() ==> tail[t] == groups[t + 1]);
        assert(tail[i - 1] == groups[i]);
        lemma_first_match_at(tail, k, binds, i - 1);
    }
}

/// The first matched index is in range, matched, and least, whenever any
/// group is matched at all.
proof fn lemma_first_match_props(
    groups: Seq<PresentationGroup>,
    k: PhysicalKey,
    binds: Seq<PP7KeyBind>,
)
    requires
        exists|j: int| 0 <= j < groups.len() && group_matched(groups[j], k, binds),
    ensures
        ({
            let f = first_match_index(groups, k, binds);
            &&& 0 <= f < groups.len()
            &&& group_matched(groups[f], k, binds)
            &&& forall|t: int| 0 <= t < f ==> !group_matched(groups[t], k, binds)
        }),
    decreases groups.len(),
{
    if !group_matched(groups[0], k, binds) {
        let tail = groups.skip(1);
        assert(forall|t: int| 0 <= t < tail.len() ==> tail[t] == groups[t + 1]);
        let j = choose|j: int| 0 <= j < groups.len() && group_matched(groups[j], k, binds);
        assert(tail[j - 1] == groups[j]);
        assert(group_matched(tail[j - 1], k, binds));
        lemma_first_match_props(tail, k, binds);
        let f1 = first_match_index(tail, k, binds);
        assert(first_match_index(groups, k, binds) == 1 + f1);
        assert(groups[1 + f1] == tail[f1]);
        assert forall|t: int| 0 <= t < 1 + f1 implies !group_matched(groups[t], k, binds) by {
            if t >= 1 {
                assert(tail[t - 1] == groups[t]);
                assert(!group_matched(tail[t - 1], k, binds));
            }
        }
    }
}

/// A key with an active binding always has a matched group in the snapshot,
/// and conversely: the color lookup cannot fail when a binding matched.
pub proof fn lemma_active_bind_has_group(
    k: PhysicalKey,
    binds: Seq<PP7KeyBind>,
    groups: Seq<PresentationGroup>,
)
    ensures
        key_has_active_bind(k, binds, groups) <==> (exists|j: int|
            0 <= j < groups.len() && group_matched(groups[j], k, binds)),
{
    if key_has_active_bind(k, binds, groups) {
        let i = choose|i: int| 0 <= i < binds.len() && bind_active_for_key(binds[i], k, groups);
        let j = choose|j: int| 0 <= j < groups.len() && groups[j].name@ == binds[i].bind@;
        assert(group_matched(groups[j], k, binds));
    }
    if exists|j: int| 0 <= j < groups.len() && group_matched(groups[j], k, binds) {
        let j = choose|j: int| 0 <= j < groups.len() && group_matched(groups[j], k, binds);
        let i = choose|i: int|
            0 <= i < binds.len() && bind_matches_key(binds[i], k) && binds[i].bind@
                == groups[j].name@;
        assert(name_active(groups, binds[i].bind@));
        assert(bind_active_for_key(binds[i], k, groups));
        assert(key_has_active_bind(k, binds, groups));
    }
}

fn first_matched_group(
    groups: &Vec<PresentationGroup>,
    k: &PhysicalKey,
    binds: &Vec<PP7KeyBind>,
) -> (r: Option<usize>)
    ensures
        r matches Some(j) ==> j < groups@.len() && group_matched(groups@[j as int], *k, binds@)
            && j == first_match_index(groups@, *k, binds@),
        r is None ==> forall|t: int| 0 <= t < groups@.len() ==> !group_matched(
            groups@[t],
            *k,
            binds@,
        ),
{
    let mut j: usize = 0;
    while j < groups.len()
        invariant
            j <= groups@.len(),
            forall|t: int| 0 <= t < j ==> !group_matched(groups@[t], *k, binds@),
        decreases groups@.len() - j,
    {
        if group_is_matched(&groups[j], k, binds) {
            proof {
                lemma_first_match_at(groups@, *k, binds@, j as int);
            }
            return Some(j);
        }
        j += 1;
    }
    None
}

/// Resolve one key.  Success is owed on every input: the error would need a
/// matched binding whose group is absent from the snapshot, which cannot
/// arise, since an active binding's group is in the snapshot by definition.
pub fn resolve_key(
    k: &PhysicalKey,
    binds: &Vec<PP7KeyBind>,
    groups: &Vec<PresentationGroup>,
    cfg: &Config,
) -> (r: Result<Rgb8, ResolutionError>)
    ensures
        r matches Ok(c) && c == resolved_key_color(*k, binds@, groups@, *cfg),
{
    if !key_active_bind_exists(k, binds, groups) {
        Ok(Rgb8 { r: cfg.led_dim, g: cfg.led_dim, b: cfg.led_dim })
    } else if !cfg.led_colors {
        Ok(Rgb8 { r: cfg.led_on, g: cfg.led_on, b: cfg.led_on })
    } else {
        match first_matched_group(groups, k, binds) {
            Some(j) => Ok(rgb_of(&groups[j].color)),
            None => {
                proof {
                    lemma_active_bind_has_group(*k, binds@, groups@);
                }
                Err(ResolutionError::NoMatchingGroup)
            },
        }
    }
}

/// Resolve the whole frame for a snapshot: one color per physical key, in
/// LED order, owed on every input.
pub fn resolve(
    snapshot: &Presentation,
    binds: &Vec<PP7KeyBind>,
    keys: &Vec<PhysicalKey>,
    cfg: &Config,
) -> (r: Result<Vec<Rgb8>, ResolutionError>)
    ensures
        r matches Ok(f) && f@ == resolved_frame(keys@, binds@, snapshot.groups@, *cfg),
{
    let mut out: Vec<Rgb8> = Vec::new();
    let mut i: usize = 0;
    while i < keys.len()
        invariant
            i == out@.len(),
            i <= keys@.len(),
            forall|t: int|
                0 <= t < i ==> out@[t] == resolved_key_color(
                    keys@[t],
                    binds@,
                    snapshot.groups@,
                    *cfg,
                ),
        decreases keys@.len() - i,
    {
        match resolve_key(&keys[i], binds, &snapshot.groups, cfg) {
            Ok(c) => {
                out.push(c);
            },
            Err(e) => {
                return Err(e);
            },
        }
        i += 1;
    }
    proof {
        assert(out@ =~= resolved_frame(keys@, binds@, snapshot.groups@, *cfg));
    }
    Ok(out)
}

/// A key with no active binding gets exactly the dim gray, whatever the
/// color mode.
pub proof fn lemma_unmatched_key_dim(
    k: PhysicalKey,
    binds: Seq<PP7KeyBind>,
    groups: Seq<PresentationGroup>,
    cfg: Config,
)
    requires
        !key_has_active_bind(k, binds, groups),
    ensures
        resolved_key_color(k, binds, groups, cfg) == gray(cfg.led_dim),
{
}

/// A key with an active binding gets exactly the plain on-gray while color
/// mode is off.
pub proof fn lemma_matched_key_plain(
    k: PhysicalKey,
    binds: Seq<PP7KeyBind>,
    groups: Seq<PresentationGroup>,
    cfg: Config,
)
    requires
        key_has_active_bind(k, binds, groups),
        !cfg.led_colors,
    ensures
        resolved_key_color(k, binds, groups, cfg) == gray(cfg.led_on),
{
}

/// A key with an active binding, while color mode is on, gets the quantized
/// color of the first snapshot-order group named by a binding that names the
/// key: the index is in range, matched, and least.
pub proof fn lemma_matched_key_color(
    k: PhysicalKey,
    binds: Seq<PP7KeyBind>,
    groups: Seq<PresentationGroup>,
    cfg: Config,
)
    requires
        key_has_active_bind(k, binds, groups),
        cfg.led_colors,
    ensures
        ({
            let f = first_match_index(groups, k, binds);
            &&& 0 <= f < groups.len()
            &&& group_matched(groups[f], k, binds)
            &&& forall|t: int| 0 <= t < f ==> !group_matched(groups[t], k, binds)
            &&& resolved_key_color(k, binds, groups, cfg) == rgb_of_color(groups[f].color)
            &&& resolved_key_color(k, binds, groups, cfg).r == crate::color::quantize_channel(
                groups[f].color.red as int,
            )
            &&& resolved_key_color(k, binds, groups, cfg).g == crate::color::quantize_channel(
                groups[f].color.green as int,
            )
            &&& resolved_key_color(k, binds, groups, cfg).b == crate::color::quantize_channel(
                groups[f].color.blue as int,
            )
        }),
{
    lemma_active_bind_has_group(k, binds, groups);
    lemma_first_match_props(groups, k, binds);
}

/// Resolution is a pure function of its inputs: two frames resolved from the
/// same snapshot, binding table, key set and config are identical.
pub proof fn lemma_resolve_idempotent(
    f1: Seq<Rgb8>,
    f2: Seq<Rgb8>,
    keys: Seq<PhysicalKey>,
    binds: Seq<PP7KeyBind>,
    groups: Seq<PresentationGroup>,
    cfg: Config,
)
    requires
        f1 == resolved_frame(keys, binds, groups, cfg),
        f2 == resolved_frame(keys, binds, groups, cfg),
    ensures
        f1 == f2,
{
}

} // verus!
