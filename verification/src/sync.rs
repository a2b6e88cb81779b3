use vstd::prelude::*;
use vstd::pervasive::unreached;
use crate::color::Rgb8;
use crate::config::Config;
use crate::keys::PhysicalKey;
use crate::pp7::PP7KeyBind;
use crate::pp7::Presentation;
use crate::resolver::resolve;
use crate::resolver::resolved_frame;

verus! {

/// What one poll tick did.
pub enum TickAction {
    /// The fetch failed; the tick was skipped silently.
    Skipped,
    /// The snapshot's id equals the last observed one; nothing to push.
    NoChange,
    /// The snapshot changed: this frame is to be pushed to the device.
    Push(Vec<Rgb8>),
}

/// The state the poll loop carries across ticks: the id of the last
/// presentation it observed.  Before the first tick the id is empty.
pub struct SyncState {
    pub last_uuid: String,
}

/// The last-observed id after a tick: a fetched snapshot's id, or the old id
/// when the fetch failed.
pub open spec fn next_last_uuid(last: Seq<char>, fetched: Option<Presentation>) -> Seq<char> {
    match fetched {
        Some(p) => p.id.uuid@,
        None => last,
    }
}

/// Does a tick push a frame?  Exactly when a snapshot arrived and its id
/// differs from the last observed one.
pub open spec fn tick_pushes(last: Seq<char>, fetched: Option<Presentation>) -> bool {
    match fetched {
        Some(p) => p.id.uuid@ != last,
        None => false,
    }
}

impl SyncState {
    /// The state before the first tick: no presentation observed yet.
    pub fn new() -> (s: Self)
        ensures
            s.last_uuid@ == Seq::<char>::empty(),
    {
        SyncState { last_uuid: String::new() }
    }
}

/// One poll tick: compare the fetched snapshot's id against the last
/// observed one and resolve a fresh frame on change.  A failed fetch
/// (`fetched` of `None`) is skipped silently and changes nothing.
pub fn poll_tick(
    state: &mut SyncState,
    fetched: Option<&Presentation>,
    binds: &Vec<PP7KeyBind>,
    keys: &Vec<PhysicalKey>,
    cfg: &Config,
) -> (a: TickAction)
    ensures
        final(state).last_uuid@ == next_last_uuid(
            old(state).last_uuid@,
            match fetched {
                Some(p) => Some(*p),
                None => None::<Presentation>,
            },
        ),
        (a is Push) == tick_pushes(
            old(state).last_uuid@,
            match fetched {
                Some(p) => Some(*p),
                None => None::<Presentation>,
            },
        ),
        fetched is None ==> a is Skipped,
        fetched matches Some(p) ==> ({
            &&& p.id.uuid@ == old(state).last_uuid@ ==> a is NoChange
            &&& p.id.uuid@ != old(state).last_uuid@ ==> (a matches TickAction::Push(f) && f@
                == resolved_frame(keys@, binds@, p.groups@, *cfg))
        }),
{
    match fetched {
        None => TickAction::Skipped,
        Some(p) => {
            if p.id.uuid == state.last_uuid {
                TickAction::NoChange
            } else {
                state.last_uuid = p.id.uuid.clone();
                match resolve(p, binds, keys, cfg) {
                    Ok(f) => TickAction::Push(f),
                    Err(_) => unreached(),
                }
            }
        },
    }
}

/// Change detection across two consecutive successful ticks: after a tick
/// observed one snapshot, a next snapshot with the same id never pushes, and
/// one with a differing id always pushes.
pub proof fn lemma_change_detection(last: Seq<char>, p1: Presentation, p2: Presentation)
    ensures
        p2.id.uuid@ == p1.id.uuid@ ==> !tick_pushes(next_last_uuid(last, Some(p1)), Some(p2)),
        p2.id.uuid@ != p1.id.uuid@ ==> tick_pushes(next_last_uuid(last, Some(p1)), Some(p2)),
{
}

/// A failed fetch leaves the observed id as it was and pushes nothing.
pub proof fn lemma_failed_fetch_skips(last: Seq<char>)
    ensures
        next_last_uuid(last, None::<Presentation>) == last,
        !tick_pushes(last, None::<Presentation>),
{
}

/// What the bridge needs to know of one enumerated controller.
#[derive(Clone, Copy, PartialEq, Eq, Structural, Debug)]
pub enum DeviceKind {
    Keyboard,
    Other,
}

/// The controller the loop drives: the first enumerated keyboard, if any.
/// With no keyboard among the controllers the bridge has nothing to do.
pub fn first_keyboard_index(kinds: &Vec<DeviceKind>) -> (r: Option<usize>)
    ensures
        r matches Some(i) ==> i < kinds@.len() && kinds@[i as int] is Keyboard && (forall|t: int|
            0 <= t < i ==> !(kinds@[t] is Keyboard)),
        r is None ==> forall|t: int| 0 <= t < kinds@.len() ==> !(kinds@[t] is Keyboard),
{
    let mut i: usize = 0;
    while i < kinds.len()
        invariant
            i <= kinds@.len(),
            forall|t: int| 0 <= t < i ==> !(kinds@[t] is Keyboard),
        decreases kinds@.len() - i,
    {
        match kinds[i] {
            DeviceKind::Keyboard => {
                return Some(i);
            },
            DeviceKind::Other => {},
        }
        i += 1;
    }
    None
}

/// Retry strategy for the startup connections: a fixed interval between
/// attempts and an optional bound on their number.  The companion services
/// are local and expected to come up eventually, so the loop itself runs an
/// unbounded policy; a bound makes the wait finite where one is wanted.
pub struct RetryPolicy {
    pub interval_ms: u64,
    pub max_attempts: Option<u64>,
}

impl RetryPolicy {
    /// The unbounded fixed-interval policy the sync loop starts with.
    pub fn fixed_unbounded(interval_ms: u64) -> (p: Self)
        ensures
            p.interval_ms == interval_ms,
            p.max_attempts is None,
    {
        RetryPolicy { interval_ms, max_attempts: None }
    }

    /// May another attempt be made after `attempts` failed ones?
    pub fn should_retry(&self, attempts: u64) -> (r: bool)
        ensures
            r == (match self.max_attempts {
                Some(m) => attempts < m,
                None => true,
            }),
    {
        match self.max_attempts {
            Some(m) => attempts < m,
            None => true,
        }
    }
}

} // verus!
