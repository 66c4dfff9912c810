//! Mount-bound player lifecycle: one binding per media element, which owns
//! the decision whether a lifecycle signal creates or disposes a player
//! handle. The browser shell performs the resulting action; the binding
//! guarantees that creation and disposal each happen at most once per mount
//! cycle and that a handle never outlives its element.

use vstd::prelude::*;

verus! {

/// The closed set of playback backends a page can select.
#[derive(Clone, Copy, PartialEq, Eq, Structural, Debug)]
pub enum PlayerKind {
    /// Custom-built HLS streaming player bound to the element.
    Streaming,
    /// General-purpose, UI-skinned video player bound to the element.
    VideoUi,
    /// The browser's built-in playback, driven by element attributes alone.
    Native,
}

/// A discrete lifecycle signal delivered to one element's binding.
#[derive(Clone, Copy, PartialEq, Eq, Structural, Debug)]
pub enum LifecycleEvent {
    Mount,
    Unmount,
}

/// What the shell must do with the vendor player in response to a signal.
#[derive(Clone, Copy, PartialEq, Eq, Structural, Debug)]
pub enum PlayerAction {
    /// Construct a player handle on the element and start loading the URL.
    CreatePlayer,
    /// Release the live handle's underlying resources.
    DisposePlayer,
    /// Nothing to do for this signal.
    NoAction,
}

/// Whether this backend constructs a player handle at all. Native playback
/// constructs none: the browser reclaims its resources on detach.
pub open spec fn kind_uses_handle(kind: PlayerKind) -> bool {
    kind != PlayerKind::Native
}

/// The binding between one element's mount state and its player handle:
/// `live` records whether a handle currently exists for the element.
#[derive(Clone, Copy, PartialEq, Eq, Structural, Debug)]
pub struct PlayerBinding {
    pub kind: PlayerKind,
    pub live: bool,
}

/// The binding after one lifecycle signal. A mount creates a handle only if
/// the element is already available, the backend uses handles, and none
/// exists yet; an unmount drops the handle if one exists.
pub open spec fn spec_next(
    s: PlayerBinding,
    ev: LifecycleEvent,
    element_ready: bool,
) -> PlayerBinding {
    match ev {
        LifecycleEvent::Mount => {
            if element_ready && kind_uses_handle(s.kind) && !s.live {
                PlayerBinding { live: true, ..s }
            } else {
                s
            }
        },
        LifecycleEvent::Unmount => {
            if s.live {
                PlayerBinding { live: false, ..s }
            } else {
                s
            }
        },
    }
}

/// The action a lifecycle signal demands of the shell.
pub open spec fn spec_action(
    s: PlayerBinding,
    ev: LifecycleEvent,
    element_ready: bool,
) -> PlayerAction {
    match ev {
        LifecycleEvent::Mount => {
            if element_ready && kind_uses_handle(s.kind) && !s.live {
                PlayerAction::CreatePlayer
            } else {
                PlayerAction::NoAction
            }
        },
        LifecycleEvent::Unmount => {
            if s.live {
                PlayerAction::DisposePlayer
            } else {
                PlayerAction::NoAction
            }
        },
    }
}

impl PlayerBinding {
    /// A fresh binding for a newly rendered element: no handle exists yet.
    pub fn new(kind: PlayerKind) -> (s: Self)
        ensures
            s.kind == kind,
            !s.live,
    {
        PlayerBinding { kind, live: false }
    }

    /// Feeds one lifecycle signal to the binding and returns the action the
    /// shell must perform. `element_ready` reports whether the element
    /// reference is available yet: an early mount signal is skipped without
    /// error and creation is retried on the next signal.
    pub fn on_event(&mut self, ev: LifecycleEvent, element_ready: bool) -> (a: PlayerAction)
        ensures
            *final(self) == spec_next(*old(self), ev, element_ready),
            a == spec_action(*old(self), ev, element_ready),
            // A handle is created only on a mount of a ready element with no
            // handle present, and disposal happens exactly when one is live.
            a == PlayerAction::CreatePlayer <==> (ev == LifecycleEvent::Mount && element_ready
                && kind_uses_handle(old(self).kind) && !old(self).live),
            a == PlayerAction::DisposePlayer <==> (ev == LifecycleEvent::Unmount
                && old(self).live),
            // An unmount always leaves the element without a live handle.
            ev == LifecycleEvent::Unmount ==> !final(self).live,
            final(self).kind == old(self).kind,
    {
        match ev {
            LifecycleEvent::Mount => {
                if element_ready && !matches!(self.kind, PlayerKind::Native) && !self.live {
                    self.live = true;
                    PlayerAction::CreatePlayer
                } else {
                    PlayerAction::NoAction
                }
            },
            LifecycleEvent::Unmount => {
                if self.live {
                    self.live = false;
                    PlayerAction::DisposePlayer
                } else {
                    PlayerAction::NoAction
                }
            },
        }
    }
}

/// The binding after a whole trace of lifecycle signals.
pub open spec fn run_state(s: PlayerBinding, evs: Seq<(LifecycleEvent, bool)>) -> PlayerBinding
    decreases evs.len(),
{
    if evs.len() == 0 {
        s
    } else {
        run_state(spec_next(s, evs[0].0, evs[0].1), evs.drop_first())
    }
}

/// The actions a whole trace of lifecycle signals demands, in order.
pub open spec fn run_actions(s: PlayerBinding, evs: Seq<(LifecycleEvent, bool)>) -> Seq<
    PlayerAction,
>
    decreases evs.len(),
{
    if evs.len() == 0 {
        Seq::empty()
    } else {
        seq![spec_action(s, evs[0].0, evs[0].1)] + run_actions(
            spec_next(s, evs[0].0, evs[0].1),
            evs.drop_first(),
        )
    }
}

/// How often an action occurs in a sequence of actions.
pub open spec fn count_action(acts: Seq<PlayerAction>, a: PlayerAction) -> int
    decreases acts.len(),
{
    if acts.len() == 0 {
        0
    } else {
        (if acts[0] == a {
            1int
        } else {
            0int
        }) + count_action(acts.drop_first(), a)
    }
}

proof fn lemma_count_cons(a: PlayerAction, acts: Seq<PlayerAction>, x: PlayerAction)
    ensures
        count_action(seq![a] + acts, x) == (if a == x {
            1int
        } else {
            0int
        }) + count_action(acts, x),
{
    assert((seq![a] + acts).drop_first() =~= acts);
}

/// Along any trace, the number of creations minus the number of disposals
/// equals the change in how many handles are live — and at most one handle
/// is ever live, so the two counts never drift apart.
pub proof fn lemma_lifecycle_balance(s: PlayerBinding, evs: Seq<(LifecycleEvent, bool)>)
    ensures
        count_action(run_actions(s, evs), PlayerAction::CreatePlayer) - count_action(
            run_actions(s, evs),
            PlayerAction::DisposePlayer,
        ) == (if run_state(s, evs).live {
            1int
        } else {
            0int
        }) - (if s.live {
            1int
        } else {
            0int
        }),
    decreases evs.len(),
{
    if evs.len() != 0 {
        let s1 = spec_next(s, evs[0].0, evs[0].1);
        let a0 = spec_action(s, evs[0].0, evs[0].1);
        lemma_lifecycle_balance(s1, evs.drop_first());
        lemma_count_cons(a0, run_actions(s1, evs.drop_first()), PlayerAction::CreatePlayer);
        lemma_count_cons(a0, run_actions(s1, evs.drop_first()), PlayerAction::DisposePlayer);
    }
}

/// Lifecycle ordering law: starting from a binding with no live handle, in
/// every prefix of every trace of lifecycle signals, disposal is never
/// demanded more often than creation — so no handle is disposed before it was
/// created — and creation never runs more than one ahead of disposal, so at
/// most one handle is live per element at a time.
pub proof fn lemma_lifecycle_ordering(s: PlayerBinding, evs: Seq<(LifecycleEvent, bool)>)
    requires
        !s.live,
    ensures
        forall|k: int|
            0 <= k <= evs.len() ==> count_action(
                #[trigger] run_actions(s, evs.take(k)),
                PlayerAction::DisposePlayer,
            ) <= count_action(run_actions(s, evs.take(k)), PlayerAction::CreatePlayer),
        forall|k: int|
            0 <= k <= evs.len() ==> count_action(
                #[trigger] run_actions(s, evs.take(k)),
                PlayerAction::CreatePlayer,
            ) <= count_action(run_actions(s, evs.take(k)), PlayerAction::DisposePlayer) + 1,
{
    assert forall|k: int| 0 <= k <= evs.len() implies count_action(
        #[trigger] run_actions(s, evs.take(k)),
        PlayerAction::DisposePlayer,
    ) <= count_action(run_actions(s, evs.take(k)), PlayerAction::CreatePlayer) && count_action(
        run_actions(s, evs.take(k)),
        PlayerAction::CreatePlayer,
    ) <= count_action(run_actions(s, evs.take(k)), PlayerAction::DisposePlayer) + 1 by {
        lemma_lifecycle_balance(s, evs.take(k));
    }
}

proof fn lemma_run_two(s: PlayerBinding, e1: (LifecycleEvent, bool), e2: (LifecycleEvent, bool))
    ensures
        run_actions(s, seq![e1, e2]) == seq![
            spec_action(s, e1.0, e1.1),
            spec_action(spec_next(s, e1.0, e1.1), e2.0, e2.1),
        ],
{
    let evs = seq![e1, e2];
    let rest = evs.drop_first();
    let s1 = spec_next(s, e1.0, e1.1);
    let s2 = spec_next(s1, e2.0, e2.1);
    assert(rest =~= seq![e2]);
    assert(rest.drop_first() =~= Seq::<(LifecycleEvent, bool)>::empty());
    assert(run_actions(s2, rest.drop_first()) =~= Seq::<PlayerAction>::empty());
    assert(run_actions(s1, rest) =~= seq![spec_action(s1, e2.0, e2.1)]
        + Seq::<PlayerAction>::empty());
    assert(run_actions(s, evs) =~= seq![spec_action(s, e1.0, e1.1)] + run_actions(s1, rest));
    assert(run_actions(s, evs) =~= seq![spec_action(s, e1.0, e1.1), spec_action(s1, e2.0, e2.1)]);
}

proof fn lemma_count_two(a: PlayerAction, b: PlayerAction, x: PlayerAction)
    ensures
        count_action(seq![a, b], x) == (if a == x {
            1int
        } else {
            0int
        }) + (if b == x {
            1int
        } else {
            0int
        }),
{
    assert(seq![b] =~= seq![b] + Seq::<PlayerAction>::empty());
    lemma_count_cons(b, Seq::empty(), x);
    assert(seq![a, b] =~= seq![a] + seq![b]);
    lemma_count_cons(a, seq![b], x);
}

/// Mount idempotence law: two mount signals with no unmount between them
/// create at most one handle, whatever state the binding starts in and
/// whether or not the element was ready the first time.
pub proof fn lemma_mount_twice_creates_at_most_once(s: PlayerBinding, r1: bool, r2: bool)
    ensures
        count_action(
            run_actions(s, seq![(LifecycleEvent::Mount, r1), (LifecycleEvent::Mount, r2)]),
            PlayerAction::CreatePlayer,
        ) <= 1,
{
    let s1 = spec_next(s, LifecycleEvent::Mount, r1);
    let a0 = spec_action(s, LifecycleEvent::Mount, r1);
    let a1 = spec_action(s1, LifecycleEvent::Mount, r2);
    lemma_run_two(s, (LifecycleEvent::Mount, r1), (LifecycleEvent::Mount, r2));
    lemma_count_two(a0, a1, PlayerAction::CreatePlayer);
}

/// Disposal idempotence law: two unmount signals with no mount between them
/// dispose at most once; the second is a no-op, never an error.
pub proof fn lemma_unmount_twice_disposes_at_most_once(s: PlayerBinding, r1: bool, r2: bool)
    ensures
        count_action(
            run_actions(s, seq![(LifecycleEvent::Unmount, r1), (LifecycleEvent::Unmount, r2)]),
            PlayerAction::DisposePlayer,
        ) <= 1,
        spec_action(spec_next(s, LifecycleEvent::Unmount, r1), LifecycleEvent::Unmount, r2)
            == PlayerAction::NoAction,
{
    let s1 = spec_next(s, LifecycleEvent::Unmount, r1);
    let a0 = spec_action(s, LifecycleEvent::Unmount, r1);
    let a1 = spec_action(s1, LifecycleEvent::Unmount, r2);
    lemma_run_two(s, (LifecycleEvent::Unmount, r1), (LifecycleEvent::Unmount, r2));
    lemma_count_two(a0, a1, PlayerAction::DisposePlayer);
}

/// A native binding never demands a creation or a disposal: the browser owns
/// native playback, so there is never a handle to create or release.
pub proof fn lemma_native_has_no_handle(s: PlayerBinding, ev: LifecycleEvent, ready: bool)
    requires
        !kind_uses_handle(s.kind),
        !s.live,
    ensures
        spec_action(s, ev, ready) == PlayerAction::NoAction,
        !spec_next(s, ev, ready).live,
{
}

} // verus!
