use vstd::prelude::*;

use crate::window::AppAction;

verus! {

/// The queue of effects of an application context: the actions waiting to be
/// sent to the event loop, the actions sent but not yet received back, and
/// how deep the running updates are nested. Effects are sent when the
/// outermost update ends.
#[derive(Debug)]
pub struct EffectQueue {
    pending_updates: usize,
    flushing_effects: bool,
    pending_user_events: Vec<AppAction>,
    effects: Vec<AppAction>,
}

/// `s` holds no action twice.
pub open spec fn no_repeats(s: Seq<AppAction>) -> bool {
    forall|i: int, j: int| 0 <= i < j < s.len() ==> #[trigger] s[i] != #[trigger] s[j]
}

/// The actions pending and queued after `action` is pushed onto `pending`
/// and `effects`: an action that is already pending is dropped, any other
/// is marked pending and queued last.
pub open spec fn after_push(pending: Set<AppAction>, effects: Seq<AppAction>, action: AppAction) -> (
    Set<AppAction>,
    Seq<AppAction>,
) {
    if pending.contains(action) {
        (pending, effects)
    } else {
        (pending.insert(action), effects.push(action))
    }
}

/// Pushing an action twice leaves what pushing it once leaves.
pub proof fn lemma_push_idempotent(pending: Set<AppAction>, effects: Seq<AppAction>, action: AppAction)
    ensures
        after_push(after_push(pending, effects, action).0, after_push(pending, effects, action).1, action)
            == after_push(pending, effects, action),
{
}

impl EffectQueue {
    /// The actions sent or waiting to be sent, not yet received back.
    pub closed spec fn pending(&self) -> Set<AppAction> {
        self.pending_user_events@.to_set()
    }

    /// The actions waiting to be sent, oldest first.
    pub closed spec fn queued(&self) -> Seq<AppAction> {
        self.effects@
    }

    /// How many updates are running, one inside the other.
    pub closed spec fn depth(&self) -> nat {
        self.pending_updates as nat
    }

    /// Whether the queue is being sent.
    pub closed spec fn is_flushing(&self) -> bool {
        self.flushing_effects
    }

    /// No action is pending twice.
    pub closed spec fn wf(&self) -> bool {
        no_repeats(self.pending_user_events@)
    }

    /// Each queued action is pending, and none is queued twice. This holds
    /// as long as the loop receives no action before it is sent.
    pub open spec fn is_consistent(&self) -> bool {
        &&& no_repeats(self.queued())
        &&& forall|i: int| 0 <= i < self.queued().len() ==> self.pending().contains(#[trigger] self.queued()[i])
    }

    /// No update running, nothing pending or queued.
    pub fn new() -> (r: Self)
        ensures
            r.wf(),
            r.is_consistent(),
            r.pending() == Set::<AppAction>::empty(),
            r.queued() == Seq::<AppAction>::empty(),
            r.depth() == 0,
            !r.is_flushing(),
    {
        let r = EffectQueue {
            pending_updates: 0,
            flushing_effects: false,
            pending_user_events: Vec::new(),
            effects: Vec::new(),
        };
        proof {
            assert(r.pending_user_events@.to_set() =~= Set::<AppAction>::empty());
        }
        r
    }

    /// Queues `action` unless it is already pending; says whether it was queued.
    pub fn push_effect(&mut self, action: AppAction) -> (queued: bool)
        requires
            old(self).wf(),
        ensures
            final(self).wf(),
            old(self).is_consistent() ==> final(self).is_consistent(),
            queued == !old(self).pending().contains(action),
            (final(self).pending(), final(self).queued()) == after_push(
                old(self).pending(),
                old(self).queued(),
                action,
            ),
            final(self).depth() == old(self).depth(),
            final(self).is_flushing() == old(self).is_flushing(),
    {
        let mut i: usize = 0;
        while i < self.pending_user_events.len()
            invariant
                *self == *old(self),
                old(self).wf(),
                i <= self.pending_user_events@.len(),
                forall|j: int| 0 <= j < i ==> self.pending_user_events@[j] != action,
            decreases self.pending_user_events@.len() - i,
        {
            if self.pending_user_events[i] == action {
                proof {
                    assert(self.pending_user_events@.to_set().contains(self.pending_user_events@[i as int]));
                }
                return false;
            }
            i = i + 1;
        }
        proof {
            assert(!self.pending_user_events@.contains(action));
            assert(!self.pending_user_events@.to_set().contains(action));
        }
        let ghost before = *self;
        self.pending_user_events.push(action);
        self.effects.push(action);
        proof {
            assert forall|x: AppAction| #[trigger] self.pending_user_events@.to_set().contains(x)
                == before.pending_user_events@.to_set().insert(action).contains(x) by {
                if before.pending_user_events@.contains(x) {
                    let w = choose|w: int| 0 <= w < before.pending_user_events@.len() && before.pending_user_events@[w] == x;
                    assert(self.pending_user_events@[w] == x);
                }
                if x == action {
                    assert(self.pending_user_events@[before.pending_user_events@.len() as int] == x);
                }
                if self.pending_user_events@.contains(x) {
                    let w = choose|w: int| 0 <= w < self.pending_user_events@.len() && self.pending_user_events@[w] == x;
                    if w < before.pending_user_events@.len() {
                        assert(before.pending_user_events@[w] == x);
                    }
                }
            }
            assert(self.pending_user_events@.to_set() =~= before.pending_user_events@.to_set().insert(action));
            assert forall|a: int, b: int| 0 <= a < b < self.pending_user_events@.len() implies #[trigger] self.pending_user_events@[a]
                != #[trigger] self.pending_user_events@[b] by {
                if b == before.pending_user_events@.len() {
                    assert(before.pending_user_events@.contains(before.pending_user_events@[a]));
                }
            }
            if before.is_consistent() {
                assert forall|a: int, b: int| 0 <= a < b < self.effects@.len() implies #[trigger] self.effects@[a]
                    != #[trigger] self.effects@[b] by {
                    if b == before.effects@.len() {
                        assert(before.pending().contains(before.effects@[a]));
                    }
                }
                assert forall|k: int| 0 <= k < self.queued().len() implies self.pending().contains(
                    #[trigger] self.queued()[k],
                ) by {
                    if k < before.effects@.len() {
                        assert(before.pending().contains(before.effects@[k]));
                    }
                }
            }
        }
        true
    }

    /// Takes every queued action, oldest first, to be sent.
    pub fn flush_effects(&mut self) -> (sent: Vec<AppAction>)
        requires
            old(self).wf(),
        ensures
            final(self).wf(),
            final(self).is_consistent(),
            sent@ == old(self).queued(),
            final(self).queued() == Seq::<AppAction>::empty(),
            final(self).pending() == old(self).pending(),
            final(self).depth() == old(self).depth(),
            !final(self).is_flushing(),
    {
        self.flushing_effects = true;
        let mut sent: Vec<AppAction> = Vec::new();
        std::mem::swap(&mut sent, &mut self.effects);
        self.flushing_effects = false;
        sent
    }

    /// How many updates are running, one inside the other.
    pub fn pending_updates(&self) -> (r: usize)
        ensures
            r == self.depth(),
    {
        self.pending_updates
    }

    /// Starts an update.
    pub fn begin_update(&mut self)
        requires
            old(self).wf(),
            old(self).depth() < usize::MAX,
        ensures
            final(self).wf(),
            old(self).is_consistent() ==> final(self).is_consistent(),
            final(self).depth() == old(self).depth() + 1,
            final(self).pending() == old(self).pending(),
            final(self).queued() == old(self).queued(),
            final(self).is_flushing() == old(self).is_flushing(),
    {
        self.pending_updates = self.pending_updates + 1;
    }

    /// Ends an update. When it is the outermost one (and no flush is
    /// running), every queued action is taken, oldest first, to be sent;
    /// otherwise nothing is.
    pub fn end_update(&mut self) -> (sent: Vec<AppAction>)
        requires
            old(self).wf(),
            old(self).depth() > 0,
        ensures
            final(self).wf(),
            old(self).is_consistent() ==> final(self).is_consistent(),
            final(self).depth() == old(self).depth() - 1,
            final(self).pending() == old(self).pending(),
            final(self).is_flushing() == old(self).is_flushing(),
            !old(self).is_flushing() && old(self).depth() == 1 ==> sent@ == old(self).queued()
                && final(self).queued() == Seq::<AppAction>::empty(),
            !(!old(self).is_flushing() && old(self).depth() == 1) ==> sent@ == Seq::<AppAction>::empty()
                && final(self).queued() == old(self).queued(),
    {
        let sent = if !self.flushing_effects && self.pending_updates == 1 {
            self.flush_effects()
        } else {
            Vec::new()
        };
        self.pending_updates = self.pending_updates - 1;
        sent
    }

    /// Queues `action` inside an update of its own, and takes what that
    /// update sends.
    pub fn update_with_effect(&mut self, action: AppAction) -> (sent: Vec<AppAction>)
        requires
            old(self).wf(),
            old(self).depth() < usize::MAX,
        ensures
            final(self).wf(),
            old(self).is_consistent() ==> final(self).is_consistent(),
            final(self).depth() == old(self).depth(),
            final(self).is_flushing() == old(self).is_flushing(),
            final(self).pending() == after_push(old(self).pending(), old(self).queued(), action).0,
            !old(self).is_flushing() && old(self).depth() == 0 ==> sent@ == after_push(
                old(self).pending(),
                old(self).queued(),
                action,
            ).1 && final(self).queued() == Seq::<AppAction>::empty(),
            !(!old(self).is_flushing() && old(self).depth() == 0) ==> sent@ == Seq::<AppAction>::empty()
                && final(self).queued() == after_push(old(self).pending(), old(self).queued(), action).1,
    {
        self.begin_update();
        self.push_effect(action);
        self.end_update()
    }

    /// Asks the loop to quit: queues `Quit` inside an update of its own.
    pub fn quit(&mut self) -> (sent: Vec<AppAction>)
        requires
            old(self).wf(),
            old(self).depth() < usize::MAX,
        ensures
            final(self).wf(),
            old(self).is_consistent() ==> final(self).is_consistent(),
            final(self).depth() == old(self).depth(),
            final(self).is_flushing() == old(self).is_flushing(),
            final(self).pending() == after_push(old(self).pending(), old(self).queued(), AppAction::Quit).0,
            !old(self).is_flushing() && old(self).depth() == 0 ==> sent@ == after_push(
                old(self).pending(),
                old(self).queued(),
                AppAction::Quit,
            ).1 && final(self).queued() == Seq::<AppAction>::empty(),
            !(!old(self).is_flushing() && old(self).depth() == 0) ==> sent@ == Seq::<AppAction>::empty()
                && final(self).queued() == after_push(old(self).pending(), old(self).queued(), AppAction::Quit).1,
    {
        self.update_with_effect(AppAction::Quit)
    }

    /// The loop has received `action`: it is no longer pending.
    pub fn user_event(&mut self, action: AppAction)
        requires
            old(self).wf(),
        ensures
            final(self).wf(),
            old(self).is_consistent() && !old(self).queued().contains(action) ==> final(self).is_consistent(),
            final(self).pending() == old(self).pending().remove(action),
            final(self).queued() == old(self).queued(),
            final(self).depth() == old(self).depth(),
            final(self).is_flushing() == old(self).is_flushing(),
    {
        let ghost before = *self;
        let mut i: usize = 0;
        let n = self.pending_user_events.len();
        while i < n
            invariant
                i <= n,
                n == self.pending_user_events@.len(),
                *self == before,
                before == *old(self),
                before.wf(),
                forall|j: int| 0 <= j < i ==> self.pending_user_events@[j] != action,
            decreases n - i,
        {
            if self.pending_user_events[i] == action {
                self.pending_user_events.remove(i);
                proof {
                    let old_p = before.pending_user_events@;
                    let new_p = self.pending_user_events@;
                    assert(new_p =~= old_p.remove(i as int));
                    assert forall|x: AppAction| #[trigger] new_p.to_set().contains(x) == old_p.to_set().remove(action).contains(x) by {
                        if new_p.contains(x) {
                            let w = choose|w: int| 0 <= w < new_p.len() && new_p[w] == x;
                            if w < i {
                                assert(old_p[w] == x);
                            } else {
                                assert(old_p[w + 1] == x);
                                assert(old_p[i as int] != old_p[w + 1]);
                            }
                        }
                        if old_p.contains(x) && x != action {
                            let w = choose|w: int| 0 <= w < old_p.len() && old_p[w] == x;
                            if w < i {
                                assert(new_p[w] == x);
                            } else {
                                assert(w != i);
                                assert(new_p[w - 1] == x);
                            }
                        }
                    }
                    assert(new_p.to_set() =~= old_p.to_set().remove(action));
                    assert forall|a: int, b: int| 0 <= a < b < new_p.len() implies #[trigger] new_p[a]
                        != #[trigger] new_p[b] by {
                        let oa = if a < i { a } else { a + 1 };
                        let ob = if b < i { b } else { b + 1 };
                        assert(new_p[a] == old_p[oa]);
                        assert(new_p[b] == old_p[ob]);
                    }
                    if before.is_consistent() && !before.queued().contains(action) {
                        assert forall|k: int| 0 <= k < self.queued().len() implies self.pending().contains(
                            #[trigger] self.queued()[k],
                        ) by {
                            let e = self.effects@[k];
                            assert(before.pending().contains(e));
                            assert(e != action);
                        }
                    }
                }
                return;
            }
            i = i + 1;
        }
        proof {
            assert(!before.pending_user_events@.contains(action));
            assert(before.pending_user_events@.to_set().remove(action) =~= before.pending_user_events@.to_set());
        }
    }
}

} // verus!
