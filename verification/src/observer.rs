//! The observer registry: predicates evaluated against the state after every
//! committed mutation.
//!
//! Each observer waits for one call descriptor's terminal value. After a
//! mutation the registry is swept in registration order: an observer whose
//! value is present is satisfied — it yields a notification for its waiting
//! caller and is removed; the rest persist for the next sweep.

use vstd::prelude::*;

use crate::call::{CallId, ZomeFnCall};
use crate::error::HolochainErrorView;
use crate::state::{clone_zome_fn_result, result_view, table_get, NucleusState, ZomeFnResult};

verus! {

/// One registered observer: waits for this descriptor's terminal value.
pub struct Observer {
    pub call: ZomeFnCall,
}

impl View for Observer {
    type V = CallId;

    open spec fn view(&self) -> CallId {
        self.call@
    }
}

/// A satisfied observer's delivery: the descriptor and its terminal value.
pub struct Notification {
    pub call: ZomeFnCall,
    pub result: ZomeFnResult,
}

/// Mathematical model of a [`Notification`].
pub ghost struct NotificationView {
    pub call: CallId,
    pub result: Result<Seq<char>, HolochainErrorView>,
}

impl View for Notification {
    type V = NotificationView;

    open spec fn view(&self) -> NotificationView {
        NotificationView { call: self.call@, result: result_view(self.result) }
    }
}

/// An observer is satisfied exactly when the table holds a terminal value
/// for its descriptor.
pub open spec fn spec_observer_satisfied(
    entries: Seq<(CallId, Option<Result<Seq<char>, HolochainErrorView>>)>,
    c: CallId,
) -> bool {
    table_get(entries, c) matches Some(Some(_))
}

pub open spec fn observer_views(s: Seq<Observer>) -> Seq<CallId> {
    s.map(|i: int, o: Observer| o@)
}

pub open spec fn notification_views(s: Seq<Notification>) -> Seq<NotificationView> {
    s.map(|i: int, n: Notification| n@)
}

/// The notifications one sweep delivers: for each satisfied observer, in
/// registration order, its descriptor with the terminal value.
pub open spec fn spec_notifications(
    entries: Seq<(CallId, Option<Result<Seq<char>, HolochainErrorView>>)>,
    obs: Seq<CallId>,
) -> Seq<NotificationView>
    decreases obs.len(),
{
    if obs.len() == 0 {
        Seq::empty()
    } else {
        let rest = spec_notifications(entries, obs.drop_first());
        match table_get(entries, obs[0]) {
            Some(Some(r)) => seq![NotificationView { call: obs[0], result: r }] + rest,
            _ => rest,
        }
    }
}

/// The observers one sweep keeps: the unsatisfied ones, in order.
pub open spec fn spec_unsatisfied(
    entries: Seq<(CallId, Option<Result<Seq<char>, HolochainErrorView>>)>,
    obs: Seq<CallId>,
) -> Seq<CallId>
    decreases obs.len(),
{
    if obs.len() == 0 {
        Seq::empty()
    } else {
        let rest = spec_unsatisfied(entries, obs.drop_first());
        if spec_observer_satisfied(entries, obs[0]) {
            rest
        } else {
            seq![obs[0]] + rest
        }
    }
}

proof fn lemma_notifications_push(
    entries: Seq<(CallId, Option<Result<Seq<char>, HolochainErrorView>>)>,
    obs: Seq<CallId>,
    c: CallId,
)
    ensures
        spec_notifications(entries, obs.push(c)) == spec_notifications(entries, obs) + (
        match table_get(entries, c) {
            Some(Some(r)) => seq![NotificationView { call: c, result: r }],
            _ => Seq::<NotificationView>::empty(),
        }),
    decreases obs.len(),
{
    let tail = (match table_get(entries, c) {
        Some(Some(r)) => seq![NotificationView { call: c, result: r }],
        _ => Seq::<NotificationView>::empty(),
    });
    if obs.len() == 0 {
        assert(obs.push(c)[0] == c);
        assert(obs.push(c).drop_first() =~= Seq::<CallId>::empty());
        assert(spec_notifications(entries, Seq::<CallId>::empty())
            =~= Seq::<NotificationView>::empty());
        assert(spec_notifications(entries, obs.push(c)) =~= tail);
        assert(spec_notifications(entries, obs) + tail =~= tail);
    } else {
        assert(obs.push(c)[0] == obs[0]);
        assert(obs.push(c).drop_first() =~= obs.drop_first().push(c));
        lemma_notifications_push(entries, obs.drop_first(), c);
        match table_get(entries, obs[0]) {
            Some(Some(r)) => {
                assert(spec_notifications(entries, obs.push(c)) =~= seq![
                    NotificationView { call: obs[0], result: r },
                ] + (spec_notifications(entries, obs.drop_first()) + tail));
                assert(spec_notifications(entries, obs) + tail =~= seq![
                    NotificationView { call: obs[0], result: r },
                ] + (spec_notifications(entries, obs.drop_first()) + tail));
            },
            _ => {},
        }
    }
}

proof fn lemma_unsatisfied_push(
    entries: Seq<(CallId, Option<Result<Seq<char>, HolochainErrorView>>)>,
    obs: Seq<CallId>,
    c: CallId,
)
    ensures
        spec_unsatisfied(entries, obs.push(c)) == spec_unsatisfied(entries, obs) + (
        if spec_observer_satisfied(entries, c) {
            Seq::<CallId>::empty()
        } else {
            seq![c]
        }),
    decreases obs.len(),
{
    let tail = (if spec_observer_satisfied(entries, c) {
        Seq::<CallId>::empty()
    } else {
        seq![c]
    });
    if obs.len() == 0 {
        assert(obs.push(c)[0] == c);
        assert(obs.push(c).drop_first() =~= Seq::<CallId>::empty());
        assert(spec_unsatisfied(entries, Seq::<CallId>::empty()) =~= Seq::<CallId>::empty());
        assert(spec_unsatisfied(entries, obs.push(c)) =~= tail);
        assert(spec_unsatisfied(entries, obs) + tail =~= tail);
    } else {
        assert(obs.push(c)[0] == obs[0]);
        assert(obs.push(c).drop_first() =~= obs.drop_first().push(c));
        lemma_unsatisfied_push(entries, obs.drop_first(), c);
        if spec_observer_satisfied(entries, obs[0]) {
        } else {
            assert(spec_unsatisfied(entries, obs.push(c)) =~= seq![obs[0]] + (spec_unsatisfied(
                entries,
                obs.drop_first(),
            ) + tail));
            assert(spec_unsatisfied(entries, obs) + tail =~= seq![obs[0]] + (spec_unsatisfied(
                entries,
                obs.drop_first(),
            ) + tail));
        }
    }
}

/// Is this observer satisfied by the state? Answers the terminal value to
/// deliver, or nothing while the call is still absent or pending.
pub fn check_observer<'a>(state: &'a NucleusState, observer: &Observer) -> (r: Option<
    &'a ZomeFnResult,
>)
    ensures
        match r {
            Some(v) => table_get(state@.zome_calls, observer@) == Some(
                Some(result_view(*v)),
            ),
            None => !spec_observer_satisfied(state@.zome_calls, observer@),
        },
{
    state.zome_call_result(&observer.call)
}

/// Sweep the registry once against a post-mutation state: deliver a
/// notification for every satisfied observer and keep the rest, both in
/// registration order.
pub fn notify_observers(state: &NucleusState, observers: Vec<Observer>) -> (r: (
    Vec<Notification>,
    Vec<Observer>,
))
    ensures
        notification_views(r.0@) == spec_notifications(
            state@.zome_calls,
            observer_views(observers@),
        ),
        observer_views(r.1@) == spec_unsatisfied(state@.zome_calls, observer_views(observers@)),
{
    let mut notifications: Vec<Notification> = Vec::new();
    let mut remaining: Vec<Observer> = Vec::new();
    let n = observers.len();
    let mut i: usize = 0;
    proof {
        assert(observer_views(observers@.take(0)) =~= Seq::<CallId>::empty());
        assert(notification_views(notifications@) =~= Seq::<NotificationView>::empty());
        assert(observer_views(remaining@) =~= Seq::<CallId>::empty());
    }
    while i < n
        invariant
            i <= n,
            n == observers.len(),
            notification_views(notifications@) == spec_notifications(
                state@.zome_calls,
                observer_views(observers@.take(i as int)),
            ),
            observer_views(remaining@) == spec_unsatisfied(
                state@.zome_calls,
                observer_views(observers@.take(i as int)),
            ),
        decreases n - i,
    {
        let ghost prefix = observer_views(observers@.take(i as int));
        let ghost c = observers@[i as int]@;
        proof {
            assert(observers@.take(i + 1) =~= observers@.take(i as int).push(observers@[i as int]));
            assert(observer_views(observers@.take(i + 1)) =~= prefix.push(c));
            lemma_notifications_push(state@.zome_calls, prefix, c);
            lemma_unsatisfied_push(state@.zome_calls, prefix, c);
        }
        let observer = &observers[i];
        match check_observer(state, observer) {
            Some(v) => {
                let delivered = Notification {
                    call: observer.call.clone(),
                    result: clone_zome_fn_result(v),
                };
                notifications.push(delivered);
                proof {
                    assert(notification_views(notifications@) =~= spec_notifications(
                        state@.zome_calls,
                        prefix.push(c),
                    ));
                    assert(observer_views(remaining@) =~= spec_unsatisfied(
                        state@.zome_calls,
                        prefix.push(c),
                    ));
                }
            },
            None => {
                remaining.push(Observer { call: observer.call.clone() });
                proof {
                    assert(observer_views(remaining@) =~= spec_unsatisfied(
                        state@.zome_calls,
                        prefix.push(c),
                    ));
                    assert(notification_views(notifications@) =~= spec_notifications(
                        state@.zome_calls,
                        prefix.push(c),
                    ));
                }
            },
        }
        i = i + 1;
    }
    proof {
        assert(observers@.take(n as int) =~= observers@);
    }
    (notifications, remaining)
}

} // verus!
