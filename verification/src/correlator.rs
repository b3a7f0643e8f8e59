//! The subscription callback that turns a notification into the completion
//! of the execution it is for.
//!
//! Every subscription hears the notifications of all executions in flight.
//! The one that belongs to the execution with token `t` acts on a
//! notification only if it names `t`; it then takes that execution's entry
//! out of the registry and completes it. Whatever else arrives (a payload
//! that cannot be read, one without a token, one for another execution, one
//! that comes after the entry has gone) changes nothing.

use crate::envelope::Envelope;
use crate::notification::{
    decode_notification, decoded, envelope_of, resolution, Notification, NotificationView,
};
use crate::registry::{waiting, without, Pending, PendingRegistry};
use vstd::prelude::*;
use vstd::string::*;

verus! {

/// What a subscription made of a notification.
#[derive(Clone, Copy, Debug, PartialEq, Eq, Structural)]
pub enum Disposition {
    /// The payload is not a JSON object.
    Malformed,
    /// The payload names no token.
    Unaddressed,
    /// The payload names the token of another execution.
    Foreign,
    /// The payload names this execution, whose entry has gone already.
    Late,
    /// The payload names this execution, whose entry was taken out and
    /// completed.
    Resolved,
}

/// What the subscription of the execution with `token` makes of a
/// notification, given the entries that wait.
pub open spec fn disposition(pending: Pending, token: Seq<char>, n: NotificationView)
    -> Disposition {
    match n.exec_id {
        None => Disposition::Unaddressed,
        Some(id) => if id != token {
            Disposition::Foreign
        } else if pending.contains_key(token) {
            Disposition::Resolved
        } else {
            Disposition::Late
        },
    }
}

/// What the subscription of the execution with `token` makes of a raw
/// payload, given the entries that wait.
pub open spec fn raw_disposition(pending: Pending, token: Seq<char>, raw: Seq<char>)
    -> Disposition {
    match decoded(raw) {
        None => Disposition::Malformed,
        Some(n) => disposition(pending, token, n),
    }
}

/// The entries that wait once a subscription has dealt with a notification
/// in the way `d`.
pub open spec fn settled(pending: Pending, token: Seq<char>, d: Disposition) -> Pending {
    if d == Disposition::Resolved {
        without(pending, token)
    } else {
        pending
    }
}

/// The entries that wait once the subscriptions of the executions with
/// `tokens` have each dealt with the notification `n`, one after the other.
/// Every subscription hears every notification.
pub open spec fn heard(pending: Pending, tokens: Seq<Seq<char>>, n: NotificationView) -> Pending
    decreases tokens.len(),
{
    if tokens.len() == 0 {
        pending
    } else {
        let before = heard(pending, tokens.drop_last(), n);
        settled(before, tokens.last(), disposition(before, tokens.last(), n))
    }
}

/// The number of those subscriptions that resolved their execution with `n`.
pub open spec fn resolved_by(pending: Pending, tokens: Seq<Seq<char>>, n: NotificationView) -> nat
    decreases tokens.len(),
{
    if tokens.len() == 0 {
        0
    } else {
        let before = heard(pending, tokens.drop_last(), n);
        let others = resolved_by(pending, tokens.drop_last(), n);
        if disposition(before, tokens.last(), n) == Disposition::Resolved {
            others + 1
        } else {
            others
        }
    }
}

/// The entries that wait once the subscriptions of the executions with
/// `tokens` have heard the notifications `arrivals`, in the order in which
/// these arrived.
pub open spec fn heard_all(
    pending: Pending,
    tokens: Seq<Seq<char>>,
    arrivals: Seq<NotificationView>,
) -> Pending
    decreases arrivals.len(),
{
    if arrivals.len() == 0 {
        pending
    } else {
        heard(heard_all(pending, tokens, arrivals.drop_last()), tokens, arrivals.last())
    }
}

/// Some notification among `arrivals` names `token`.
pub open spec fn names(arrivals: Seq<NotificationView>, token: Seq<char>) -> bool {
    exists|j: int| 0 <= j < arrivals.len() && (#[trigger] arrivals[j]).exec_id == Some(token)
}

/// Deals with a notification on behalf of the execution with `token`.
///
/// Where the notification names `token` and that execution still waits, its
/// entry is taken out of the registry and its channel gets the
/// notification's envelope. In every other case the registry stays as it is.
pub fn correlate(registry: &mut PendingRegistry, token: &str, notification: Notification) -> (d:
    Disposition)
    ensures
        d == disposition(old(registry)@, token@, notification@),
        final(registry)@ == settled(old(registry)@, token@, d),
{
    if notification.exec_id.is_none() {
        return Disposition::Unaddressed;
    }
    if !notification.is_for(token) {
        return Disposition::Foreign;
    }
    let envelope = notification.into_envelope();
    if registry.take_and_complete(token, envelope) {
        Disposition::Resolved
    } else {
        Disposition::Late
    }
}

/// Deals with a raw payload on behalf of the execution with `token`: reads
/// it and, where it can be read, hands it to [`correlate`].
pub fn on_notification(registry: &mut PendingRegistry, token: &str, raw: &str) -> (d: Disposition)
    ensures
        d == raw_disposition(old(registry)@, token@, raw@),
        final(registry)@ == settled(old(registry)@, token@, d),
{
    match decode_notification(raw) {
        Ok(notification) => correlate(registry, token, notification),
        Err(_) => Disposition::Malformed,
    }
}

/// A notification that names another token than the one a subscription is
/// bound to resolves nothing there: the entries that wait, that of the bound
/// execution among them, stay as they are.
pub proof fn lemma_foreign_token_is_ignored(
    pending: Pending,
    token: Seq<char>,
    n: NotificationView,
)
    requires
        n.exec_id != Some(token),
    ensures
        disposition(pending, token, n) != Disposition::Resolved,
        settled(pending, token, disposition(pending, token, n)) == pending,
{
}

/// A payload that cannot be read, or that names no token, resolves nothing,
/// whichever execution the subscription is bound to.
pub proof fn lemma_malformed_is_ignored(pending: Pending, token: Seq<char>, raw: Seq<char>)
    requires
        decoded(raw) matches Some(n) ==> n.exec_id is None,
    ensures
        raw_disposition(pending, token, raw) == Disposition::Malformed || raw_disposition(
            pending,
            token,
            raw,
        ) == Disposition::Unaddressed,
        settled(pending, token, raw_disposition(pending, token, raw)) == pending,
{
}

/// What a notification does to the registry when every subscription has
/// heard it: it takes out the entry of the execution it names, if that
/// execution is among the subscribed ones, and nothing else; and it is
/// resolved by one subscription where that entry waited, and by none
/// otherwise.
pub proof fn lemma_heard(pending: Pending, tokens: Seq<Seq<char>>, n: NotificationView)
    requires
        tokens.no_duplicates(),
    ensures
        heard(pending, tokens, n) == match n.exec_id {
            Some(token) => if tokens.contains(token) {
                without(pending, token)
            } else {
                pending
            },
            None => pending,
        },
        resolved_by(pending, tokens, n) == match n.exec_id {
            Some(token) => if tokens.contains(token) && pending.contains_key(token) {
                1nat
            } else {
                0nat
            },
            None => 0nat,
        },
    decreases tokens.len(),
{
    if tokens.len() > 0 {
        let front = tokens.drop_last();
        lemma_heard(pending, front, n);
        match n.exec_id {
            Some(token) => {
                if tokens.last() == token {
                    assert(!front.contains(token)) by {
                        if front.contains(token) {
                            let i = choose|i: int| 0 <= i < front.len() && front[i] == token;
                            assert(tokens[i] == tokens[tokens.len() - 1]);
                        }
                    }
                    assert(tokens.contains(token)) by {
                        assert(tokens[tokens.len() - 1] == token);
                    }
                } else {
                    if front.contains(token) {
                        let i = choose|i: int| 0 <= i < front.len() && front[i] == token;
                        assert(tokens[i] == token);
                    }
                    if tokens.contains(token) {
                        let i = choose|i: int| 0 <= i < tokens.len() && tokens[i] == token;
                        assert(front[i] == token);
                    }
                }
            },
            None => {},
        }
    }
}

/// What a run of notifications leaves of the registry when every
/// subscription has heard each of them: the entries of the subscribed
/// executions that some notification named are gone, and every other entry
/// is as it was.
pub proof fn lemma_heard_all(
    pending: Pending,
    tokens: Seq<Seq<char>>,
    arrivals: Seq<NotificationView>,
    key: Seq<char>,
)
    requires
        tokens.no_duplicates(),
    ensures
        waiting(heard_all(pending, tokens, arrivals), key) == if tokens.contains(key) && names(
            arrivals,
            key,
        ) {
            None
        } else {
            waiting(pending, key)
        },
    decreases arrivals.len(),
{
    if arrivals.len() > 0 {
        let earlier = arrivals.drop_last();
        let last = arrivals.last();
        lemma_heard_all(pending, tokens, earlier, key);
        lemma_heard(heard_all(pending, tokens, earlier), tokens, last);
        if names(earlier, key) {
            let j = choose|j: int| 0 <= j < earlier.len() && (#[trigger] earlier[j]).exec_id == Some(
                key,
            );
            assert(arrivals[j].exec_id == Some(key));
        }
        if last.exec_id == Some(key) {
            assert(arrivals[arrivals.len() - 1].exec_id == Some(key));
        }
        if names(arrivals, key) && last.exec_id != Some(key) {
            let j = choose|j: int| 0 <= j < arrivals.len() && (#[trigger] arrivals[j]).exec_id == Some(
                key,
            );
            assert(earlier[j].exec_id == Some(key));
        }
    }
}

/// Of any number of executions in flight, each is completed by its own
/// notification and by no other, in whatever order the notifications
/// arrive. Given distinct tokens that all wait, and one notification for
/// some of them in any order:
///
/// - a notification means its own envelope to the subscription of the
///   execution that it names and nothing to any other, and it names one
///   execution only;
/// - when it arrives, exactly one subscription resolves its execution with
///   it, whatever arrived before;
/// - once all have arrived, none of the executions that were named waits
///   any longer, and every other entry is as it was.
pub proof fn lemma_each_its_own(
    pending: Pending,
    tokens: Seq<Seq<char>>,
    arrivals: Seq<NotificationView>,
)
    requires
        tokens.no_duplicates(),
        forall|i: int| 0 <= i < tokens.len() ==> pending.contains_key(#[trigger] tokens[i]),
        forall|j: int|
            0 <= j < arrivals.len() ==> (#[trigger] arrivals[j]).exec_id is Some && tokens.contains(
                arrivals[j].exec_id->0,
            ),
        forall|j: int, k: int|
            0 <= j < k < arrivals.len() ==> (#[trigger] arrivals[j]).exec_id != (
            #[trigger] arrivals[k]).exec_id,
    ensures
        forall|j: int, i: int|
            0 <= j < arrivals.len() && 0 <= i < tokens.len() ==> #[trigger] resolution(
                tokens[i],
                arrivals[j],
            ) == if arrivals[j].exec_id == Some(tokens[i]) {
                Some(envelope_of(arrivals[j]))
            } else {
                None
            },
        forall|j: int, i: int, k: int|
            0 <= j < arrivals.len() && 0 <= i < tokens.len() && 0 <= k < tokens.len()
                && #[trigger] resolution(tokens[i], arrivals[j]) is Some && #[trigger] resolution(
                tokens[k],
                arrivals[j],
            ) is Some ==> i == k,
        forall|j: int|
            0 <= j < arrivals.len() ==> resolved_by(
                heard_all(pending, tokens, #[trigger] arrivals.take(j)),
                tokens,
                arrivals[j],
            ) == 1,
        forall|i: int|
            0 <= i < tokens.len() && names(arrivals, #[trigger] tokens[i]) ==> !heard_all(
                pending,
                tokens,
                arrivals,
            ).contains_key(tokens[i]),
        forall|key: Seq<char>|
            !tokens.contains(key) ==> #[trigger] waiting(heard_all(pending, tokens, arrivals), key)
                == waiting(pending, key),
{
    assert forall|j: int| 0 <= j < arrivals.len() implies resolved_by(
        heard_all(pending, tokens, #[trigger] arrivals.take(j)),
        tokens,
        arrivals[j],
    ) == 1 by {
        let token = arrivals[j].exec_id->0;
        let earlier = arrivals.take(j);
        lemma_heard_all(pending, tokens, earlier, token);
        if names(earlier, token) {
            let m = choose|m: int| 0 <= m < earlier.len() && (#[trigger] earlier[m]).exec_id == Some(
                token,
            );
            assert(arrivals[m].exec_id != arrivals[j].exec_id);
        }
        let i = choose|i: int| 0 <= i < tokens.len() && tokens[i] == token;
        assert(pending.contains_key(tokens[i]));
        lemma_heard(heard_all(pending, tokens, earlier), tokens, arrivals[j]);
    }
    assert forall|i: int| 0 <= i < tokens.len() && names(arrivals, #[trigger] tokens[i]) implies
        !heard_all(pending, tokens, arrivals).contains_key(tokens[i]) by {
        lemma_heard_all(pending, tokens, arrivals, tokens[i]);
    }
    assert forall|key: Seq<char>| !tokens.contains(key) implies #[trigger] waiting(
        heard_all(pending, tokens, arrivals),
        key,
    ) == waiting(pending, key) by {
        lemma_heard_all(pending, tokens, arrivals, key);
    }
}

} // verus!
