//! The registry of executions that wait for their outcome.

use crate::channel::{deliver, open_channel};
use crate::envelope::Envelope;
use tokio::sync::oneshot::{Receiver, Sender};
use vstd::prelude::*;
use vstd::string::*;

verus! {

/// What a registry stands for: a mapping from the tokens of the waiting
/// executions to the sending halves of their result channels.
pub type Pending = Map<Seq<char>, Sender<Envelope>>;

/// The sender that waits under `token`, if one does.
pub open spec fn waiting(pending: Pending, token: Seq<char>) -> Option<Sender<Envelope>> {
    if pending.contains_key(token) {
        Some(pending[token])
    } else {
        None
    }
}

/// `pending` once the entry under `token`, if any, has been taken out.
pub open spec fn without(pending: Pending, token: Seq<char>) -> Pending {
    pending.remove(token)
}

/// One waiting execution: its token and the sending half of its result
/// channel.
struct PendingEntry {
    token: String,
    sender: Sender<Envelope>,
}

/// No token stands in `entries` twice.
spec fn distinct(entries: Seq<PendingEntry>) -> bool {
    forall|i: int, j: int|
        0 <= i < j < entries.len() ==> (#[trigger] entries[i]).token@ != (
        #[trigger] entries[j]).token@
}

/// Some entry of `entries` bears `token`.
spec fn holds(entries: Seq<PendingEntry>, token: Seq<char>) -> bool {
    exists|i: int| 0 <= i < entries.len() && (#[trigger] entries[i]).token@ == token
}

/// The index of an entry of `entries` that bears `token`.
spec fn position(entries: Seq<PendingEntry>, token: Seq<char>) -> int {
    choose|i: int| 0 <= i < entries.len() && (#[trigger] entries[i]).token@ == token
}

/// The mapping that `entries` stands for: each token to its sender.
spec fn table(entries: Seq<PendingEntry>) -> Pending {
    Map::new(
        |token: Seq<char>| holds(entries, token),
        |token: Seq<char>| entries[position(entries, token)].sender,
    )
}

/// With distinct tokens, the entry at `i` is the one found under its token.
proof fn lemma_position(entries: Seq<PendingEntry>, i: int)
    requires
        distinct(entries),
        0 <= i < entries.len(),
    ensures
        holds(entries, entries[i].token@),
        position(entries, entries[i].token@) == i,
{
}

/// Appending an entry under a token that is not there yet inserts it into
/// the mapping.
proof fn lemma_table_push(entries: Seq<PendingEntry>, entry: PendingEntry)
    requires
        distinct(entries),
        !holds(entries, entry.token@),
    ensures
        distinct(entries.push(entry)),
        table(entries.push(entry)) == table(entries).insert(entry.token@, entry.sender),
{
    let grown = entries.push(entry);
    assert forall|token: Seq<char>| holds(grown, token) <==> (holds(entries, token) || token
        == entry.token@) by {
        if holds(entries, token) {
            assert(grown[position(entries, token)].token@ == token);
        }
        if token == entry.token@ {
            assert(grown[entries.len() as int].token@ == token);
        }
    }
    assert forall|token: Seq<char>| holds(grown, token) implies #[trigger] table(grown)[token]
        == table(entries).insert(entry.token@, entry.sender)[token] by {
        let i = position(grown, token);
        lemma_position(grown, i);
        if i < entries.len() {
            lemma_position(entries, i);
        }
    }
}

/// Removing the entry at `at` removes its token from the mapping.
proof fn lemma_table_remove(entries: Seq<PendingEntry>, at: int)
    requires
        distinct(entries),
        0 <= at < entries.len(),
    ensures
        distinct(entries.remove(at)),
        table(entries.remove(at)) == table(entries).remove(entries[at].token@),
{
    let rest = entries.remove(at);
    let gone = entries[at].token@;
    assert forall|token: Seq<char>| holds(rest, token) <==> (holds(entries, token) && token
        != gone) by {
        if holds(rest, token) {
            let i = position(rest, token);
            lemma_position(entries, if i < at { i } else { i + 1 });
            lemma_position(entries, at);
        }
        if holds(entries, token) && token != gone {
            let a = position(entries, token);
            assert(rest[if a < at { a } else { a - 1 }].token@ == token);
        }
    }
    assert forall|token: Seq<char>| holds(rest, token) implies #[trigger] table(rest)[token]
        == table(entries)[token] by {
        let i = position(rest, token);
        lemma_position(rest, i);
        lemma_position(entries, if i < at { i } else { i + 1 });
    }
}

/// With distinct tokens, the mapping has as many keys as there are entries.
proof fn lemma_table_len(entries: Seq<PendingEntry>)
    requires
        distinct(entries),
    ensures
        table(entries).dom().finite(),
        table(entries).dom().len() == entries.len(),
    decreases entries.len(),
{
    if entries.len() == 0 {
        assert(table(entries).dom() =~= Set::<Seq<char>>::empty());
    } else {
        let front = entries.drop_last();
        let last = entries.last();
        assert(front.push(last) =~= entries);
        lemma_table_len(front);
        lemma_table_push(front, last);
    }
}

/// The executions that have been registered and not yet resolved or
/// discarded, each under its token.
///
/// The registry is a mapping from tokens to the sending halves of result
/// channels. An entry leaves it in the same step in which it is handed out,
/// so of two parties that ask for one token's entry at most one gets it.
pub struct PendingRegistry {
    entries: Vec<PendingEntry>,
}

impl View for PendingRegistry {
    type V = Pending;

    closed spec fn view(&self) -> Pending {
        table(self.entries@)
    }
}

/// The index in `entries` of the entry that bears `token`, if there is one.
fn find(entries: &Vec<PendingEntry>, token: &String) -> (at: Option<usize>)
    ensures
        match at {
            Some(i) => i < entries.len() && entries@[i as int].token@ == token@,
            None => !holds(entries@, token@),
        },
{
    let mut i: usize = 0;
    while i < entries.len()
        invariant
            i <= entries.len(),
            forall|j: int| 0 <= j < i ==> (#[trigger] entries@[j]).token@ != token@,
        decreases entries.len() - i,
    {
        if entries[i].token == *token {
            return Some(i);
        }
        i += 1;
    }
    None
}

impl PendingRegistry {
    /// No token stands in the registry twice.
    #[verifier::type_invariant]
    spec fn well_formed(self) -> bool {
        distinct(self.entries@)
    }

    /// An empty registry.
    pub fn new() -> (r: PendingRegistry)
        ensures
            r@ == Pending::empty(),
    {
        PendingRegistry { entries: Vec::new() }
    }

    /// Puts `sender` into the registry under `token`. An entry that stood
    /// under `token` before is dropped, which closes its channel.
    pub fn insert(&mut self, token: String, sender: Sender<Envelope>)
        ensures
            final(self)@ == old(self)@.insert(token@, sender),
    {
        proof {
            use_type_invariant(&*self);
        }
        let mut entries: Vec<PendingEntry> = Vec::new();
        std::mem::swap(&mut entries, &mut self.entries);
        let ghost before = entries@;
        match find(&entries, &token) {
            Some(i) => {
                proof {
                    lemma_table_remove(before, i as int);
                    lemma_position(before, i as int);
                }
                let _ = entries.remove(i);
            },
            None => {},
        }
        let entry = PendingEntry { token, sender };
        proof {
            lemma_table_push(entries@, entry);
            assert(table(before).remove(entry.token@).insert(entry.token@, entry.sender)
                =~= table(before).insert(entry.token@, entry.sender));
        }
        entries.push(entry);
        self.entries = entries;
    }

    /// Opens a fresh single-use channel, keeps its sending half under
    /// `token` and returns its receiving half.
    pub fn register(&mut self, token: String) -> (receiver: Receiver<Envelope>)
        ensures
            final(self)@ == old(self)@.insert(token@, final(self)@[token@]),
    {
        let (sender, receiver) = open_channel();
        self.insert(token, sender);
        receiver
    }

    /// Removes the entry under `token`, if there is one, and hands out its
    /// sender without completing it.
    pub fn take(&mut self, token: &str) -> (sender: Option<Sender<Envelope>>)
        ensures
            sender == waiting(old(self)@, token@),
            final(self)@ == without(old(self)@, token@),
    {
        proof {
            use_type_invariant(&*self);
        }
        let key = String::from_str(token);
        let mut entries: Vec<PendingEntry> = Vec::new();
        std::mem::swap(&mut entries, &mut self.entries);
        let ghost before = entries@;
        let found = find(&entries, &key);
        let sender = match found {
            Some(i) => {
                proof {
                    lemma_table_remove(before, i as int);
                    lemma_position(before, i as int);
                }
                let entry = entries.remove(i);
                Some(entry.sender)
            },
            None => None,
        };
        self.entries = entries;
        sender
    }

    /// Removes the entry under `token`, if there is one, and sends `envelope`
    /// on its channel. Tells whether an entry was found.
    pub fn take_and_complete(&mut self, token: &str, envelope: Envelope) -> (found: bool)
        ensures
            found == old(self)@.contains_key(token@),
            final(self)@ == without(old(self)@, token@),
    {
        match self.take(token) {
            Some(sender) => {
                let _ = deliver(sender, envelope);
                true
            },
            None => false,
        }
    }

    /// Tells whether an execution waits under `token`.
    pub fn contains(&self, token: &str) -> (b: bool)
        ensures
            b == self@.contains_key(token@),
    {
        let key = String::from_str(token);
        proof {
            use_type_invariant(self);
        }
        match find(&self.entries, &key) {
            Some(i) => {
                proof {
                    lemma_position(self.entries@, i as int);
                }
                true
            },
            None => false,
        }
    }

    /// The number of executions that wait.
    pub fn len(&self) -> (n: usize)
        ensures
            self@.dom().finite(),
            n == self@.len(),
    {
        proof {
            use_type_invariant(self);
            lemma_table_len(self.entries@);
        }
        self.entries.len()
    }

    /// Tells whether no execution waits.
    pub fn is_empty(&self) -> (b: bool)
        ensures
            b == (self@ == Pending::empty()),
    {
        proof {
            use_type_invariant(self);
            lemma_table_len(self.entries@);
            if self.entries@.len() == 0 {
                assert(self@ =~= Pending::empty());
            }
        }
        self.entries.len() == 0
    }
}

/// Taking a token's entry out a second time finds nothing and changes
/// nothing: of two parties that take one token's entry, in whichever order,
/// only the first gets it.
pub proof fn lemma_take_once(pending: Pending, token: Seq<char>)
    ensures
        waiting(without(pending, token), token) is None,
        without(without(pending, token), token) == without(pending, token),
{
}

/// The registry counts the executions that wait: registering a token that
/// does not wait adds one, taking out one that waits removes one, and taking
/// out one that does not wait removes none.
pub proof fn lemma_counts(pending: Pending, token: Seq<char>, sender: Sender<Envelope>)
    requires
        pending.dom().finite(),
    ensures
        !pending.contains_key(token) ==> pending.insert(token, sender).len() == pending.len() + 1,
        pending.contains_key(token) ==> without(pending, token).len() == pending.len() - 1,
        !pending.contains_key(token) ==> without(pending, token).len() == pending.len(),
{
}

/// Taking one token's entry out leaves every other token's entry as it was.
pub proof fn lemma_take_leaves_others(pending: Pending, token: Seq<char>, other: Seq<char>)
    requires
        other != token,
    ensures
        waiting(without(pending, token), other) == waiting(pending, other),
{
}

} // verus!
