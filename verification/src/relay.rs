//! The relay store: per-recipient queues of undelivered messages.

use vstd::prelude::*;
use crate::clock::unix_now;
use crate::message::EncryptedMessage;

verus! {

/// Why a relay operation was refused.
#[derive(Clone, Copy, Debug, PartialEq, Eq)]
pub enum RelayError {
    /// The caller presented no verified principal.
    Unauthenticated,
    /// No queue exists for the recipient.
    RecipientNotFound,
    /// The store's own state was found inconsistent.
    InternalError,
}

impl RelayError {
    /// The reason in words.
    pub fn message(&self) -> (text: String)
        ensures
            text@ == match self {
                RelayError::Unauthenticated => "Unauthenticated"@,
                RelayError::RecipientNotFound => "Recipient not found"@,
                RelayError::InternalError => "Internal error"@,
            },
    {
        match self {
            RelayError::Unauthenticated => "Unauthenticated".to_owned(),
            RelayError::RecipientNotFound => "Recipient not found".to_owned(),
            RelayError::InternalError => "Internal error".to_owned(),
        }
    }
}

/// The abstract state of a store: each recipient that has a queue, with the
/// messages waiting in it, oldest first.
pub type Queues = Map<Seq<char>, Seq<EncryptedMessage>>;

/// The messages waiting for `id`; none where `id` has no queue.
pub open spec fn pending(queues: Queues, id: Seq<char>) -> Seq<EncryptedMessage> {
    if queues.dom().contains(id) {
        queues[id]
    } else {
        Seq::empty()
    }
}

/// The state after `msg` was appended to the queue of `id`.
pub open spec fn stored(queues: Queues, id: Seq<char>, msg: EncryptedMessage) -> Queues {
    queues.insert(id, pending(queues, id).push(msg))
}

/// The state after the queue of `id` was taken out.
pub open spec fn fetched(queues: Queues, id: Seq<char>) -> Queues {
    queues.remove(id)
}

/// What is left of one queue after the messages that have expired at `now`
/// were dropped; the others keep their order.
pub open spec fn unexpired(messages: Seq<EncryptedMessage>, now: int) -> Seq<EncryptedMessage> {
    messages.filter(|m: EncryptedMessage| !m.expired_at(now))
}

/// The state after every queue was swept at `now`.
pub open spec fn swept(queues: Queues, now: int) -> Queues {
    Map::new(|id: Seq<char>| queues.dom().contains(id), |id: Seq<char>| unexpired(queues[id], now))
}

/// The state after the messages of `msgs` were stored for `id`, first to last.
pub open spec fn stored_all(queues: Queues, id: Seq<char>, msgs: Seq<EncryptedMessage>) -> Queues
    decreases msgs.len(),
{
    if msgs.len() == 0 {
        queues
    } else {
        stored(stored_all(queues, id, msgs.drop_last()), id, msgs.last())
    }
}

/// Storing messages for a recipient appends them, in the order of the calls,
/// to what was already waiting, and touches no other recipient's queue.
pub proof fn lemma_stores_append_in_order(queues: Queues, id: Seq<char>, msgs: Seq<EncryptedMessage>)
    ensures
        pending(stored_all(queues, id, msgs), id) == pending(queues, id) + msgs,
        forall|other: Seq<char>| other != id ==> pending(stored_all(queues, id, msgs), other) == pending(queues, other),
    decreases msgs.len(),
{
    if msgs.len() == 0 {
        assert(pending(queues, id) + msgs =~= pending(queues, id));
    } else {
        lemma_stores_append_in_order(queues, id, msgs.drop_last());
        assert((pending(queues, id) + msgs.drop_last()).push(msgs.last()) =~= pending(queues, id) + msgs);
    }
}

/// A fetch that follows one or more stores for a recipient whose queue was
/// empty hands out exactly the stored messages in the order of the calls, and
/// a second fetch right after it finds nothing.
pub proof fn lemma_fetch_after_stores(queues: Queues, id: Seq<char>, msgs: Seq<EncryptedMessage>)
    requires
        msgs.len() >= 1,
        pending(queues, id).len() == 0,
    ensures
        pending(stored_all(queues, id, msgs), id) == msgs,
        pending(fetched(stored_all(queues, id, msgs), id), id) == Seq::<EncryptedMessage>::empty(),
{
    lemma_stores_append_in_order(queues, id, msgs);
    assert(pending(queues, id) + msgs =~= msgs);
}

/// A fetch leaves every other recipient's queue as it was.
pub proof fn lemma_fetch_leaves_others(queues: Queues, id: Seq<char>, other: Seq<char>)
    requires
        other != id,
    ensures
        pending(fetched(queues, id), other) == pending(queues, other),
{
}

/// After a sweep at `now`, a message with a lifetime whose end lies before
/// `now` is in no queue; a message whose lifetime ends after `now`, or that
/// has none, is still in the queue it was in.
pub proof fn lemma_sweep_drops_expired_only(queues: Queues, id: Seq<char>, msg: EncryptedMessage, now: int)
    ensures
        msg.ttl != 0 && msg.timestamp + msg.ttl < now ==> !pending(swept(queues, now), id).contains(msg),
        pending(queues, id).contains(msg) && (msg.ttl == 0 || msg.timestamp + msg.ttl > now) ==> pending(
            swept(queues, now),
            id,
        ).contains(msg),
        pending(swept(queues, now), id).contains(msg) <==> pending(queues, id).contains(msg) && !msg.expired_at(now),
{
    let keep = |m: EncryptedMessage| !m.expired_at(now);
    if queues.dom().contains(id) {
        let queue = queues[id];
        let left = pending(swept(queues, now), id);
        assert(left == queue.filter(keep));
        if left.contains(msg) {
            let j = choose|j: int| 0 <= j < left.len() && left[j] == msg;
            queue.lemma_filter_pred(keep, j);
            queue.lemma_filter_contains_rev(keep, msg);
        }
        if queue.contains(msg) && !msg.expired_at(now) {
            let k = choose|k: int| 0 <= k < queue.len() && queue[k] == msg;
            queue.lemma_filter_contains(keep, k);
        }
    }
}

/// One recipient's queue.
struct Mailbox {
    recipient: String,
    messages: Vec<EncryptedMessage>,
}

/// In-memory store of undelivered messages, keyed by recipient identifier.
pub struct MessageStore {
    boxes: Vec<Mailbox>,
}

/// Whether some mailbox of `boxes` belongs to `id`.
spec fn has_box(boxes: Seq<Mailbox>, id: Seq<char>) -> bool {
    exists|i: int| 0 <= i < boxes.len() && #[trigger] boxes[i].recipient@ == id
}

/// The position of a mailbox that belongs to `id`.
spec fn box_of(boxes: Seq<Mailbox>, id: Seq<char>) -> int {
    choose|i: int| 0 <= i < boxes.len() && #[trigger] boxes[i].recipient@ == id
}

/// No two mailboxes belong to the same recipient.
spec fn distinct_boxes(boxes: Seq<Mailbox>) -> bool {
    forall|i: int, j: int|
        0 <= i < boxes.len() && 0 <= j < boxes.len() && #[trigger] boxes[i].recipient@
            == #[trigger] boxes[j].recipient@ ==> i == j
}

/// The queues that a list of mailboxes stands for.
spec fn queues_of(boxes: Seq<Mailbox>) -> Queues {
    Map::new(|id: Seq<char>| has_box(boxes, id), |id: Seq<char>| boxes[box_of(boxes, id)].messages@)
}

proof fn lemma_box_found(boxes: Seq<Mailbox>, i: int)
    requires
        distinct_boxes(boxes),
        0 <= i < boxes.len(),
    ensures
        has_box(boxes, boxes[i].recipient@),
        box_of(boxes, boxes[i].recipient@) == i,
        queues_of(boxes)[boxes[i].recipient@] == boxes[i].messages@,
{
}

/// Removing a message that has expired does not change what a sweep leaves.
proof fn lemma_unexpired_skips_expired(messages: Seq<EncryptedMessage>, at: int, now: int)
    requires
        0 <= at < messages.len(),
        messages[at].expired_at(now),
    ensures
        unexpired(messages.remove(at), now) == unexpired(messages, now),
    decreases messages.len(),
{
    reveal(Seq::filter);
    if at == messages.len() - 1 {
        assert(messages.remove(at) =~= messages.drop_last());
    } else {
        lemma_unexpired_skips_expired(messages.drop_last(), at, now);
        assert(messages.remove(at).drop_last() =~= messages.drop_last().remove(at));
        assert(messages.remove(at).last() == messages.last());
    }
}

/// A sweep leaves a queue without expired messages as it is.
proof fn lemma_unexpired_keeps_all(messages: Seq<EncryptedMessage>, now: int)
    requires
        forall|k: int| 0 <= k < messages.len() ==> !(#[trigger] messages[k]).expired_at(now),
    ensures
        unexpired(messages, now) == messages,
    decreases messages.len(),
{
    reveal(Seq::filter);
    if messages.len() > 0 {
        lemma_unexpired_keeps_all(messages.drop_last(), now);
        assert(messages.drop_last().push(messages.last()) =~= messages);
    }
}

/// Drops from one queue the messages that have expired at `now`.
fn sweep_queue(messages: &mut Vec<EncryptedMessage>, now: i64)
    ensures
        final(messages)@ == unexpired(old(messages)@, now as int),
{
    let mut j: usize = 0;
    while j < messages.len()
        invariant
            j <= messages@.len(),
            unexpired(messages@, now as int) == unexpired(old(messages)@, now as int),
            forall|k: int| 0 <= k < j ==> !(#[trigger] messages@[k]).expired_at(now as int),
        decreases messages@.len() - j,
    {
        if messages[j].is_expired(now) {
            proof {
                lemma_unexpired_skips_expired(messages@, j as int, now as int);
            }
            messages.remove(j);
        } else {
            j += 1;
        }
    }
    proof {
        lemma_unexpired_keeps_all(messages@, now as int);
    }
}

/// Mailboxes with the same recipients, position by position, have queues for
/// the same recipients at the same positions.
proof fn lemma_same_recipients(before: Seq<Mailbox>, after: Seq<Mailbox>)
    requires
        distinct_boxes(before),
        after.len() == before.len(),
        forall|k: int| 0 <= k < before.len() ==> #[trigger] after[k].recipient@ == before[k].recipient@,
    ensures
        distinct_boxes(after),
        forall|id: Seq<char>| has_box(after, id) == has_box(before, id),
        forall|id: Seq<char>| has_box(before, id) ==> box_of(after, id) == box_of(before, id),
{
    assert forall|i: int, j: int|
        0 <= i < after.len() && 0 <= j < after.len() && #[trigger] after[i].recipient@
            == #[trigger] after[j].recipient@ implies i == j by {
        assert(before[i].recipient@ == before[j].recipient@);
    }
    assert forall|id: Seq<char>| has_box(after, id) == has_box(before, id) by {
        if has_box(after, id) {
            assert(before[box_of(after, id)].recipient@ == id);
        }
        if has_box(before, id) {
            assert(after[box_of(before, id)].recipient@ == id);
        }
    }
    assert forall|id: Seq<char>| has_box(before, id) implies box_of(after, id) == box_of(before, id) by {
        let k = box_of(before, id);
        assert(after[k].recipient@ == id);
        lemma_box_found(after, k);
    }
}

/// Without the mailbox at position `at`, the mailboxes stand for the same
/// queues but that of its recipient.
proof fn lemma_queue_removed(before: Seq<Mailbox>, at: int)
    requires
        distinct_boxes(before),
        0 <= at < before.len(),
    ensures
        distinct_boxes(before.remove(at)),
        queues_of(before.remove(at)) =~= queues_of(before).remove(before[at].recipient@),
{
    let after = before.remove(at);
    let origin = |k: int| if k < at { k } else { k + 1 };
    assert forall|k: int| 0 <= k < after.len() implies #[trigger] after[k] == before[origin(k)] by {}
    assert forall|i: int, j: int|
        0 <= i < after.len() && 0 <= j < after.len() && #[trigger] after[i].recipient@
            == #[trigger] after[j].recipient@ implies i == j by {
        assert(before[origin(i)].recipient@ == before[origin(j)].recipient@);
    }
    let target = queues_of(before).remove(before[at].recipient@);
    assert forall|id: Seq<char>| queues_of(after).dom().contains(id) <==> target.dom().contains(id) by {
        if has_box(after, id) {
            let k = box_of(after, id);
            assert(before[origin(k)].recipient@ == id);
        }
        if has_box(before, id) && id != before[at].recipient@ {
            let k = box_of(before, id);
            let back = if k < at { k } else { k - 1 };
            assert(after[back].recipient@ == id);
        }
    }
    assert forall|id: Seq<char>| queues_of(after).dom().contains(id) implies queues_of(after)[id] == target[id] by {
        let k = box_of(after, id);
        lemma_box_found(after, k);
        assert(before[origin(k)].recipient@ == id);
        lemma_box_found(before, origin(k));
    }
}

/// Where recipients and queues agree position by position, with `at` as the
/// one exception allowed for the queues, the mailboxes of `after` stand for
/// the queues of `before` with the queue of position `at` replaced.
proof fn lemma_queue_replaced(before: Seq<Mailbox>, after: Seq<Mailbox>, at: int)
    requires
        distinct_boxes(before),
        0 <= at < before.len(),
        after.len() == before.len(),
        forall|k: int| 0 <= k < before.len() ==> #[trigger] after[k].recipient@ == before[k].recipient@,
        forall|k: int| 0 <= k < before.len() && k != at ==> #[trigger] after[k].messages@ == before[k].messages@,
    ensures
        distinct_boxes(after),
        queues_of(after) =~= queues_of(before).insert(before[at].recipient@, after[at].messages@),
{
    assert(distinct_boxes(after)) by {
        assert forall|i: int, j: int|
            0 <= i < after.len() && 0 <= j < after.len() && #[trigger] after[i].recipient@
                == #[trigger] after[j].recipient@ implies i == j by {
            assert(before[i].recipient@ == before[j].recipient@);
        }
    }
    let target = queues_of(before).insert(before[at].recipient@, after[at].messages@);
    assert forall|id: Seq<char>| queues_of(after).dom().contains(id) <==> target.dom().contains(id) by {
        if has_box(after, id) {
            let k = box_of(after, id);
            assert(before[k].recipient@ == id);
        }
        if has_box(before, id) {
            let k = box_of(before, id);
            assert(after[k].recipient@ == id);
        }
        assert(after[at].recipient@ == before[at].recipient@);
    }
    assert forall|id: Seq<char>| queues_of(after).dom().contains(id) implies queues_of(after)[id] == target[id] by {
        let k = box_of(after, id);
        lemma_box_found(after, k);
        assert(before[k].recipient@ == id);
        lemma_box_found(before, k);
    }
}

/// A mailbox added for a recipient that had none adds its queue.
proof fn lemma_queue_added(before: Seq<Mailbox>, added: Mailbox)
    requires
        distinct_boxes(before),
        !has_box(before, added.recipient@),
    ensures
        distinct_boxes(before.push(added)),
        queues_of(before.push(added)) =~= queues_of(before).insert(added.recipient@, added.messages@),
{
    let after = before.push(added);
    assert(distinct_boxes(after)) by {
        assert forall|i: int, j: int|
            0 <= i < after.len() && 0 <= j < after.len() && #[trigger] after[i].recipient@
                == #[trigger] after[j].recipient@ implies i == j by {
            if i < before.len() && j < before.len() {
                assert(before[i].recipient@ == before[j].recipient@);
            } else if i < before.len() {
                assert(before[i].recipient@ == added.recipient@);
            } else if j < before.len() {
                assert(before[j].recipient@ == added.recipient@);
            }
        }
    }
    let target = queues_of(before).insert(added.recipient@, added.messages@);
    assert forall|id: Seq<char>| queues_of(after).dom().contains(id) <==> target.dom().contains(id) by {
        if has_box(after, id) {
            let k = box_of(after, id);
            if k < before.len() {
                assert(before[k].recipient@ == id);
            }
        }
        if has_box(before, id) {
            let k = box_of(before, id);
            assert(after[k].recipient@ == id);
        }
        assert(after[before.len() as int].recipient@ == added.recipient@);
    }
    assert forall|id: Seq<char>| queues_of(after).dom().contains(id) implies queues_of(after)[id] == target[id] by {
        let k = box_of(after, id);
        lemma_box_found(after, k);
        if k < before.len() {
            assert(before[k].recipient@ == id);
            lemma_box_found(before, k);
        }
    }
}

/// Finds the mailbox of `id`, if there is one.
fn find_box(boxes: &Vec<Mailbox>, id: &String) -> (at: Option<usize>)
    ensures
        match at {
            Some(i) => i < boxes@.len() && boxes@[i as int].recipient@ == id@,
            None => !has_box(boxes@, id@),
        },
{
    let mut i: usize = 0;
    while i < boxes.len()
        invariant
            i <= boxes@.len(),
            forall|k: int| 0 <= k < i ==> boxes@[k].recipient@ != id@,
        decreases boxes@.len() - i,
    {
        if boxes[i].recipient == *id {
            return Some(i);
        }
        i += 1;
    }
    None
}

/// Appends `msg` to the mailbox of `id`, which is added if there is none.
fn store_in(boxes: &mut Vec<Mailbox>, id: String, msg: EncryptedMessage)
    requires
        distinct_boxes(old(boxes)@),
    ensures
        distinct_boxes(final(boxes)@),
        queues_of(final(boxes)@) == stored(queues_of(old(boxes)@), id@, msg),
{
    match find_box(boxes, &id) {
        Some(i) => {
            proof {
                lemma_box_found(boxes@, i as int);
            }
            boxes[i].messages.push(msg);
            proof {
                lemma_queue_replaced(old(boxes)@, boxes@, i as int);
            }
        },
        None => {
            let mut messages: Vec<EncryptedMessage> = Vec::new();
            messages.push(msg);
            assert(messages@ =~= Seq::<EncryptedMessage>::empty().push(msg));
            let ghost added = Mailbox { recipient: id, messages };
            boxes.push(Mailbox { recipient: id, messages });
            proof {
                lemma_queue_added(old(boxes)@, added);
            }
        },
    }
}

/// Takes out the mailbox of `id` and returns its messages; none where there
/// is no such mailbox.
fn fetch_from(boxes: &mut Vec<Mailbox>, id: &String) -> (messages: Vec<EncryptedMessage>)
    requires
        distinct_boxes(old(boxes)@),
    ensures
        distinct_boxes(final(boxes)@),
        messages@ == pending(queues_of(old(boxes)@), id@),
        queues_of(final(boxes)@) == fetched(queues_of(old(boxes)@), id@),
{
    match find_box(boxes, id) {
        Some(i) => {
            proof {
                lemma_box_found(boxes@, i as int);
                lemma_queue_removed(boxes@, i as int);
            }
            let taken = boxes.remove(i);
            taken.messages
        },
        None => {
            assert(queues_of(boxes@) =~= fetched(queues_of(old(boxes)@), id@));
            Vec::new()
        },
    }
}

/// Sweeps every mailbox at time `now`.
fn sweep_boxes(boxes: &mut Vec<Mailbox>, now: i64)
    requires
        distinct_boxes(old(boxes)@),
    ensures
        distinct_boxes(final(boxes)@),
        queues_of(final(boxes)@) == swept(queues_of(old(boxes)@), now as int),
{
    let mut i: usize = 0;
    while i < boxes.len()
        invariant
            i <= boxes@.len(),
            boxes@.len() == old(boxes)@.len(),
            forall|k: int| 0 <= k < boxes@.len() ==> #[trigger] boxes@[k].recipient@ == old(boxes)@[k].recipient@,
            forall|k: int| 0 <= k < i ==> #[trigger] boxes@[k].messages@ == unexpired(old(boxes)@[k].messages@, now as int),
            forall|k: int| i <= k < boxes@.len() ==> #[trigger] boxes@[k].messages@ == old(boxes)@[k].messages@,
        decreases boxes@.len() - i,
    {
        sweep_queue(&mut boxes[i].messages, now);
        i += 1;
    }
    proof {
        lemma_same_recipients(old(boxes)@, boxes@);
        let target = swept(queues_of(old(boxes)@), now as int);
        assert forall|id: Seq<char>| queues_of(boxes@).dom().contains(id) implies queues_of(boxes@)[id] == target[id] by {
            let k = box_of(old(boxes)@, id);
            lemma_box_found(old(boxes)@, k);
        }
        assert(queues_of(boxes@) =~= target);
    }
}

impl MessageStore {
    /// The store's invariant: one mailbox per recipient.
    #[verifier::type_invariant]
    spec fn distinct_recipients(&self) -> bool {
        distinct_boxes(self.boxes@)
    }

    /// The queues held, by recipient.
    pub closed spec fn view(&self) -> Queues {
        queues_of(self.boxes@)
    }

    /// An empty store.
    pub fn new() -> (store: MessageStore)
        ensures
            store@ == Queues::empty(),
    {
        let store = MessageStore { boxes: Vec::new() };
        assert(store@ =~= Queues::empty());
        store
    }

    /// Appends `msg` to the queue of `recipient_id`, which is created if the
    /// recipient had none. An unauthenticated caller is refused and the store
    /// stays as it was.
    pub fn store_message(&mut self, recipient_id: &str, msg: EncryptedMessage, authenticated: bool) -> (outcome: Result<(), RelayError>)
        ensures
            authenticated ==> outcome == Ok::<(), RelayError>(()) && final(self)@ == stored(
                old(self)@,
                recipient_id@,
                msg,
            ),
            !authenticated ==> outcome == Err::<(), RelayError>(RelayError::Unauthenticated)
                && final(self)@ == old(self)@,
    {
        if !authenticated {
            return Err(RelayError::Unauthenticated);
        }
        proof {
            use_type_invariant(&*self);
        }
        let mut boxes: Vec<Mailbox> = Vec::new();
        core::mem::swap(&mut self.boxes, &mut boxes);
        store_in(&mut boxes, recipient_id.to_owned(), msg);
        core::mem::swap(&mut self.boxes, &mut boxes);
        Ok(())
    }

    /// Takes out and returns the whole queue of `recipient_id`, oldest message
    /// first; the empty list where nothing is pending. An unauthenticated
    /// caller is refused and the store stays as it was.
    pub fn fetch_messages(&mut self, recipient_id: &str, authenticated: bool) -> (outcome: Result<Vec<EncryptedMessage>, RelayError>)
        ensures
            authenticated ==> outcome.is_ok() && outcome.unwrap()@ == pending(old(self)@, recipient_id@)
                && final(self)@ == fetched(old(self)@, recipient_id@),
            !authenticated ==> outcome == Err::<Vec<EncryptedMessage>, RelayError>(
                RelayError::Unauthenticated,
            ) && final(self)@ == old(self)@,
    {
        if !authenticated {
            return Err(RelayError::Unauthenticated);
        }
        proof {
            use_type_invariant(&*self);
        }
        let id = recipient_id.to_owned();
        let mut boxes: Vec<Mailbox> = Vec::new();
        core::mem::swap(&mut self.boxes, &mut boxes);
        let messages = fetch_from(&mut boxes, &id);
        core::mem::swap(&mut self.boxes, &mut boxes);
        Ok(messages)
    }

    /// Sweeps every queue at time `now`: a message whose lifetime has ended
    /// leaves, the others stay in their order. A message with `ttl` zero has
    /// no lifetime and always stays.
    pub fn cleanup_expired_at(&mut self, now: i64)
        ensures
            final(self)@ == swept(old(self)@, now as int),
    {
        proof {
            use_type_invariant(&*self);
        }
        let mut boxes: Vec<Mailbox> = Vec::new();
        core::mem::swap(&mut self.boxes, &mut boxes);
        sweep_boxes(&mut boxes, now);
        core::mem::swap(&mut self.boxes, &mut boxes);
    }
}

impl MessageStore {
    /// Sweeps every queue at the current time. Whatever the clock says, the
    /// store afterwards is the store swept at some instant.
    pub fn cleanup_expired(&mut self)
        ensures
            exists|now: i64| final(self)@ == #[trigger] swept(old(self)@, now as int),
    {
        let now = unix_now();
        self.cleanup_expired_at(now);
    }
}

/// Stores `msg` as `MessageStore::store_message` does. On `Ok` the message is
/// waiting and the recipient is due a push notification, which the caller
/// sends.
pub fn store_message_for_recipient(store: &mut MessageStore, recipient_id: &str, msg: EncryptedMessage, authenticated: bool) -> (outcome: Result<(), RelayError>)
    ensures
        authenticated ==> outcome == Ok::<(), RelayError>(()) && final(store)@ == stored(
            old(store)@,
            recipient_id@,
            msg,
        ),
        !authenticated ==> outcome == Err::<(), RelayError>(RelayError::Unauthenticated)
            && final(store)@ == old(store)@,
{
    store.store_message(recipient_id, msg, authenticated)
}

} // verus!
