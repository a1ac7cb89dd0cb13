//! Reporting progress from background work: messages travel over an unbounded channel to the
//! thread that applies them.
use vstd::prelude::*;
use crossbeam_channel::{Receiver, Sender};

verus! {

#[verifier::external_type_specification]
#[verifier::external_body]
#[verifier::reject_recursive_types(T)]
pub struct ExSender<T>(Sender<T>);

#[verifier::external_type_specification]
#[verifier::external_body]
#[verifier::reject_recursive_types(T)]
pub struct ExReceiver<T>(Receiver<T>);

/// Creates the two ends of an unbounded channel (`crossbeam_channel::unbounded`).
///
/// Nothing is claimed of the result beyond its type.
#[verifier::external_body]
pub fn command_queue<T>() -> (Sender<T>, Receiver<T>) {
    crossbeam_channel::unbounded()
}

/// Calls `crossbeam_channel::Sender::send`.
///
/// Claimed of it: on failure the message is handed back unchanged, as the crate's
/// `SendError` holds the message that was sent. Whether the send fails depends on whether the
/// receiving ends are still alive, which is not visible here; nothing is claimed of that.
#[verifier::external_body]
fn send<T>(sender: &Sender<T>, message: T) -> (r: Result<(), T>)
    ensures
        r matches Err(m) ==> m == message,
{
    sender.send(message).map_err(|e| e.0)
}

/// Why a message could not be reported.
#[derive(Debug, Clone, Copy, PartialEq, Eq, Structural)]
pub enum ReportError {
    /// Every receiving end of the channel has been dropped.
    Disconnected,
}

/// Sends `message` to the thread that applies reported messages. Fails with
/// [`ReportError::Disconnected`] when nobody receives any more.
pub fn report_progress<T>(sender: &Sender<T>, message: T) -> (r: Result<(), ReportError>)
    ensures
        r matches Err(e) ==> e == ReportError::Disconnected,
{
    match send(sender, message) {
        Ok(()) => Ok(()),
        Err(_) => Err(ReportError::Disconnected),
    }
}

/// Joins the queues of commands received since the last poll into one, keeping their order;
/// `None` when nothing was received.
pub fn merge_queues<T>(queues: Vec<Vec<T>>) -> (r: Option<Vec<T>>)
    ensures
        queues.len() == 0 ==> r is None,
        queues.len() > 0 ==> (r matches Some(q) && q@ == queues@.map_values(|v: Vec<T>| v@).flatten()),
{
    if queues.len() == 0 {
        return None;
    }
    let ghost all = queues@.map_values(|v: Vec<T>| v@);
    let mut queues = queues;
    let mut merged: Vec<T> = Vec::new();
    while queues.len() > 0
        invariant
            merged@ + queues@.map_values(|v: Vec<T>| v@).flatten() == all.flatten(),
        decreases queues.len(),
    {
        let ghost before = queues@.map_values(|v: Vec<T>| v@);
        let mut q = queues.remove(0);
        proof {
            assert(before.drop_first() =~= queues@.map_values(|v: Vec<T>| v@));
            assert(before.first() == q@);
            assert(before.flatten() == before.first() + before.drop_first().flatten());
        }
        let ghost merged_before = merged@;
        merged.append(&mut q);
        proof {
            assert(merged@ =~= merged_before + before.first());
            assert(merged_before + before.flatten() =~= merged@ + queues@.map_values(|v: Vec<T>| v@).flatten());
        }
    }
    proof {
        assert(queues@.map_values(|v: Vec<T>| v@) =~= Seq::<Seq<T>>::empty());
        assert(merged@ =~= all.flatten());
    }
    Some(merged)
}

/// A message of background work that a tracking thread follows: progress, a failure that
/// does not end the work, or its completion.
#[derive(Debug)]
pub enum TrackedMessage<P, E, C> {
    Progress(P),
    Error(E),
    Complete(C),
}

/// The progress messages of `batch`, in order.
pub open spec fn progress_of<P, E, C>(batch: Seq<TrackedMessage<P, E, C>>) -> Seq<P>
    decreases batch.len(),
{
    if batch.len() == 0 {
        Seq::empty()
    } else {
        let rest = progress_of(batch.drop_last());
        match batch.last() {
            TrackedMessage::Progress(p) => rest.push(p),
            _ => rest,
        }
    }
}

/// The error messages of `batch`, in order.
pub open spec fn errors_of<P, E, C>(batch: Seq<TrackedMessage<P, E, C>>) -> Seq<E>
    decreases batch.len(),
{
    if batch.len() == 0 {
        Seq::empty()
    } else {
        let rest = errors_of(batch.drop_last());
        match batch.last() {
            TrackedMessage::Error(e) => rest.push(e),
            _ => rest,
        }
    }
}

/// The first completion message of `batch`, if any.
pub open spec fn first_completion<P, E, C>(batch: Seq<TrackedMessage<P, E, C>>) -> Option<C>
    decreases batch.len(),
{
    if batch.len() == 0 {
        None
    } else {
        match batch.first() {
            TrackedMessage::Complete(c) => Some(c),
            _ => first_completion(batch.drop_first()),
        }
    }
}

proof fn lemma_first_completion_prefix<P, E, C>(batch: Seq<TrackedMessage<P, E, C>>, i: int)
    requires
        0 <= i < batch.len(),
        first_completion(batch.take(i)) is None,
    ensures
        first_completion(batch.take(i + 1)) == match batch[i] {
            TrackedMessage::Complete(c) => Some(c),
            _ => None::<C>,
        },
    decreases i,
{
    assert(batch.take(i + 1).first() == batch.first());
    if i > 0 {
        assert(batch.take(i).first() == batch.first());
        assert(batch.take(i + 1).drop_first() =~= batch.drop_first().take(i));
        assert(batch.take(i).drop_first() =~= batch.drop_first().take(i - 1));
        assert(batch.drop_first()[i - 1] == batch[i]);
        match batch.first() {
            TrackedMessage::Complete(c) => {
                assert(first_completion(batch.take(i)) == Some(c));
            },
            _ => {
                assert(first_completion(batch.take(i)) == first_completion(batch.drop_first().take(i - 1)));
                lemma_first_completion_prefix(batch.drop_first(), i - 1);
                assert(first_completion(batch.take(i + 1)) == first_completion(batch.drop_first().take(i)));
            },
        }
    } else {
        assert(batch.take(1).drop_first() =~= Seq::<TrackedMessage<P, E, C>>::empty());
        assert(first_completion(Seq::<TrackedMessage<P, E, C>>::empty()) is None);
    }
}

proof fn lemma_first_completion_extend<P, E, C>(batch: Seq<TrackedMessage<P, E, C>>, i: int)
    requires
        0 <= i < batch.len(),
        first_completion(batch.take(i)) is Some,
    ensures
        first_completion(batch.take(i + 1)) == first_completion(batch.take(i)),
    decreases i,
{
    assert(i > 0);
    assert(batch.take(i).first() == batch.first());
    assert(batch.take(i + 1).first() == batch.first());
    match batch.first() {
        TrackedMessage::Complete(c) => {},
        _ => {
            assert(batch.take(i + 1).drop_first() =~= batch.drop_first().take(i));
            assert(batch.take(i).drop_first() =~= batch.drop_first().take(i - 1));
            lemma_first_completion_extend(batch.drop_first(), i - 1);
        },
    }
}

/// Sorts one batch of received messages the way a tracking thread handles them: first all
/// progress messages, then all errors, each in the order received, and then the first
/// completion, which ends the tracking; later completions are dropped.
pub fn split_batch<P, E, C>(batch: Vec<TrackedMessage<P, E, C>>) -> (r: (Vec<P>, Vec<E>, Option<C>))
    ensures
        r.0@ == progress_of(batch@),
        r.1@ == errors_of(batch@),
        r.2 == first_completion(batch@),
{
    let ghost all = batch@;
    let mut rest = batch;
    let mut progress: Vec<P> = Vec::new();
    let mut errors: Vec<E> = Vec::new();
    let mut completion: Option<C> = None;
    let ghost mut done: int = 0;
    while rest.len() > 0
        invariant
            0 <= done <= all.len(),
            rest@ == all.skip(done),
            progress@ == progress_of(all.take(done)),
            errors@ == errors_of(all.take(done)),
            completion == first_completion(all.take(done)),
        decreases rest.len(),
    {
        let m = rest.remove(0);
        proof {
            assert(m == all[done]);
            assert(all.take(done + 1).drop_last() =~= all.take(done));
            assert(all.take(done + 1).last() == all[done]);
            if completion is None {
                lemma_first_completion_prefix(all, done);
            } else {
                lemma_first_completion_extend(all, done);
            }
        }
        match m {
            TrackedMessage::Progress(p) => progress.push(p),
            TrackedMessage::Error(e) => errors.push(e),
            TrackedMessage::Complete(c) => {
                if completion.is_none() {
                    completion = Some(c);
                }
            },
        }
        proof {
            assert(rest@ =~= all.skip(done + 1));
            done = done + 1;
        }
    }
    proof {
        assert(all.take(done) =~= all);
    }
    (progress, errors, completion)
}

/// Receiving more messages after messages without a completion extends what was received
/// in order: the progress and error messages of everything received are those received
/// before followed by those of the new messages, and the first completion of everything
/// received is the first completion among the new ones.
pub proof fn lemma_received_in_order<P, E, C>(earlier: Seq<TrackedMessage<P, E, C>>, batch: Seq<TrackedMessage<P, E, C>>)
    requires
        first_completion(earlier) is None,
    ensures
        progress_of(earlier + batch) == progress_of(earlier) + progress_of(batch),
        errors_of(earlier + batch) == errors_of(earlier) + errors_of(batch),
        first_completion(earlier + batch) == first_completion(batch),
{
    lemma_progress_errors_append(earlier, batch);
    lemma_first_completion_append(earlier, batch);
}

proof fn lemma_progress_errors_append<P, E, C>(a: Seq<TrackedMessage<P, E, C>>, b: Seq<TrackedMessage<P, E, C>>)
    ensures
        progress_of(a + b) == progress_of(a) + progress_of(b),
        errors_of(a + b) == errors_of(a) + errors_of(b),
    decreases b.len(),
{
    if b.len() == 0 {
        assert(a + b =~= a);
        assert(progress_of(a) + progress_of(b) =~= progress_of(a));
        assert(errors_of(a) + errors_of(b) =~= errors_of(a));
    } else {
        assert((a + b).drop_last() =~= a + b.drop_last());
        assert((a + b).last() == b.last());
        lemma_progress_errors_append(a, b.drop_last());
        match b.last() {
            TrackedMessage::Progress(p) => {
                assert(progress_of(a) + progress_of(b) =~= (progress_of(a) + progress_of(b.drop_last())).push(p));
                assert(errors_of(a) + errors_of(b) =~= errors_of(a) + errors_of(b.drop_last()));
            },
            TrackedMessage::Error(e) => {
                assert(errors_of(a) + errors_of(b) =~= (errors_of(a) + errors_of(b.drop_last())).push(e));
                assert(progress_of(a) + progress_of(b) =~= progress_of(a) + progress_of(b.drop_last()));
            },
            TrackedMessage::Complete(_) => {
                assert(progress_of(a) + progress_of(b) =~= progress_of(a) + progress_of(b.drop_last()));
                assert(errors_of(a) + errors_of(b) =~= errors_of(a) + errors_of(b.drop_last()));
            },
        }
    }
}

proof fn lemma_first_completion_append<P, E, C>(a: Seq<TrackedMessage<P, E, C>>, b: Seq<TrackedMessage<P, E, C>>)
    requires
        first_completion(a) is None,
    ensures
        first_completion(a + b) == first_completion(b),
    decreases a.len(),
{
    if a.len() == 0 {
        assert(a + b =~= b);
    } else {
        assert((a + b).first() == a.first());
        assert((a + b).drop_first() =~= a.drop_first() + b);
        lemma_first_completion_append(a.drop_first(), b);
    }
}

/// Follows the batches of messages that background work sends, up to the first completion.
pub struct Follower<P, E, C> {
    done: bool,
    received: Ghost<Seq<TrackedMessage<P, E, C>>>,
}

impl<P, E, C> Follower<P, E, C> {
    /// Everything received so far, in order.
    pub closed spec fn received(&self) -> Seq<TrackedMessage<P, E, C>> {
        self.received@
    }

    /// Whether a completion was received, which ends the following.
    pub closed spec fn is_done(&self) -> bool {
        self.done
    }

    /// Following ends exactly at the first completion received.
    pub open spec fn wf(&self) -> bool {
        self.is_done() == (first_completion(self.received()) is Some)
    }

    /// A follower that has received nothing.
    pub fn new() -> (f: Self)
        ensures
            f.wf(),
            f.received() == Seq::<TrackedMessage<P, E, C>>::empty(),
            !f.is_done(),
    {
        Follower { done: false, received: Ghost(Seq::empty()) }
    }

    /// Whether a completion was received.
    pub fn done(&self) -> (b: bool)
        ensures
            b == self.is_done(),
    {
        self.done
    }

    /// Takes one batch of received messages, as [`split_batch`] sorts it: its progress
    /// messages and errors in order, and its first completion, which ends the following.
    /// By [`lemma_received_in_order`], the progress and errors handed out over all batches
    /// are those of everything received, in order, and the completion is the first received.
    pub fn on_batch(&mut self, batch: Vec<TrackedMessage<P, E, C>>) -> (r: (Vec<P>, Vec<E>, Option<C>))
        requires
            old(self).wf(),
            !old(self).is_done(),
        ensures
            final(self).wf(),
            final(self).received() == old(self).received() + batch@,
            r.0@ == progress_of(batch@),
            r.1@ == errors_of(batch@),
            r.2 == first_completion(batch@),
            final(self).is_done() == (r.2 is Some),
    {
        let ghost before = self.received@;
        proof {
            lemma_first_completion_append(before, batch@);
        }
        self.received = Ghost(before + batch@);
        let r = split_batch(batch);
        self.done = r.2.is_some();
        r
    }
}

} // verus!
