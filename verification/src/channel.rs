//! The log channels: one bounded queue of text chunks per node, from the task
//! that reads the node's output to the dashboard.

use vstd::prelude::*;
use tokio::sync::mpsc::Receiver;
use tokio::sync::mpsc::Sender;

verus! {

/// The receiving half of a bounded channel of `tokio`. What it holds changes
/// with every send from another task, so nothing is stated of its contents.
#[verifier::external_type_specification]
#[verifier::external_body]
#[verifier::reject_recursive_types(T)]
pub struct ExReceiver<T>(Receiver<T>);

/// The sending half of a bounded channel of `tokio`.
#[verifier::external_type_specification]
#[verifier::external_body]
#[verifier::reject_recursive_types(T)]
pub struct ExSender<T>(Sender<T>);

/// How many chunks a log channel holds before its sender has to wait.
pub const CHANNEL_CAPACITY: usize = 100;

/// The number of messages that a channel was made to buffer. It is what
/// `Receiver::max_capacity` returns, and stays the same as long as the channel lives.
pub uninterp spec fn channel_bound(receiver: Receiver<String>) -> usize;

/// Whether the receiving half has closed the channel. `Receiver::close` sets
/// this, nothing takes it back, and from then on `Receiver::is_closed` is true
/// and no message can be sent on the channel. A channel whose senders are all
/// gone counts as closed too; of that this says nothing.
pub uninterp spec fn closed_by_receiver(receiver: Receiver<String>) -> bool;

/// Whether every channel of `after` has the bound that it has in `before`.
pub open spec fn same_bounds(after: Seq<Receiver<String>>, before: Seq<Receiver<String>>) -> bool {
    &&& after.len() == before.len()
    &&& forall|i: int|
        0 <= i < after.len() ==> channel_bound(#[trigger] after[i]) == channel_bound(before[i])
}

/// Calls `tokio::sync::mpsc::channel`, which makes a channel that buffers up
/// to `capacity` messages. It panics on a capacity of zero or above an eighth
/// of the address space, so those are left out. All that is claimed of the
/// two halves that come back is the bound of the channel.
#[verifier::external_body]
fn open_channel(capacity: usize) -> (r: (Sender<String>, Receiver<String>))
    requires
        0 < capacity <= usize::MAX / 8,
    ensures
        channel_bound(r.1) == capacity,
{
    tokio::sync::mpsc::channel(capacity)
}

/// Calls `Receiver::try_recv`, which takes the next message if one is ready
/// and does not wait for one. An empty channel and a disconnected one both
/// give `None`. Whether a message is ready depends on the sending task, so
/// nothing is claimed of the result; the channel keeps its bound.
#[verifier::external_body]
fn poll_channel(receiver: &mut Receiver<String>) -> (r: Option<String>)
    ensures
        channel_bound(*final(receiver)) == channel_bound(*old(receiver)),
{
    receiver.try_recv().ok()
}

/// Calls `Receiver::close`, after which no further message can be sent on the
/// channel, while those already buffered can still be received. Claimed of
/// it: the receiving half has closed the channel, also where it was closed
/// before, and the channel keeps its bound.
#[verifier::external_body]
fn close_channel(receiver: &mut Receiver<String>)
    ensures
        closed_by_receiver(*final(receiver)),
        channel_bound(*final(receiver)) == channel_bound(*old(receiver)),
{
    receiver.close()
}

/// Opens one log channel per node, each of the standard capacity. The two
/// vectors hold the two halves of the channels, in node order.
pub fn open_channels(node_count: usize) -> (r: (Vec<Sender<String>>, Vec<Receiver<String>>))
    ensures
        r.0.len() == node_count,
        r.1.len() == node_count,
        forall|i: int| 0 <= i < node_count ==> channel_bound(#[trigger] r.1[i]) == CHANNEL_CAPACITY,
{
    let mut senders: Vec<Sender<String>> = Vec::new();
    let mut receivers: Vec<Receiver<String>> = Vec::new();
    let mut i: usize = 0;
    while i < node_count
        invariant
            i <= node_count,
            senders.len() == i,
            receivers.len() == i,
            forall|k: int| 0 <= k < i ==> channel_bound(#[trigger] receivers[k]) == CHANNEL_CAPACITY,
        decreases node_count - i,
    {
        let (sender, receiver) = open_channel(CHANNEL_CAPACITY);
        senders.push(sender);
        receivers.push(receiver);
        i += 1;
    }
    (senders, receivers)
}

/// Asks every node's channel once, without waiting. The result holds, in
/// node order, what each channel handed out.
pub fn poll_all(receivers: &mut Vec<Receiver<String>>) -> (r: Vec<Option<String>>)
    ensures
        same_bounds(final(receivers)@, old(receivers)@),
        r.len() == old(receivers).len(),
{
    let n = receivers.len();
    let mut r: Vec<Option<String>> = Vec::new();
    let mut i: usize = 0;
    while i < n
        invariant
            i <= n,
            receivers.len() == n,
            same_bounds(receivers@, old(receivers)@),
            r.len() == i,
        decreases n - i,
    {
        let received = poll_channel(&mut receivers[i]);
        r.push(received);
        i += 1;
    }
    r
}

/// Closes every channel, so that a sender that waits for room is released
/// and none can send again. The channels stay where they are, each with its
/// bound, and what they still hold can be taken out.
pub fn close_channels(receivers: &mut Vec<Receiver<String>>)
    ensures
        same_bounds(final(receivers)@, old(receivers)@),
        forall|i: int|
            0 <= i < final(receivers).len() ==> closed_by_receiver(#[trigger] final(receivers)[i]),
{
    let n = receivers.len();
    let mut i: usize = 0;
    while i < n
        invariant
            i <= n,
            receivers.len() == n,
            same_bounds(receivers@, old(receivers)@),
            forall|k: int| 0 <= k < i ==> closed_by_receiver(#[trigger] receivers[k]),
        decreases n - i,
    {
        close_channel(&mut receivers[i]);
        i += 1;
    }
}

} // verus!
