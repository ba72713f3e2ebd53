//! The log buffers of the dashboard: one growing text per node.

use vstd::prelude::*;
use vstd::string::StringExecFns;
use tokio::sync::mpsc::Receiver;
use crate::channel::{poll_all, same_bounds};

verus! {

/// What a log buffer holds after it took in what a channel handed out: the
/// chunk is added at its end, and without a chunk nothing changes.
pub open spec fn absorbed(buffer: Seq<char>, received: Option<Seq<char>>) -> Seq<char> {
    match received {
        Some(chunk) => buffer + chunk,
        None => buffer,
    }
}

/// Whether `after` is `before` with something, or nothing, added at its end.
pub open spec fn grew_from(after: Seq<char>, before: Seq<char>) -> bool {
    before.len() <= after.len() && after.take(before.len() as int) == before
}

/// The view of what a channel handed out.
pub open spec fn chunk_view(received: Option<String>) -> Option<Seq<char>> {
    match received {
        Some(chunk) => Some(chunk@),
        None => None,
    }
}

/// One empty log buffer per node.
pub fn new_buffers(node_count: usize) -> (r: Vec<String>)
    ensures
        r.len() == node_count,
        forall|i: int| 0 <= i < node_count ==> (#[trigger] r[i])@ == Seq::<char>::empty(),
{
    let mut r: Vec<String> = Vec::new();
    let mut i: usize = 0;
    while i < node_count
        invariant
            i <= node_count,
            r.len() == i,
            forall|k: int| 0 <= k < i ==> (#[trigger] r[k])@ == Seq::<char>::empty(),
        decreases node_count - i,
    {
        r.push(String::new());
        i += 1;
    }
    r
}

/// Adds to a log buffer what its channel handed out, if anything.
pub fn absorb(buffer: &mut String, received: Option<String>)
    ensures
        final(buffer)@ == absorbed(old(buffer)@, chunk_view(received)),
{
    match received {
        Some(chunk) => {
            buffer.append(chunk.as_str());
        },
        None => {},
    }
}

/// Adds to every node's buffer what its channel handed out in this frame.
pub fn absorb_all(buffers: &mut Vec<String>, received: Vec<Option<String>>)
    requires
        received.len() == old(buffers).len(),
    ensures
        final(buffers).len() == old(buffers).len(),
        forall|i: int|
            0 <= i < old(buffers).len() ==> (#[trigger] final(buffers)[i])@ == absorbed(
                old(buffers)[i]@,
                chunk_view(received[i]),
            ),
{
    let n = buffers.len();
    let mut received = received;
    let ghost all = received@;
    let mut i: usize = n;
    // The chunks are taken from the back of `received`, so the buffers are
    // filled from the last node to the first.
    while i > 0
        invariant
            i <= n,
            buffers.len() == n,
            all.len() == n,
            received@ == all.take(i as int),
            forall|k: int|
                i <= k < n ==> (#[trigger] buffers[k])@ == absorbed(
                    old(buffers)[k]@,
                    chunk_view(all[k]),
                ),
            forall|k: int| 0 <= k < i ==> (#[trigger] buffers[k])@ == old(buffers)[k]@,
        decreases i,
    {
        i -= 1;
        let chunk = received.pop();
        assert(received@ == all.take(i as int));
        match chunk {
            Some(c) => {
                assert(c == all[i as int]);
                absorb(&mut buffers[i], c);
            },
            None => {},
        }
    }
}

/// One frame's intake: every node's channel is asked once, without waiting,
/// and what it hands out is added to that node's buffer. No buffer loses
/// anything, whatever the channels hand out.
pub fn drain_channels(receivers: &mut Vec<Receiver<String>>, buffers: &mut Vec<String>)
    requires
        old(receivers).len() == old(buffers).len(),
    ensures
        same_bounds(final(receivers)@, old(receivers)@),
        final(buffers).len() == old(buffers).len(),
        forall|i: int|
            0 <= i < old(buffers).len() ==> grew_from(
                (#[trigger] final(buffers)[i])@,
                old(buffers)[i]@,
            ),
{
    let received = poll_all(receivers);
    absorb_all(buffers, received);
    proof {
        assert forall|i: int| 0 <= i < old(buffers).len() implies grew_from(
            (#[trigger] buffers[i])@,
            old(buffers)[i]@,
        ) by {
            let before = old(buffers)[i]@;
            assert(buffers[i]@.take(before.len() as int) == before);
        }
    }
}

} // verus!
