//! The application-data mailbox: two independent bounded FIFO queues, one per
//! direction, orthogonal to the control plane. Pushing reports a full queue
//! by returning the rejected payload; receiving is non-blocking and returns
//! nothing when the queue is empty. No notification is tied to data pushes:
//! consumers poll explicitly or ride the control plane's own wake cycle.

use std::collections::VecDeque;
use vstd::prelude::*;

verus! {

/// What pushing `item` into a bounded FIFO of capacity `cap` does: with room
/// it is appended; against a full queue it comes back to the caller and the
/// queue keeps exactly what it held.
pub open spec fn spec_push_effect<T>(
    pre: Seq<T>,
    post: Seq<T>,
    r: Result<(), T>,
    item: T,
    cap: nat,
) -> bool {
    &&& (r is Ok <==> pre.len() < cap)
    &&& pre.len() < cap ==> post == pre.push(item)
    &&& pre.len() >= cap ==> (r matches Err(d) && d == item) && post == pre
}

/// What receiving from a FIFO does: the oldest payload comes out, or nothing
/// when the queue is empty.
pub open spec fn spec_recv_effect<T>(pre: Seq<T>, post: Seq<T>, r: Option<T>) -> bool {
    &&& pre.len() == 0 ==> r is None && post == pre
    &&& pre.len() > 0 ==> r == Some(pre[0]) && post == pre.skip(1)
}

/// The mathematical content of a mailbox: the payloads queued in each
/// direction, in arrival order.
pub struct DataChannelView<UD, FD> {
    pub user_data: Seq<UD>,
    pub fn_data: Seq<FD>,
}

/// Two bounded queues of capacity `N` each: `user_data` carries payloads from
/// the user side to the function, `fn_data` carries payloads from the
/// function to the user side.
pub struct DataChannel<UD, FD, const N: usize> {
    user_data: VecDeque<UD>,
    fn_data: VecDeque<FD>,
}

impl<UD, FD, const N: usize> View for DataChannel<UD, FD, N> {
    type V = DataChannelView<UD, FD>;

    closed spec fn view(&self) -> DataChannelView<UD, FD> {
        DataChannelView { user_data: self.user_data@, fn_data: self.fn_data@ }
    }
}

impl<UD, FD, const N: usize> Default for DataChannel<UD, FD, N> {
    /// A fresh mailbox: both queues empty.
    fn default() -> (r: Self)
        ensures
            r.wf(),
            r@.user_data == Seq::<UD>::empty(),
            r@.fn_data == Seq::<FD>::empty(),
    {
        DataChannel { user_data: VecDeque::new(), fn_data: VecDeque::new() }
    }
}

impl<UD, FD, const N: usize> DataChannel<UD, FD, N> {
    /// Neither queue ever holds more than its fixed capacity of `N` payloads.
    pub open spec fn wf(&self) -> bool {
        self@.user_data.len() <= N as nat && self@.fn_data.len() <= N as nat
    }

    /// The function side publishes a payload for the user side. A full queue
    /// rejects the payload back to the caller rather than dropping it.
    pub fn fn_push(&mut self, data: FD) -> (r: Result<(), FD>)
        requires
            old(self).wf(),
        ensures
            final(self).wf(),
            final(self)@.user_data == old(self)@.user_data,
            spec_push_effect(old(self)@.fn_data, final(self)@.fn_data, r, data, N as nat),
    {
        if self.fn_data.len() < N {
            self.fn_data.push_back(data);
            Ok(())
        } else {
            Err(data)
        }
    }

    /// The function side takes the oldest payload the user side has pushed,
    /// if any.
    pub fn fn_recv(&mut self) -> (r: Option<UD>)
        ensures
            final(self)@.fn_data == old(self)@.fn_data,
            spec_recv_effect(old(self)@.user_data, final(self)@.user_data, r),
    {
        self.user_data.pop_front()
    }

    /// The user side publishes a payload for the function. A full queue
    /// rejects the payload back to the caller rather than dropping it.
    pub fn user_push(&mut self, data: UD) -> (r: Result<(), UD>)
        requires
            old(self).wf(),
        ensures
            final(self).wf(),
            final(self)@.fn_data == old(self)@.fn_data,
            spec_push_effect(old(self)@.user_data, final(self)@.user_data, r, data, N as nat),
    {
        if self.user_data.len() < N {
            self.user_data.push_back(data);
            Ok(())
        } else {
            Err(data)
        }
    }

    /// The user side takes the oldest payload the function has pushed, if
    /// any.
    pub fn user_recv(&mut self) -> (r: Option<FD>)
        ensures
            final(self)@.user_data == old(self)@.user_data,
            spec_recv_effect(old(self)@.fn_data, final(self)@.fn_data, r),
    {
        self.fn_data.pop_front()
    }

    /// Empty both queues, ready for reuse by a different flow.
    pub fn reset(&mut self)
        ensures
            final(self).wf(),
            final(self)@.user_data == Seq::<UD>::empty(),
            final(self)@.fn_data == Seq::<FD>::empty(),
    {
        self.user_data.clear();
        self.fn_data.clear();
    }
}

} // verus!
