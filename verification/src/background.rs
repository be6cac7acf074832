//! The mailbox: a FIFO channel carrying commands from completed background
//! work to the single consumer on the home loop, paired with the sender
//! handle through which completions enqueue and request a redraw.
//!
//! This is a sequential model of the channel. The concurrent hosts fan many
//! producers into one consumer; since no global order across producers is
//! promised — only FIFO delivery of what was enqueued — any serialization of
//! the completions is a faithful behaviour, and that serialized queue is
//! what this type holds. The host shell owns the mailbox on its home loop
//! and hands each completion's commands to the sender in completion order.

use vstd::prelude::*;

verus! {

/// The sending side of the mailbox: enqueues commands and records the
/// request that the host redraw and poll again soon.
pub struct EguiBackgroundSender<T> {
    queue: Vec<T>,
    repaint: bool,
}

impl<T> EguiBackgroundSender<T> {
    /// The commands enqueued and not yet delivered, oldest first.
    pub closed spec fn queued(&self) -> Seq<T> {
        self.queue@
    }

    /// Whether a redraw/poll pass has been requested and not yet collected.
    pub closed spec fn repaint_requested(&self) -> bool {
        self.repaint
    }

    /// Enqueue `msg` and request that the host schedule a redraw/poll pass
    /// soon.
    pub fn send(&mut self, msg: T)
        ensures
            final(self).queued() == old(self).queued().push(msg),
            final(self).repaint_requested(),
    {
        self.queue.push(msg);
        self.repaint = true;
    }

    /// Enqueue `msg` without requesting a redraw. For callers that know a
    /// redraw is already queued; using it wrongly only delays visibility of
    /// a state change, it never loses the command.
    pub fn send_without_repaint(&mut self, msg: T)
        ensures
            final(self).queued() == old(self).queued().push(msg),
            final(self).repaint_requested() == old(self).repaint_requested(),
    {
        self.queue.push(msg);
    }
}

/// The mailbox owned by the home loop: the sender handle plus the receiving
/// end that the loop drains once per tick.
pub struct EguiBackgroundWork<T> {
    pub sender: EguiBackgroundSender<T>,
}

impl<T> EguiBackgroundWork<T> {
    /// The commands enqueued and not yet delivered, oldest first.
    pub open spec fn queued(&self) -> Seq<T> {
        self.sender.queued()
    }

    /// Whether a redraw/poll pass has been requested and not yet collected.
    pub open spec fn repaint_requested(&self) -> bool {
        self.sender.repaint_requested()
    }

    /// The oldest undelivered command, or `None` if the mailbox is empty.
    /// Never blocks: it only inspects the queue.
    pub fn poll_work(&mut self) -> (r: Option<T>)
        ensures
            old(self).queued().len() == 0 ==> r is None && *final(self) == *old(self),
            old(self).queued().len() > 0 ==> {
                &&& r == Some(old(self).queued()[0])
                &&& final(self).queued() == old(self).queued().drop_first()
                &&& final(self).repaint_requested() == old(self).repaint_requested()
            },
    {
        if self.sender.queue.len() == 0 {
            None
        } else {
            let front = self.sender.queue.remove(0);
            proof {
                assert(self.sender.queue@ =~= old(self).queued().drop_first());
            }
            Some(front)
        }
    }

    /// Borrow the sender handle, e.g. to pass it to background work that
    /// reports intermediate progress.
    pub fn sender(&mut self) -> (r: &mut EguiBackgroundSender<T>)
        ensures
            *r == old(self).sender,
            final(self).sender == *final(r),
    {
        &mut self.sender
    }

    /// Collect and clear the pending redraw request. The host calls this
    /// once per tick and, when it returns true, asks its UI context to
    /// repaint.
    pub fn take_repaint_request(&mut self) -> (r: bool)
        ensures
            r == old(self).repaint_requested(),
            final(self).queued() == old(self).queued(),
            !final(self).repaint_requested(),
    {
        let r = self.sender.repaint;
        self.sender.repaint = false;
        r
    }
}

impl<T> Default for EguiBackgroundWork<T> {
    /// A fresh mailbox: nothing queued, no redraw requested.
    fn default() -> (r: Self)
        ensures
            r.queued().len() == 0,
            !r.repaint_requested(),
    {
        EguiBackgroundWork { sender: EguiBackgroundSender { queue: Vec::new(), repaint: false } }
    }
}

} // verus!
