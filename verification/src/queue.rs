//! Queues: execution lanes of one family that take ended command buffers in order.

use vstd::prelude::*;
use crate::command::{CommandBuffer, CommandBufferView, NativeHandle, State, SubmitInfo};
use crate::error::{Error, NATIVE_SUCCESS};

verus! {

/// One accepted submission: the buffer, and the primitives that order it against
/// other queues and the host.
#[derive(Clone, Debug, PartialEq, Eq)]
pub struct Submission {
    /// The native handle of the submitted buffer.
    pub command_buffer: NativeHandle,
    /// Semaphores the device waits on before it starts the buffer.
    pub waits: Vec<u64>,
    /// Semaphores the device signals when the buffer has finished.
    pub signals: Vec<u64>,
    /// The fence, if any, by which the host learns that the buffer has finished.
    pub fence: Option<u64>,
}

/// What a queue is, to a contract.
pub struct QueueView {
    pub family: u32,
    /// Every accepted submission, in the order in which the device starts them.
    pub timeline: Seq<Submission>,
}

impl QueueView {
    /// Whether the queue takes this buffer with this token: the token is bound to
    /// the queue's family, and it is the token of this buffer, which is ended.
    pub open spec fn accepts(self, buffer: CommandBufferView, info: SubmitInfo) -> bool {
        &&& info.family == self.family
        &&& buffer.state == State::Ended
        &&& info.command_buffer == buffer.raw
        &&& info.family == buffer.family
    }

    /// The queue with one more submission at the end of its timeline.
    pub open spec fn push(self, submission: Submission) -> QueueView {
        QueueView { timeline: self.timeline.push(submission), ..self }
    }

    /// What a submission does to the queue and the buffer, given the result code of
    /// the native submit call.
    pub open spec fn submitted(
        self,
        buffer: CommandBufferView,
        info: SubmitInfo,
        submission: Submission,
        native: i32,
        queue_after: QueueView,
        buffer_after: CommandBufferView,
        r: Result<(), Error>,
    ) -> bool {
        if self.accepts(buffer, info) && native == NATIVE_SUCCESS {
            &&& r is Ok
            &&& queue_after == self.push(submission)
            &&& buffer_after == buffer.moved_to(State::Submitted)
        } else {
            &&& r == Err::<(), Error>(Error::SubmissionRejected)
            &&& queue_after == self
            &&& buffer_after == buffer
        }
    }
}

/// An execution lane of one queue family.
pub struct Queue {
    pub(crate) family: u32,
    pub(crate) timeline: Vec<Submission>,
}

impl View for Queue {
    type V = QueueView;

    closed spec fn view(&self) -> QueueView {
        QueueView { family: self.family, timeline: self.timeline@ }
    }
}

impl Queue {
    /// A queue of the given family that has taken no work yet.
    pub fn new(family: u32) -> (queue: Queue)
        ensures
            queue@ == (QueueView { family, timeline: Seq::empty() }),
    {
        Queue { family, timeline: Vec::new() }
    }

    /// The family the queue belongs to.
    pub fn family(&self) -> (family: u32)
        ensures
            family == self@.family,
    {
        self.family
    }

    /// The accepted submissions, in submission order.
    pub fn submissions(&self) -> (timeline: &Vec<Submission>)
        ensures
            timeline@ == self@.timeline,
    {
        &self.timeline
    }

    /// Decides whether the queue takes this buffer with this token. A backend asks
    /// this before it makes the native submit call.
    pub fn accepts(&self, buffer: &CommandBuffer, info: &SubmitInfo) -> (accepted: bool)
        ensures
            accepted == self@.accepts(buffer@, *info),
    {
        info.family == self.family && buffer.state() == State::Ended && info.command_buffer
            == buffer.handle() && info.family == buffer.family()
    }

    /// Submits an ended buffer. `native` is the result code of the driver's submit
    /// call. The submission is taken when the queue accepts the buffer and the
    /// driver reported success: it then stands last on the timeline and the buffer
    /// is in flight. In every other case the submission is rejected, and neither
    /// the timeline nor the buffer changes, so none of the recorded work runs.
    pub fn submit(
        &mut self,
        buffer: &mut CommandBuffer,
        info: SubmitInfo,
        waits: Vec<u64>,
        signals: Vec<u64>,
        fence: Option<u64>,
        native: i32,
    ) -> (r: Result<(), Error>)
        ensures
            old(self)@.submitted(
                old(buffer)@,
                info,
                (Submission { command_buffer: info.command_buffer, waits, signals, fence }),
                native,
                final(self)@,
                final(buffer)@,
                r,
            ),
    {
        if self.accepts(buffer, &info) && native == NATIVE_SUCCESS {
            self.timeline.push(
                Submission { command_buffer: info.command_buffer, waits, signals, fence },
            );
            buffer.mark_submitted();
            Ok(())
        } else {
            Err(Error::SubmissionRejected)
        }
    }
}

/// A token bound to another family than the queue's is never accepted, whatever
/// the driver would have said: the submission is rejected and nothing is queued.
pub proof fn lemma_family_mismatch_rejected(
    queue: QueueView,
    buffer: CommandBufferView,
    info: SubmitInfo,
    submission: Submission,
    native: i32,
    queue_after: QueueView,
    buffer_after: CommandBufferView,
    r: Result<(), Error>,
)
    requires
        info.family != queue.family,
        queue.submitted(buffer, info, submission, native, queue_after, buffer_after, r),
    ensures
        r == Err::<(), Error>(Error::SubmissionRejected),
        queue_after.timeline == queue.timeline,
        buffer_after == buffer,
{
}

/// Two submissions taken one after the other stand on the timeline in that order,
/// directly behind everything taken before, which keeps its place.
pub proof fn lemma_submission_order(queue: QueueView, first: Submission, second: Submission)
    ensures
        ({
            let after = queue.push(first).push(second);
            let n = queue.timeline.len() as int;
            &&& after.family == queue.family
            &&& after.timeline.len() == n + 2
            &&& after.timeline[n] == first
            &&& after.timeline[n + 1] == second
            &&& after.timeline.subrange(0, n) == queue.timeline
        }),
{
    let after = queue.push(first).push(second);
    assert(after.timeline.subrange(0, queue.timeline.len() as int) =~= queue.timeline);
}

} // verus!
