//! Capture requests: the buffers to fill, a caller's cookie, and the status
//! that completion delivery moves from pending to a terminal state once.
use vstd::prelude::*;

use crate::error::{error_of, ok_if_zero, Error, ErrorKind, EBUSY, EXDEV};
use crate::frame_buffer::FrameBufferRef;
use crate::stream_configuration::Stream;

verus! {

#[derive(Clone, Copy, Debug, PartialEq, Eq, Structural)]
pub enum RequestStatus {
    Pending,
    Complete,
    Cancelled,
}

/// What the pipeline reports when it is done with a request.
#[derive(Clone, Copy, Debug, PartialEq, Eq, Structural)]
pub enum RequestOutcome {
    Complete,
    Cancelled,
}

/// The status that an outcome puts a request in.
pub open spec fn terminal_status(outcome: RequestOutcome) -> RequestStatus {
    match outcome {
        RequestOutcome::Complete => RequestStatus::Complete,
        RequestOutcome::Cancelled => RequestStatus::Cancelled,
    }
}

/// A buffer bound to a request: the stream and the buffer's position among
/// that stream's buffers.
#[derive(Clone, Copy, Debug, PartialEq, Eq, Structural)]
pub struct BufferBinding {
    pub stream: Stream,
    pub buffer: usize,
}

/// A request as values.
pub struct RequestView {
    pub camera: usize,
    pub cookie: u64,
    pub sequence: u32,
    pub status: RequestStatus,
    pub buffers: Seq<BufferBinding>,
    pub queued: bool,
}

impl RequestView {
    /// A request just created by the camera with device index `camera`.
    pub open spec fn created(camera: usize, cookie: u64) -> RequestView {
        RequestView {
            camera,
            cookie,
            sequence: 0,
            status: RequestStatus::Pending,
            buffers: Seq::empty(),
            queued: false,
        }
    }

    /// Binding a buffer of `stream`, where the pipeline answered `status`. A
    /// buffer of another camera's stream is refused.
    pub open spec fn add_buffer(self, stream: Stream, buffer: usize, status: i32) -> (
        RequestView,
        Result<(), Error>,
    ) {
        if stream.camera != self.camera {
            (self, Err(error_of(ErrorKind::AddBuffer, EXDEV)))
        } else if status != 0 {
            (self, Err(error_of(ErrorKind::AddBuffer, status)))
        } else {
            (
                RequestView { buffers: self.buffers.push(BufferBinding { stream, buffer }), ..self },
                Ok(()),
            )
        }
    }

    /// Queuing on the camera with device index `camera`, where the pipeline
    /// answered `status`. A request of another camera is refused, and so is
    /// one already queued.
    pub open spec fn queue(self, camera: usize, status: i32) -> (RequestView, Result<(), Error>) {
        if self.camera != camera {
            (self, Err(error_of(ErrorKind::Queue, EXDEV)))
        } else if self.queued {
            (self, Err(error_of(ErrorKind::Queue, EBUSY)))
        } else if status != 0 {
            (self, Err(error_of(ErrorKind::Queue, status)))
        } else {
            (RequestView { queued: true, ..self }, Ok(()))
        }
    }

    /// A completion delivered for the request. Only a queued, pending request
    /// moves; a terminal status never changes.
    pub open spec fn complete(self, outcome: RequestOutcome, sequence: u32) -> RequestView {
        if self.queued && self.status == RequestStatus::Pending {
            RequestView { status: terminal_status(outcome), sequence, ..self }
        } else {
            self
        }
    }

    /// The request after each completion of `events`, in order.
    pub open spec fn after_completions(self, events: Seq<(RequestOutcome, u32)>) -> RequestView
        decreases events.len(),
    {
        if events.len() == 0 {
            self
        } else {
            self.after_completions(events.drop_last()).complete(events.last().0, events.last().1)
        }
    }
}

/// One capture instruction.
#[derive(Debug)]
pub struct Request {
    camera: usize,
    cookie: u64,
    sequence: u32,
    status: RequestStatus,
    buffers: Vec<BufferBinding>,
    queued: bool,
}

impl View for Request {
    type V = RequestView;

    closed spec fn view(&self) -> RequestView {
        RequestView {
            camera: self.camera,
            cookie: self.cookie,
            sequence: self.sequence,
            status: self.status,
            buffers: self.buffers@,
            queued: self.queued,
        }
    }
}

impl Request {
    pub(crate) fn new(camera: usize, cookie: u64) -> (r: Request)
        ensures
            r@ == RequestView::created(camera, cookie),
    {
        let r = Request {
            camera,
            cookie,
            sequence: 0,
            status: RequestStatus::Pending,
            buffers: Vec::new(),
            queued: false,
        };
        assert(r@.buffers =~= Seq::<BufferBinding>::empty());
        r
    }

    /// Binds `buffer` to the request, where the pipeline answered `status`. The
    /// buffer must belong to a stream of the camera that made the request. The
    /// request does not track whether the buffer is bound elsewhere.
    pub fn add_buffer(&mut self, buffer: &mut FrameBufferRef, status: i32) -> (r: Result<(), Error>)
        ensures
            (final(self)@, r) == old(self)@.add_buffer(
                old(buffer).spec_stream(),
                old(buffer).spec_index(),
                status,
            ),
            *final(buffer) == *old(buffer),
    {
        let stream = buffer.stream();
        if stream.camera() != self.camera {
            return Err(Error { kind: ErrorKind::AddBuffer, code: EXDEV });
        }
        ok_if_zero(status, ErrorKind::AddBuffer)?;
        self.buffers.push(BufferBinding { stream, buffer: buffer.index() });
        Ok(())
    }

    /// Marks the request queued, by the rules of `RequestView::queue`.
    pub(crate) fn queue_on(&mut self, camera: usize, status: i32) -> (r: Result<(), Error>)
        ensures
            (final(self)@, r) == old(self)@.queue(camera, status),
    {
        if self.camera != camera {
            return Err(Error { kind: ErrorKind::Queue, code: EXDEV });
        }
        if self.queued {
            return Err(Error { kind: ErrorKind::Queue, code: EBUSY });
        }
        ok_if_zero(status, ErrorKind::Queue)?;
        self.queued = true;
        Ok(())
    }

    /// Delivers the pipeline's completion of the request, with the sequence
    /// number it gave the capture.
    pub fn complete(&mut self, outcome: RequestOutcome, sequence: u32)
        ensures
            final(self)@ == old(self)@.complete(outcome, sequence),
    {
        if self.queued && self.status == RequestStatus::Pending {
            self.status = match outcome {
                RequestOutcome::Complete => RequestStatus::Complete,
                RequestOutcome::Cancelled => RequestStatus::Cancelled,
            };
            self.sequence = sequence;
        }
    }

    pub fn status(&self) -> (r: RequestStatus)
        ensures
            r == self@.status,
    {
        self.status
    }

    pub fn cookie(&self) -> (r: u64)
        ensures
            r == self@.cookie,
    {
        self.cookie
    }

    pub fn sequence(&self) -> (r: u32)
        ensures
            r == self@.sequence,
    {
        self.sequence
    }

    /// The buffers bound to the request, in the order they were added.
    pub fn buffers(&self) -> (r: Vec<BufferBinding>)
        ensures
            r@ == self@.buffers,
    {
        crate::frame_buffer::copy_vec(&self.buffers)
    }
}

/// A terminal status never changes, whatever completions arrive.
pub proof fn lemma_terminal_status_is_final(r: RequestView, events: Seq<(RequestOutcome, u32)>)
    requires
        r.status != RequestStatus::Pending,
    ensures
        r.after_completions(events) == r,
    decreases events.len(),
{
    if events.len() > 0 {
        lemma_terminal_status_is_final(r, events.drop_last());
    }
}

/// A queued, pending request leaves pending at its first completion, for the
/// status that completion reports, and stays there through every later one.
pub proof fn lemma_first_completion_decides(r: RequestView, events: Seq<(RequestOutcome, u32)>)
    requires
        r.queued,
        r.status == RequestStatus::Pending,
        events.len() > 0,
    ensures
        r.after_completions(events) == r.complete(events[0].0, events[0].1),
        r.after_completions(events).status == terminal_status(events[0].0),
    decreases events.len(),
{
    if events.len() == 1 {
        assert(events.drop_last() =~= Seq::<(RequestOutcome, u32)>::empty());
    } else {
        lemma_first_completion_decides(r, events.drop_last());
        assert(events.drop_last()[0] == events[0]);
    }
}

/// A request that is created, given a buffer and queued successfully is
/// pending until its first completion, which moves it to that completion's
/// status once and for all.
pub proof fn lemma_request_lifecycle(
    camera: usize,
    cookie: u64,
    stream: Stream,
    buffer: usize,
    events: Seq<(RequestOutcome, u32)>,
)
    requires
        stream.camera == camera,
    ensures
        ({
            let added = RequestView::created(camera, cookie).add_buffer(stream, buffer, 0);
            let queued = added.0.queue(camera, 0);
            &&& added.1 is Ok
            &&& queued.1 is Ok
            &&& queued.0.status == RequestStatus::Pending
            &&& events.len() == 0 ==> queued.0.after_completions(events).status == RequestStatus::Pending
            &&& events.len() > 0 ==> queued.0.after_completions(events).status == terminal_status(
                events[0].0,
            )
        }),
{
    let queued = RequestView::created(camera, cookie).add_buffer(stream, buffer, 0).0.queue(camera, 0).0;
    if events.len() > 0 {
        lemma_first_completion_decides(queued, events);
    }
}

} // verus!
