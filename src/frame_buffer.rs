//! Frame buffers as ordered sequences of planes, and the merging of planes
//! that are contiguous in memory into windows that one mapping call covers.
use vstd::prelude::*;

use crate::stream_configuration::Stream;

verus! {

/// One physically contiguous memory region backing part of a frame buffer:
/// `length` bytes at `offset` in the memory object behind descriptor `fd`.
#[derive(Clone, Copy, Debug, PartialEq, Eq, Structural)]
pub struct FrameBufferPlane {
    pub fd: u32,
    pub offset: u32,
    pub length: u32,
}

impl FrameBufferPlane {
    /// The offset just past the plane's last byte.
    pub open spec fn end(self) -> int {
        self.offset + self.length
    }
}

/// How the capture into a frame buffer ended.
#[derive(Clone, Copy, Debug, PartialEq, Eq, Structural)]
pub enum FrameStatus {
    Success,
    Error,
    Cancelled,
    Startup,
}

/// What the pipeline reported about one plane of a captured frame.
#[derive(Clone, Copy, Debug, PartialEq, Eq, Structural)]
pub struct FramePlaneMetadata {
    pub bytes_used: u32,
}

/// What the pipeline reported about the last frame captured into a buffer.
#[derive(Debug)]
pub struct FrameMetadata {
    pub status: FrameStatus,
    pub sequence: u32,
    pub timestamp: u64,
    pub planes: Vec<FramePlaneMetadata>,
}

/// A copy of the elements of `items`.
pub fn copy_vec<T: Copy>(items: &Vec<T>) -> (r: Vec<T>)
    ensures
        r@ == items@,
{
    let mut out: Vec<T> = Vec::new();
    let n = items.len();
    for i in 0..n
        invariant
            n == items@.len(),
            out@ == items@.subrange(0, i as int),
    {
        out.push(items[i]);
        assert(out@ =~= items@.subrange(0, i as int + 1));
    }
    assert(items@.subrange(0, n as int) =~= items@);
    out
}

impl FrameMetadata {
    /// The metadata of a buffer that has not captured a frame yet.
    pub fn startup() -> (r: FrameMetadata)
        ensures
            r.status == FrameStatus::Startup,
            r.sequence == 0,
            r.timestamp == 0,
            r.planes@.len() == 0,
    {
        FrameMetadata { status: FrameStatus::Startup, sequence: 0, timestamp: 0, planes: Vec::new() }
    }

    /// A copy of the metadata.
    pub fn duplicate(&self) -> (r: FrameMetadata)
        ensures
            r.status == self.status,
            r.sequence == self.sequence,
            r.timestamp == self.timestamp,
            r.planes@ == self.planes@,
    {
        FrameMetadata {
            status: self.status,
            sequence: self.sequence,
            timestamp: self.timestamp,
            planes: copy_vec(&self.planes),
        }
    }
}

/// A frame buffer of an allocator's pool: the stream it was allocated for, its
/// position among that stream's buffers, its planes, and its last metadata.
#[derive(Debug)]
pub struct FrameBufferRef {
    stream: Stream,
    index: usize,
    planes: Vec<FrameBufferPlane>,
    metadata: FrameMetadata,
}

impl FrameBufferRef {
    pub closed spec fn spec_stream(&self) -> Stream {
        self.stream
    }

    pub closed spec fn spec_index(&self) -> usize {
        self.index
    }

    pub closed spec fn spec_planes(&self) -> Seq<FrameBufferPlane> {
        self.planes@
    }

    pub closed spec fn spec_metadata(&self) -> FrameMetadata {
        self.metadata
    }

    pub(crate) fn new(stream: Stream, index: usize, planes: Vec<FrameBufferPlane>) -> (r: FrameBufferRef)
        ensures
            r.spec_stream() == stream,
            r.spec_index() == index,
            r.spec_planes() == planes@,
            r.spec_metadata().status == FrameStatus::Startup,
    {
        FrameBufferRef { stream, index, planes, metadata: FrameMetadata::startup() }
    }

    pub fn stream(&self) -> (r: Stream)
        ensures
            r == self.spec_stream(),
    {
        self.stream
    }

    pub fn index(&self) -> (r: usize)
        ensures
            r == self.spec_index(),
    {
        self.index
    }

    /// The buffer's planes, in order.
    pub fn planes(&self) -> (r: Vec<FrameBufferPlane>)
        ensures
            r@ == self.spec_planes(),
    {
        copy_vec(&self.planes)
    }

    /// What the pipeline last reported about the buffer.
    pub fn metadata(&self) -> (r: FrameMetadata)
        ensures
            r.status == self.spec_metadata().status,
            r.sequence == self.spec_metadata().sequence,
            r.timestamp == self.spec_metadata().timestamp,
            r.planes@ == self.spec_metadata().planes@,
    {
        self.metadata.duplicate()
    }

    /// Records what the pipeline reported when a frame was captured into the
    /// buffer.
    pub fn set_metadata(&mut self, metadata: FrameMetadata)
        ensures
            final(self).spec_metadata() == metadata,
            final(self).spec_stream() == old(self).spec_stream(),
            final(self).spec_index() == old(self).spec_index(),
            final(self).spec_planes() == old(self).spec_planes(),
    {
        self.metadata = metadata;
    }
}

/// `next` starts exactly where `prev` ends, in the same memory object, and the
/// two together still have a length that a plane can describe.
pub open spec fn continues(prev: FrameBufferPlane, next: FrameBufferPlane) -> bool {
    &&& prev.fd == next.fd
    &&& prev.end() == next.offset
    &&& prev.length + next.length <= u32::MAX
}

/// The window made of `prev` followed by `next`.
pub open spec fn joined(prev: FrameBufferPlane, next: FrameBufferPlane) -> FrameBufferPlane {
    FrameBufferPlane { fd: prev.fd, offset: prev.offset, length: (prev.length + next.length) as u32 }
}

/// The planes taken in order, each one either extending the window before it
/// (when it continues that window) or opening a new one.
pub open spec fn coalesced(planes: Seq<FrameBufferPlane>) -> Seq<FrameBufferPlane>
    decreases planes.len(),
{
    if planes.len() == 0 {
        seq![]
    } else {
        let windows = coalesced(planes.drop_last());
        let next = planes.last();
        if windows.len() > 0 && continues(windows.last(), next) {
            windows.drop_last().push(joined(windows.last(), next))
        } else {
            windows.push(next)
        }
    }
}

/// The number of bytes that a sequence of planes covers.
pub open spec fn total_length(planes: Seq<FrameBufferPlane>) -> int
    decreases planes.len(),
{
    if planes.len() == 0 {
        0
    } else {
        total_length(planes.drop_last()) + planes.last().length
    }
}

/// Merges adjacent planes that share a descriptor and touch in memory, keeping
/// their order, so that each resulting window can be mapped with one call.
pub fn coalesce_planes(planes: &[FrameBufferPlane]) -> (windows: Vec<FrameBufferPlane>)
    ensures
        windows@ == coalesced(planes@),
{
    let mut windows: Vec<FrameBufferPlane> = Vec::new();
    let n = planes.len();
    for i in 0..n
        invariant
            n == planes@.len(),
            windows@ == coalesced(planes@.subrange(0, i as int)),
    {
        let next = planes[i];
        let prefix = Ghost(planes@.subrange(0, i as int + 1));
        assert(prefix@.drop_last() =~= planes@.subrange(0, i as int));
        assert(prefix@.last() == next);
        let count = windows.len();
        if count > 0 {
            let prev = windows[count - 1];
            if prev.fd == next.fd && prev.offset as u64 + prev.length as u64 == next.offset as u64
                && prev.length as u64 + next.length as u64 <= u32::MAX as u64 {
                let merged = FrameBufferPlane {
                    fd: prev.fd,
                    offset: prev.offset,
                    length: prev.length + next.length,
                };
                windows.set(count - 1, merged);
                assert(windows@ =~= coalesced(prefix@));
            } else {
                windows.push(next);
            }
        } else {
            windows.push(next);
        }
    }
    assert(planes@.subrange(0, n as int) =~= planes@);
    windows
}

/// Coalescing never loses or adds a byte: the windows cover as many bytes as
/// the planes they were made from.
pub proof fn lemma_coalesced_total_length(planes: Seq<FrameBufferPlane>)
    ensures
        total_length(coalesced(planes)) == total_length(planes),
    decreases planes.len(),
{
    if planes.len() > 0 {
        lemma_coalesced_total_length(planes.drop_last());
        let windows = coalesced(planes.drop_last());
        let next = planes.last();
        if windows.len() > 0 && continues(windows.last(), next) {
            assert(windows.drop_last().push(joined(windows.last(), next)).drop_last()
                =~= windows.drop_last());
        } else {
            assert(windows.push(next).drop_last() =~= windows);
        }
    }
}

/// Where no plane continues the one before it (different descriptors, or a gap
/// in memory), coalescing merges nothing: the windows are the planes.
pub proof fn lemma_coalesced_keeps_separate_planes(planes: Seq<FrameBufferPlane>)
    requires
        forall|i: int| 0 <= i < planes.len() - 1 ==> !continues(#[trigger] planes[i], planes[i + 1]),
    ensures
        coalesced(planes) == planes,
    decreases planes.len(),
{
    if planes.len() > 0 {
        let rest = planes.drop_last();
        assert forall|i: int| 0 <= i < rest.len() - 1 implies !continues(#[trigger] rest[i], rest[i + 1]) by {
            assert(rest[i] == planes[i] && rest[i + 1] == planes[i + 1]);
        }
        lemma_coalesced_keeps_separate_planes(rest);
        if rest.len() > 0 {
            assert(rest.last() == planes[planes.len() - 2]);
        }
        assert(rest.push(planes.last()) =~= planes);
    }
}

/// The windows are as few as the rule allows: no window continues the one
/// before it, so merging could not go further.
pub proof fn lemma_coalesced_is_minimal(planes: Seq<FrameBufferPlane>)
    ensures
        forall|i: int|
            0 <= i < coalesced(planes).len() - 1 ==> !continues(
                #[trigger] coalesced(planes)[i],
                coalesced(planes)[i + 1],
            ),
    decreases planes.len(),
{
    if planes.len() > 0 {
        lemma_coalesced_is_minimal(planes.drop_last());
        let windows = coalesced(planes.drop_last());
        let next = planes.last();
        let out = coalesced(planes);
        if windows.len() > 0 && continues(windows.last(), next) {
            assert forall|i: int| 0 <= i < out.len() - 1 implies !continues(
                #[trigger] out[i],
                out[i + 1],
            ) by {
                assert(out[i] == windows[i]);
                if i + 1 < out.len() - 1 {
                    assert(out[i + 1] == windows[i + 1]);
                } else {
                    assert(!continues(windows[i], windows[i + 1]));
                }
            }
        } else {
            assert forall|i: int| 0 <= i < out.len() - 1 implies !continues(
                #[trigger] out[i],
                out[i + 1],
            ) by {
                assert(out[i] == windows[i]);
                if i + 1 < out.len() - 1 {
                    assert(out[i + 1] == windows[i + 1]);
                }
            }
        }
    }
}

} // verus!
