//! The pool of frame buffers of one configured camera, allocated stream by
//! stream.
//!
//! Buffers are never freed one stream at a time: the pool goes as a whole
//! with the allocator, so that no buffer still bound to a request is freed
//! under it. A caller that needs separate lifetimes uses one allocator per
//! stream.
use vstd::prelude::*;

use crate::error::{error_of, Error, ErrorKind, EBUSY, EINVAL};
use crate::frame_buffer::{copy_vec, FrameBufferPlane, FrameBufferRef};
use crate::stream_configuration::Stream;

verus! {

/// The planes of each buffer, as sequences.
pub open spec fn buffer_planes(buffers: Seq<Vec<FrameBufferPlane>>) -> Seq<Seq<FrameBufferPlane>> {
    buffers.map_values(|b: Vec<FrameBufferPlane>| b@)
}

/// An allocator as values: the camera it serves, and for each of the camera's
/// streams, by position, the planes of each buffer allocated for it, if any.
pub struct AllocatorView {
    pub camera: usize,
    pub pools: Seq<Option<Seq<Seq<FrameBufferPlane>>>>,
}

impl AllocatorView {
    /// The stream belongs to the camera the allocator serves.
    pub open spec fn serves(self, stream: Stream) -> bool {
        stream.camera == self.camera && stream.index < self.pools.len()
    }

    /// The buffers allocated for the stream, if any.
    pub open spec fn pool(self, stream: Stream) -> Option<Seq<Seq<FrameBufferPlane>>> {
        if self.serves(stream) {
            self.pools[stream.index as int]
        } else {
            None
        }
    }

    /// How many buffers `buffers(stream)` lists.
    pub open spec fn buffer_count(self, stream: Stream) -> nat {
        match self.pool(stream) {
            Some(b) => b.len(),
            None => 0,
        }
    }

    /// The allocator after an allocation for `stream`, where the pipeline
    /// answered with `allocated` (the planes of each buffer, or a status), and
    /// the result of the allocation. A stream of another camera is refused; a
    /// stream that already has buffers is busy, whatever the pipeline says.
    pub open spec fn allocate(
        self,
        stream: Stream,
        allocated: Result<Seq<Seq<FrameBufferPlane>>, i32>,
    ) -> (AllocatorView, Result<usize, Error>) {
        if !self.serves(stream) {
            (self, Err(error_of(ErrorKind::Allocation, EINVAL)))
        } else if self.pool(stream) is Some {
            (self, Err(error_of(ErrorKind::AllocationBusy, EBUSY)))
        } else {
            match allocated {
                Err(code) => (self, Err(error_of(ErrorKind::Allocation, code))),
                Ok(buffers) => (
                    AllocatorView {
                        pools: self.pools.update(stream.index as int, Some(buffers)),
                        ..self
                    },
                    Ok(buffers.len() as usize),
                ),
            }
        }
    }
}

/// Allocates and owns the frame buffers of a configured camera's streams.
#[derive(Debug)]
pub struct FrameBufferAllocator {
    camera: usize,
    pools: Vec<Option<Vec<Vec<FrameBufferPlane>>>>,
}

impl View for FrameBufferAllocator {
    type V = AllocatorView;

    closed spec fn view(&self) -> AllocatorView {
        AllocatorView {
            camera: self.camera,
            pools: self.pools@.map_values(
                |p: Option<Vec<Vec<FrameBufferPlane>>>|
                    match p {
                        Some(b) => Some(buffer_planes(b@)),
                        None => None,
                    },
            ),
        }
    }
}

impl FrameBufferAllocator {
    /// An allocator with no buffers, for a camera with `stream_count` streams.
    pub(crate) fn new(camera: usize, stream_count: usize) -> (r: FrameBufferAllocator)
        ensures
            r@.camera == camera,
            r@.pools.len() == stream_count,
            forall|i: int| 0 <= i < stream_count ==> #[trigger] r@.pools[i] is None,
    {
        let mut pools: Vec<Option<Vec<Vec<FrameBufferPlane>>>> = Vec::new();
        for i in 0..stream_count
            invariant
                pools@.len() == i,
                forall|j: int| 0 <= j < i ==> #[trigger] pools@[j] is None,
        {
            pools.push(None);
        }
        FrameBufferAllocator { camera, pools }
    }

    /// Takes the buffers that the pipeline allocated for `stream` (or the
    /// status it failed with) into the pool, and returns how many there are.
    /// Allocating again for a stream that has buffers fails as busy.
    pub fn allocate(
        &mut self,
        stream: &Stream,
        allocated: Result<Vec<Vec<FrameBufferPlane>>, i32>,
    ) -> (r: Result<usize, Error>)
        ensures
            ({
                let (after, result) = old(self)@.allocate(
                    *stream,
                    match allocated {
                        Ok(b) => Ok(buffer_planes(b@)),
                        Err(code) => Err(code),
                    },
                );
                final(self)@ == after && r == result
            }),
    {
        let index = stream.index();
        if stream.camera() != self.camera || index >= self.pools.len() {
            return Err(Error { kind: ErrorKind::Allocation, code: EINVAL });
        }
        if self.pools[index].is_some() {
            return Err(Error { kind: ErrorKind::AllocationBusy, code: EBUSY });
        }
        match allocated {
            Err(code) => Err(Error { kind: ErrorKind::Allocation, code }),
            Ok(buffers) => {
                let count = buffers.len();
                let ghost before = self@;
                self.pools.set(index, Some(buffers));
                proof {
                    assert(self@.pools =~= before.pools.update(index as int, Some(buffer_planes(buffers@))));
                }
                Ok(count)
            },
        }
    }

    /// The buffers allocated for `stream`, in order; none for a stream without
    /// buffers or of another camera.
    pub fn buffers(&self, stream: &Stream) -> (r: Vec<FrameBufferRef>)
        ensures
            r@.len() == self@.buffer_count(*stream),
            forall|j: int|
                0 <= j < r@.len() ==> {
                    &&& (#[trigger] r@[j]).spec_stream() == *stream
                    &&& r@[j].spec_index() == j
                    &&& r@[j].spec_planes() == self@.pool(*stream)->Some_0[j]
                },
    {
        let mut out: Vec<FrameBufferRef> = Vec::new();
        let index = stream.index();
        if stream.camera() != self.camera || index >= self.pools.len() {
            return out;
        }
        match &self.pools[index] {
            None => out,
            Some(buffers) => {
                let n = buffers.len();
                let mut j: usize = 0;
                while j < n
                    invariant
                        n == buffers@.len(),
                        j <= n,
                        self.pools@[index as int] == Some(*buffers),
                        index < self.pools@.len(),
                        out@.len() == j,
                        forall|k: int|
                            0 <= k < j ==> {
                                &&& (#[trigger] out@[k]).spec_stream() == *stream
                                &&& out@[k].spec_index() == k
                                &&& out@[k].spec_planes() == buffers@[k]@
                            },
                    decreases n - j,
                {
                    out.push(FrameBufferRef::new(*stream, j, copy_vec(&buffers[j])));
                    j = j + 1;
                }
                assert(self@.pools[index as int] == Some(buffer_planes(buffers@)));
                assert(self@.serves(*stream));
                assert(self@.pool(*stream) == Some(buffer_planes(buffers@)));
                assert forall|k: int| 0 <= k < out@.len() implies (#[trigger] out@[k]).spec_planes() == self@.pool(*stream)->Some_0[k] by {
                    assert(buffer_planes(buffers@)[k] == buffers@[k]@);
                }
                out
            },
        }
    }
}

/// Buffers are allocated once per stream: after an allocation succeeds, the
/// number it returned is the number of buffers listed for the stream, and
/// allocating again for the stream fails as busy, whatever the pipeline says.
pub proof fn lemma_allocate_once_per_stream(
    allocator: AllocatorView,
    stream: Stream,
    first: Result<Seq<Seq<FrameBufferPlane>>, i32>,
    second: Result<Seq<Seq<FrameBufferPlane>>, i32>,
)
    requires
        allocator.allocate(stream, first).1 is Ok,
    ensures
        ({
            let (after, result) = allocator.allocate(stream, first);
            &&& result == Ok::<usize, Error>(after.buffer_count(stream) as usize)
            &&& after.allocate(stream, second) == (after, Err::<usize, Error>(
                error_of(ErrorKind::AllocationBusy, EBUSY),
            ))
        }),
{
}

} // verus!
