//! The ordered stream configurations of one camera session, and their
//! validation.
use vstd::prelude::*;

use crate::stream_configuration::{Stream, StreamConfigurationOpaque, StreamConfigurationView};

verus! {

/// The outcome of validating a configuration.
#[derive(Clone, Copy, Debug, PartialEq, Eq, Structural)]
pub enum CameraConfigurationStatus {
    /// Usable as it is.
    Valid,
    /// Usable after the changes that validation made.
    Adjusted,
    /// Not usable.
    Invalid,
}

/// The fewest buffers a stream may be given.
pub const MIN_BUFFER_COUNT: u32 = 1;

/// Some stream asks for no buffers at all.
pub open spec fn has_zero_buffers(configs: Seq<StreamConfigurationView>) -> bool {
    exists|i: int| 0 <= i < configs.len() && #[trigger] configs[i].buffer_count == 0
}

/// A stream configuration with a buffer count of zero raised to the minimum.
pub open spec fn with_min_buffers(c: StreamConfigurationView) -> StreamConfigurationView {
    if c.buffer_count == 0 {
        StreamConfigurationView { buffer_count: MIN_BUFFER_COUNT, ..c }
    } else {
        c
    }
}

/// The verdict on a configuration, given the pipeline's verdict on it: the
/// pipeline's, except that a configuration in which the library had to raise a
/// buffer count is at best adjusted.
pub open spec fn validation_outcome(
    configs: Seq<StreamConfigurationView>,
    pipeline: CameraConfigurationStatus,
) -> CameraConfigurationStatus {
    match pipeline {
        CameraConfigurationStatus::Invalid => CameraConfigurationStatus::Invalid,
        CameraConfigurationStatus::Adjusted => CameraConfigurationStatus::Adjusted,
        CameraConfigurationStatus::Valid => if has_zero_buffers(configs) {
            CameraConfigurationStatus::Adjusted
        } else {
            CameraConfigurationStatus::Valid
        },
    }
}

/// The configuration after it was applied to camera `camera`: each entry bound
/// to the stream at its position.
pub open spec fn bound_configs(camera: usize, configs: Seq<StreamConfigurationView>) -> Seq<
    StreamConfigurationView,
> {
    Seq::new(
        configs.len(),
        |i: int| StreamConfigurationView { stream: Some(Stream { camera, index: i as usize }), ..configs[i] },
    )
}

/// The stream configurations negotiated for one camera, in the order of the
/// roles they were requested for, with the outcome of the last validation
/// (none once an entry has been handed out for change since).
#[derive(Debug)]
pub struct CameraConfiguration {
    camera: usize,
    configs: Vec<StreamConfigurationOpaque>,
    validation: Option<CameraConfigurationStatus>,
}

impl CameraConfiguration {
    /// The device index of the camera the configuration was made for.
    pub closed spec fn spec_camera(&self) -> usize {
        self.camera
    }

    pub closed spec fn configs(&self) -> Seq<StreamConfigurationView> {
        self.configs@.map_values(|c: StreamConfigurationOpaque| c@)
    }

    pub closed spec fn validation(&self) -> Option<CameraConfigurationStatus> {
        self.validation
    }

    pub(crate) fn new(camera: usize, configs: Vec<StreamConfigurationOpaque>) -> (r: CameraConfiguration)
        ensures
            r.spec_camera() == camera,
            r.configs() == configs@.map_values(|c: StreamConfigurationOpaque| c@),
            r.validation() is None,
    {
        CameraConfiguration { camera, configs, validation: None }
    }

    pub fn stream_configs_len(&self) -> (r: usize)
        ensures
            r == self.configs().len(),
    {
        self.configs.len()
    }

    pub fn stream_config(&self, index: usize) -> (r: &StreamConfigurationOpaque)
        requires
            index < self.configs().len(),
        ensures
            r@ == self.configs()[index as int],
    {
        &self.configs[index]
    }

    /// The entry at `index`, for change. Handing it out discards the outcome of
    /// any earlier validation.
    pub fn stream_config_mut(&mut self, index: usize) -> (r: &mut StreamConfigurationOpaque)
        requires
            index < old(self).configs().len(),
        ensures
            r@ == old(self).configs()[index as int],
            final(self).configs() == old(self).configs().update(index as int, final(r)@),
            final(self).validation() is None,
            final(self).spec_camera() == old(self).spec_camera(),
    {
        self.validation = None;
        &mut self.configs[index]
    }

    /// Checks the configuration, given the pipeline's verdict on it. A stream
    /// asking for no buffers is raised to the minimum, so that the outcome is
    /// never valid with a stream that has no buffers.
    pub fn validate(&mut self, pipeline: CameraConfigurationStatus) -> (r: CameraConfigurationStatus)
        ensures
            r == validation_outcome(old(self).configs(), pipeline),
            final(self).configs() == old(self).configs().map_values(
                |c: StreamConfigurationView| with_min_buffers(c),
            ),
            final(self).validation() == Some(r),
            final(self).spec_camera() == old(self).spec_camera(),
            has_zero_buffers(old(self).configs()) ==> r != CameraConfigurationStatus::Valid,
            forall|i: int|
                0 <= i < final(self).configs().len() ==> #[trigger] final(self).configs()[i].buffer_count
                    >= MIN_BUFFER_COUNT,
    {
        let n = self.configs.len();
        let mut raised = false;
        let ghost before = self.configs();
        for i in 0..n
            invariant
                n == self.configs@.len(),
                before.len() == n,
                self.validation == old(self).validation,
                self.camera == old(self).camera,
                before == old(self).configs(),
                forall|j: int| 0 <= j < i ==> #[trigger] self.configs()[j] == with_min_buffers(before[j]),
                forall|j: int| i <= j < n ==> #[trigger] self.configs()[j] == before[j],
                raised <==> exists|j: int| 0 <= j < i && #[trigger] before[j].buffer_count == 0,
        {
            let ghost prev = self.configs();
            if self.configs[i].buffer_count() == 0 {
                self.configs[i].set_buffer_count(MIN_BUFFER_COUNT);
                raised = true;
                assert(self.configs()[i as int] == with_min_buffers(before[i as int]));
                assert forall|j: int| 0 <= j < n && j != i implies #[trigger] self.configs()[j] == prev[j] by {}
            } else {
                assert(self.configs()[i as int] == with_min_buffers(before[i as int]));
            }
            assert(before[i as int].buffer_count == 0 ==> raised);
        }
        assert(self.configs() =~= before.map_values(|c: StreamConfigurationView| with_min_buffers(c)));
        assert(raised == has_zero_buffers(before));
        let r = match pipeline {
            CameraConfigurationStatus::Invalid => CameraConfigurationStatus::Invalid,
            CameraConfigurationStatus::Adjusted => CameraConfigurationStatus::Adjusted,
            CameraConfigurationStatus::Valid => if raised {
                CameraConfigurationStatus::Adjusted
            } else {
                CameraConfigurationStatus::Valid
            },
        };
        self.validation = Some(r);
        r
    }

    /// The device index of the camera the configuration was made for.
    pub fn camera(&self) -> (r: usize)
        ensures
            r == self.spec_camera(),
    {
        self.camera
    }

    /// The outcome of the last validation, if no entry was handed out for
    /// change since.
    pub fn validation_status(&self) -> (r: Option<CameraConfigurationStatus>)
        ensures
            r == self.validation(),
    {
        self.validation
    }

    /// Binds each entry to the stream at its position of this configuration's
    /// camera, and returns the number of streams.
    pub(crate) fn bind_streams(&mut self) -> (r: usize)
        ensures
            r == old(self).configs().len(),
            final(self).configs() == bound_configs(old(self).spec_camera(), old(self).configs()),
            final(self).validation() == old(self).validation(),
            final(self).spec_camera() == old(self).spec_camera(),
    {
        let n = self.configs.len();
        let ghost before = self.configs();
        for i in 0..n
            invariant
                n == self.configs@.len(),
                before.len() == n,
                self.validation == old(self).validation,
                self.camera == old(self).camera,
                before == old(self).configs(),
                forall|j: int| 0 <= j < i ==> #[trigger] self.configs()[j] == bound_configs(self.camera, before)[j],
                forall|j: int| i <= j < n ==> #[trigger] self.configs()[j] == before[j],
        {
            let ghost prev = self.configs();
            let stream = Stream { camera: self.camera, index: i };
            assert(prev[i as int] == before[i as int]);
            assert(prev[i as int] == self.configs@[i as int]@);
            self.configs[i].bind(stream);
            assert(self.configs@[i as int]@ == (StreamConfigurationView { stream: Some(stream), ..before[i as int] }));
            assert(self.configs()[i as int] == self.configs@[i as int]@);
            assert(self.configs()[i as int] == bound_configs(self.camera, before)[i as int]);
            assert forall|j: int| 0 <= j < n && j != i implies #[trigger] self.configs()[j] == prev[j] by {}
        }
        assert(self.configs() =~= bound_configs(self.camera, before));
        n
    }
}

} // verus!
