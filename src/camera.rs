//! The camera session as a sequence of phase types: available, acquired,
//! configured, running. Each transition consumes the handle of the phase it
//! leaves, so an operation that a phase does not offer cannot be reached. A
//! transition that fails hands the handle back with the error.
use vstd::prelude::*;

use crate::camera_configuration::{bound_configs, CameraConfiguration, CameraConfigurationStatus};
use crate::camera_manager::CameraManager;
use crate::error::{error_of, ok_if_zero, Error, ErrorKind, EINVAL, EXDEV};
use crate::frame_buffer_allocator::FrameBufferAllocator;
use crate::request::{Request, RequestView};
use crate::stream_configuration::{StreamConfigurationOpaque, StreamConfigurationView, StreamRole};

verus! {

/// One capture device: its index among the manager's devices and its stable
/// identifier.
#[derive(Debug)]
pub struct Camera {
    index: usize,
    id: String,
}

impl Camera {
    pub closed spec fn spec_index(&self) -> usize {
        self.index
    }

    pub closed spec fn spec_id(&self) -> Seq<char> {
        self.id@
    }

    pub(crate) fn new(index: usize, id: String) -> (r: Camera)
        ensures
            r.spec_index() == index,
            r.spec_id() == id@,
    {
        Camera { index, id }
    }

    /// The device's stable identifier.
    pub fn id(&self) -> (r: String)
        ensures
            r@ == self.spec_id(),
    {
        self.id.clone()
    }

    /// The device's index among the manager's devices.
    pub fn index(&self) -> (r: usize)
        ensures
            r == self.spec_index(),
    {
        self.index
    }
}

/// A camera that may be acquired for exclusive access.
#[derive(Debug)]
pub struct AvailableCamera {
    camera: Camera,
}

/// A camera this process holds exclusive access to.
#[derive(Debug)]
pub struct AcquiredCamera {
    camera: Camera,
}

/// A camera configured with a validated configuration of `stream_count`
/// streams.
#[derive(Debug)]
pub struct ConfiguredCamera {
    camera: Camera,
    stream_count: usize,
}

/// A camera that is streaming.
#[derive(Debug)]
pub struct RunningCamera {
    camera: Camera,
    stream_count: usize,
}

/// A validation outcome that allows the configuration to be applied.
pub open spec fn validated(v: Option<CameraConfigurationStatus>) -> bool {
    v matches Some(s) && s != CameraConfigurationStatus::Invalid
}

/// The configuration that negotiation offered for `roles`, where the pipeline
/// offered `offered`: none where it offered nothing, where no role was asked
/// for, or where the offer does not hold one entry per role.
pub open spec fn negotiated(roles: Seq<StreamRole>, offered: Option<Seq<StreamConfigurationView>>) -> Option<
    Seq<StreamConfigurationView>,
> {
    match offered {
        Some(c) => if roles.len() > 0 && c.len() == roles.len() {
            Some(Seq::new(c.len(), |i: int| StreamConfigurationView { stream: None, ..c[i] }))
        } else {
            None
        },
        None => None,
    }
}

impl AvailableCamera {
    pub closed spec fn spec_index(&self) -> usize {
        self.camera.spec_index()
    }

    pub closed spec fn spec_id(&self) -> Seq<char> {
        self.camera.spec_id()
    }

    pub(crate) fn new(camera: Camera) -> (r: AvailableCamera)
        ensures
            r.spec_index() == camera.spec_index(),
            r.spec_id() == camera.spec_id(),
    {
        AvailableCamera { camera }
    }

    pub fn id(&self) -> (r: String)
        ensures
            r@ == self.spec_id(),
    {
        self.camera.id()
    }

    /// Takes exclusive access to the device, where the pipeline answered
    /// `status`. A device this process already holds is busy.
    pub fn acquire(self, manager: &mut CameraManager, status: i32) -> (r: Result<AcquiredCamera, (AvailableCamera, Error)>)
        requires
            old(manager).wf(),
            self.spec_index() < old(manager)@.ids.len(),
        ensures
            final(manager).wf(),
            ({
                let (after, result) = old(manager)@.acquire(self.spec_index(), status);
                &&& final(manager)@ == after
                &&& match r {
                    Ok(c) => result is Ok && c.spec_index() == self.spec_index() && c.spec_id() == self.spec_id(),
                    Err((c, e)) => result == Err::<(), Error>(e) && c.spec_index() == self.spec_index()
                        && c.spec_id() == self.spec_id(),
                }
            }),
    {
        match manager.acquire_device(self.camera.index, status) {
            Ok(()) => Ok(AcquiredCamera { camera: self.camera }),
            Err(e) => Err((self, e)),
        }
    }
}

impl AcquiredCamera {
    pub closed spec fn spec_index(&self) -> usize {
        self.camera.spec_index()
    }

    pub closed spec fn spec_id(&self) -> Seq<char> {
        self.camera.spec_id()
    }

    pub fn id(&self) -> (r: String)
        ensures
            r@ == self.spec_id(),
    {
        self.camera.id()
    }

    /// Gives up exclusive access, where the pipeline answered `status`.
    pub fn release(self, manager: &mut CameraManager, status: i32) -> (r: Result<AvailableCamera, (AcquiredCamera, Error)>)
        requires
            old(manager).wf(),
            self.spec_index() < old(manager)@.ids.len(),
        ensures
            final(manager).wf(),
            ({
                let (after, result) = old(manager)@.release(self.spec_index(), status);
                &&& final(manager)@ == after
                &&& match r {
                    Ok(c) => result is Ok && c.spec_index() == self.spec_index() && c.spec_id() == self.spec_id(),
                    Err((c, e)) => result == Err::<(), Error>(e) && c.spec_index() == self.spec_index()
                        && c.spec_id() == self.spec_id(),
                }
            }),
    {
        match manager.release_device(self.camera.index, status) {
            Ok(()) => Ok(AvailableCamera { camera: self.camera }),
            Err(e) => Err((self, e)),
        }
    }

    /// The configuration for `stream_roles`, from what the pipeline offered for
    /// them. A negotiation miss is none, not an error.
    pub fn generate_configuration(
        &self,
        stream_roles: &[StreamRole],
        offered: Option<Vec<StreamConfigurationOpaque>>,
    ) -> (r: Option<CameraConfiguration>)
        ensures
            match negotiated(
                stream_roles@,
                match offered {
                    Some(c) => Some(c@.map_values(|s: StreamConfigurationOpaque| s@)),
                    None => None,
                },
            ) {
                Some(configs) => (r matches Some(c) && c.configs() == configs && c.spec_camera()
                    == self.spec_index() && c.validation() is None),
                None => r is None,
            },
            offered is None ==> r is None,
            r matches Some(c) ==> c.configs().len() == stream_roles@.len() && stream_roles@.len() > 0,
    {
        match offered {
            None => None,
            Some(configs) => {
                let n = configs.len();
                if stream_roles.len() == 0 || n != stream_roles.len() {
                    return None;
                }
                let ghost offered_views = configs@.map_values(|s: StreamConfigurationOpaque| s@);
                let mut out: Vec<StreamConfigurationOpaque> = Vec::new();
                for i in 0..n
                    invariant
                        n == configs@.len(),
                        offered_views == configs@.map_values(|s: StreamConfigurationOpaque| s@),
                        out@.len() == i,
                        forall|j: int|
                            0 <= j < i ==> (#[trigger] out@[j])@ == (StreamConfigurationView {
                                stream: None,
                                ..offered_views[j]
                            }),
                {
                    out.push(configs[i].unbound());
                }
                let config = CameraConfiguration::new(self.camera.index, out);
                assert(config.configs() =~= Seq::new(
                    offered_views.len(),
                    |i: int| StreamConfigurationView { stream: None, ..offered_views[i] },
                ));
                Some(config)
            },
        }
    }

    /// Applies a validated configuration, where the pipeline answered
    /// `status`. A configuration made for another camera, or one that was not
    /// validated or was found invalid, is refused. On success each entry is
    /// bound to the stream at its position.
    pub fn configure(self, config: &mut CameraConfiguration, status: i32) -> (r: Result<ConfiguredCamera, (AcquiredCamera, Error)>)
        ensures
            match r {
                Ok(c) => c.spec_id() == self.spec_id(),
                Err((c, _)) => c.spec_index() == self.spec_index() && c.spec_id() == self.spec_id(),
            },
            old(config).spec_camera() != self.spec_index() ==> (r matches Err((_, e)) && e == error_of(
                ErrorKind::Configuration,
                EXDEV,
            ) && *final(config) == *old(config)),
            old(config).spec_camera() == self.spec_index() && !validated(old(config).validation()) ==> (r matches Err((_, e))
                && e == error_of(ErrorKind::Configuration, EINVAL) && *final(config) == *old(config)),
            old(config).spec_camera() == self.spec_index() && validated(old(config).validation()) && status != 0
                ==> (r matches Err((_, e)) && e == error_of(ErrorKind::Configuration, status) && *final(config)
                == *old(config)),
            old(config).spec_camera() == self.spec_index() && validated(old(config).validation()) && status == 0
                ==> (r matches Ok(c) && c.spec_index() == self.spec_index() && c.spec_stream_count()
                == old(config).configs().len()),
            old(config).spec_camera() == self.spec_index() && validated(old(config).validation()) && status == 0
                ==> final(config).configs() == bound_configs(self.spec_index(), old(config).configs())
                && final(config).validation() == old(config).validation() && final(config).spec_camera()
                == old(config).spec_camera(),
    {
        if config.camera() != self.camera.index {
            return Err((self, Error { kind: ErrorKind::Configuration, code: EXDEV }));
        }
        match config.validation_status() {
            None => {
                return Err((self, Error { kind: ErrorKind::Configuration, code: EINVAL }));
            },
            Some(CameraConfigurationStatus::Invalid) => {
                return Err((self, Error { kind: ErrorKind::Configuration, code: EINVAL }));
            },
            Some(_) => {},
        }
        if let Err(e) = ok_if_zero(status, ErrorKind::Configuration) {
            return Err((self, e));
        }
        let stream_count = config.bind_streams();
        Ok(ConfiguredCamera { camera: self.camera, stream_count })
    }
}

/// A request made by the camera with device index `camera`.
fn make_request(camera: usize, cookie: u64) -> (r: Request)
    ensures
        r@ == RequestView::created(camera, cookie),
{
    Request::new(camera, cookie)
}

impl ConfiguredCamera {
    pub closed spec fn spec_index(&self) -> usize {
        self.camera.spec_index()
    }

    pub closed spec fn spec_id(&self) -> Seq<char> {
        self.camera.spec_id()
    }

    pub closed spec fn spec_stream_count(&self) -> usize {
        self.stream_count
    }

    pub fn id(&self) -> (r: String)
        ensures
            r@ == self.spec_id(),
    {
        self.camera.id()
    }

    /// An allocator for the buffers of this camera's streams, with none
    /// allocated yet.
    pub fn new_frame_buffer_allocator(&self) -> (r: FrameBufferAllocator)
        ensures
            r@.camera == self.spec_index(),
            r@.pools.len() == self.spec_stream_count(),
            forall|i: int| 0 <= i < self.spec_stream_count() ==> #[trigger] r@.pools[i] is None,
    {
        FrameBufferAllocator::new(self.camera.index, self.stream_count)
    }

    /// A new pending request carrying `cookie`.
    pub fn create_request(&self, cookie: u64) -> (r: Request)
        ensures
            r@ == RequestView::created(self.spec_index(), cookie),
    {
        make_request(self.camera.index, cookie)
    }

    /// Starts streaming, where the pipeline answered `status`.
    pub fn start(self, status: i32) -> (r: Result<RunningCamera, (ConfiguredCamera, Error)>)
        ensures
            status == 0 ==> (r matches Ok(c) && c.spec_index() == self.spec_index() && c.spec_id()
                == self.spec_id() && c.spec_stream_count() == self.spec_stream_count()),
            status != 0 ==> (r matches Err((c, e)) && e == error_of(ErrorKind::Start, status)
                && c.spec_index() == self.spec_index() && c.spec_id() == self.spec_id()
                && c.spec_stream_count() == self.spec_stream_count()),
    {
        match ok_if_zero(status, ErrorKind::Start) {
            Ok(()) => Ok(RunningCamera { camera: self.camera, stream_count: self.stream_count }),
            Err(e) => Err((self, e)),
        }
    }
}

impl RunningCamera {
    pub closed spec fn spec_index(&self) -> usize {
        self.camera.spec_index()
    }

    pub closed spec fn spec_id(&self) -> Seq<char> {
        self.camera.spec_id()
    }

    pub closed spec fn spec_stream_count(&self) -> usize {
        self.stream_count
    }

    pub fn id(&self) -> (r: String)
        ensures
            r@ == self.spec_id(),
    {
        self.camera.id()
    }

    /// A new pending request carrying `cookie`.
    pub fn create_request(&self, cookie: u64) -> (r: Request)
        ensures
            r@ == RequestView::created(self.spec_index(), cookie),
    {
        make_request(self.camera.index, cookie)
    }

    /// Queues `request` for capture, where the pipeline answered `status`. A
    /// request of another camera, or one already queued, is refused.
    pub fn queue_request(&self, request: &mut Request, status: i32) -> (r: Result<(), Error>)
        ensures
            (final(request)@, r) == old(request)@.queue(self.spec_index(), status),
    {
        request.queue_on(self.camera.index, status)
    }
}

} // verus!
