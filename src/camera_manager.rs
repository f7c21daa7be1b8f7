//! The root owner of the camera devices: enumeration, and the record of which
//! devices this process holds exclusive access to.
//!
//! A handle dropped without a release leaves its device recorded as held;
//! `forget_holder` frees the record once the pipeline has let the device go.
use vstd::prelude::*;

use crate::camera::{AvailableCamera, Camera};
use crate::error::{error_of, ok_if_zero, Error, ErrorKind, EBUSY};

verus! {

/// A manager as values: the identifier of each device, by device index, and
/// whether this process holds it.
pub struct ManagerView {
    pub ids: Seq<String>,
    pub held: Seq<bool>,
}

impl ManagerView {
    /// Acquiring device `index`, where the pipeline answered `status`. A device
    /// already held is busy, whatever the pipeline says.
    pub open spec fn acquire(self, index: usize, status: i32) -> (ManagerView, Result<(), Error>) {
        if self.held[index as int] {
            (self, Err(error_of(ErrorKind::Acquisition, EBUSY)))
        } else if status != 0 {
            (self, Err(error_of(ErrorKind::Acquisition, status)))
        } else {
            (ManagerView { held: self.held.update(index as int, true), ..self }, Ok(()))
        }
    }

    /// Releasing device `index`, where the pipeline answered `status`.
    pub open spec fn release(self, index: usize, status: i32) -> (ManagerView, Result<(), Error>) {
        if status != 0 {
            (self, Err(error_of(ErrorKind::Release, status)))
        } else {
            (ManagerView { held: self.held.update(index as int, false), ..self }, Ok(()))
        }
    }
}

/// Enumerates the camera devices and records which of them are held. It must
/// outlive every camera it hands out.
#[derive(Debug)]
pub struct CameraManager {
    ids: Vec<String>,
    held: Vec<bool>,
}

impl View for CameraManager {
    type V = ManagerView;

    closed spec fn view(&self) -> ManagerView {
        ManagerView { ids: self.ids@, held: self.held@ }
    }
}

impl CameraManager {
    /// There is one record of holding for each device.
    pub open spec fn wf(&self) -> bool {
        self@.ids.len() == self@.held.len()
    }

    /// A started manager for the devices the pipeline listed, none of them
    /// held; the pipeline's start status decides whether there is one.
    pub fn create(start_status: i32, camera_ids: Vec<String>) -> (r: Result<CameraManager, Error>)
        ensures
            start_status != 0 ==> r == Err::<CameraManager, Error>(
                error_of(ErrorKind::ManagerStart, start_status),
            ),
            start_status == 0 ==> (r matches Ok(m) && m.wf() && m@.ids == camera_ids@ && forall|i: int|
                0 <= i < m@.held.len() ==> !#[trigger] m@.held[i]),
    {
        ok_if_zero(start_status, ErrorKind::ManagerStart)?;
        let n = camera_ids.len();
        let mut held: Vec<bool> = Vec::new();
        for i in 0..n
            invariant
                held@.len() == i,
                forall|j: int| 0 <= j < i ==> !#[trigger] held@[j],
        {
            held.push(false);
        }
        Ok(CameraManager { ids: camera_ids, held })
    }

    /// The number of devices.
    pub fn len(&self) -> (r: usize)
        requires
            self.wf(),
        ensures
            r == self@.ids.len(),
    {
        self.ids.len()
    }

    /// Whether this process holds device `index`.
    pub fn is_held(&self, index: usize) -> (r: bool)
        requires
            self.wf(),
            index < self@.ids.len(),
        ensures
            r == self@.held[index as int],
    {
        self.held[index]
    }

    /// A handle to each device, in device order.
    pub fn cameras(&self) -> (r: Vec<AvailableCamera>)
        requires
            self.wf(),
        ensures
            r@.len() == self@.ids.len(),
            forall|i: int|
                0 <= i < r@.len() ==> (#[trigger] r@[i]).spec_index() == i && r@[i].spec_id()
                    == self@.ids[i]@,
    {
        let mut out: Vec<AvailableCamera> = Vec::new();
        let n = self.ids.len();
        for i in 0..n
            invariant
                n == self.ids@.len(),
                out@.len() == i,
                forall|j: int|
                    0 <= j < i ==> (#[trigger] out@[j]).spec_index() == j && out@[j].spec_id()
                        == self.ids@[j]@,
        {
            out.push(AvailableCamera::new(Camera::new(i, self.ids[i].clone())));
        }
        out
    }

    /// Records device `index` as free again once the pipeline has let it go
    /// after its holder's handle was dropped without a release.
    pub fn forget_holder(&mut self, index: usize)
        requires
            old(self).wf(),
            index < old(self)@.ids.len(),
        ensures
            final(self).wf(),
            final(self)@ == (ManagerView { held: old(self)@.held.update(index as int, false), ..old(self)@ }),
    {
        self.held.set(index, false);
    }

    pub(crate) fn acquire_device(&mut self, index: usize, status: i32) -> (r: Result<(), Error>)
        requires
            old(self).wf(),
            index < old(self)@.ids.len(),
        ensures
            final(self).wf(),
            (final(self)@, r) == old(self)@.acquire(index, status),
    {
        if self.held[index] {
            return Err(Error { kind: ErrorKind::Acquisition, code: EBUSY });
        }
        ok_if_zero(status, ErrorKind::Acquisition)?;
        self.held.set(index, true);
        Ok(())
    }

    pub(crate) fn release_device(&mut self, index: usize, status: i32) -> (r: Result<(), Error>)
        requires
            old(self).wf(),
            index < old(self)@.ids.len(),
        ensures
            final(self).wf(),
            (final(self)@, r) == old(self)@.release(index, status),
    {
        ok_if_zero(status, ErrorKind::Release)?;
        self.held.set(index, false);
        Ok(())
    }
}

/// Access is exclusive: once a device is acquired, acquiring it again fails as
/// busy whatever the pipeline says; once it is released, acquiring it succeeds
/// where the pipeline agrees.
pub proof fn lemma_exclusive_acquisition(m: ManagerView, index: usize, status: i32, again: i32)
    requires
        index < m.held.len(),
        m.acquire(index, status).1 is Ok,
    ensures
        ({
            let acquired = m.acquire(index, status).0;
            &&& acquired.acquire(index, again) == (acquired, Err::<(), Error>(
                error_of(ErrorKind::Acquisition, EBUSY),
            ))
            &&& acquired.release(index, 0).1 is Ok
            &&& acquired.release(index, 0).0.acquire(index, 0).1 is Ok
        }),
{
}

} // verus!
