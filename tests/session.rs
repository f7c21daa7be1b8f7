use libcamera::{
    AcquiredCamera, CameraConfiguration, CameraConfigurationStatus, CameraManager,
    ConfiguredCamera, ErrorKind, FrameBufferPlane, PixelFormat, RequestOutcome, RequestStatus,
    RunningCamera, Size, StreamConfigurationOpaque, StreamRole, EBUSY, EINVAL, EXDEV,
};

fn manager() -> CameraManager {
    CameraManager::create(0, vec!["/base/cam0".to_string(), "/base/cam1".to_string()]).unwrap()
}

fn stream_config(buffer_count: u32) -> StreamConfigurationOpaque {
    StreamConfigurationOpaque::new(
        PixelFormat { fourcc: 0x3231_5559, modifier: 0 },
        Size { width: 640, height: 480 },
        1280,
        614400,
        buffer_count,
    )
}

fn acquired(m: &mut CameraManager, index: usize) -> AcquiredCamera {
    let cam = m.cameras().remove(index);
    cam.acquire(m, 0).ok().unwrap()
}

fn validated_config(cam: &AcquiredCamera, streams: usize) -> CameraConfiguration {
    let roles = vec![StreamRole::Viewfinder; streams];
    let offered = (0..streams).map(|_| stream_config(4)).collect();
    let mut config = cam.generate_configuration(&roles, Some(offered)).unwrap();
    assert_eq!(config.validate(CameraConfigurationStatus::Valid), CameraConfigurationStatus::Valid);
    config
}

fn configured(m: &mut CameraManager, streams: usize) -> (ConfiguredCamera, CameraConfiguration) {
    let cam = acquired(m, 0);
    let mut config = validated_config(&cam, streams);
    let cam = cam.configure(&mut config, 0).ok().unwrap();
    (cam, config)
}

fn running(m: &mut CameraManager) -> (RunningCamera, CameraConfiguration) {
    let (cam, config) = configured(m, 1);
    (cam.start(0).ok().unwrap(), config)
}

fn planes(n: u32) -> Vec<FrameBufferPlane> {
    (0..n).map(|i| FrameBufferPlane { fd: 9, offset: i * 100, length: 100 }).collect()
}

#[test]
fn manager_lists_cameras_in_order() {
    let m = manager();
    assert_eq!(m.len(), 2);
    let cams = m.cameras();
    assert_eq!(cams.len(), 2);
    assert_eq!(cams[0].id(), "/base/cam0");
    assert_eq!(cams[1].id(), "/base/cam1");
    assert!(!m.is_held(0));
}

#[test]
fn manager_start_failure_is_an_error() {
    let e = CameraManager::create(-5, vec![]).unwrap_err();
    assert_eq!(e.kind, ErrorKind::ManagerStart);
    assert_eq!(e.code, -5);
}

#[test]
fn acquiring_a_held_camera_fails() {
    let mut m = manager();
    let first = acquired(&mut m, 0);
    assert!(m.is_held(0));
    let again = m.cameras().remove(0);
    let (back, e) = again.acquire(&mut m, 0).err().unwrap();
    assert_eq!(e.kind, ErrorKind::Acquisition);
    assert_eq!(e.code, EBUSY);
    assert_eq!(back.id(), "/base/cam0");
    assert_eq!(first.id(), "/base/cam0");
}

#[test]
fn release_then_acquire_succeeds() {
    let mut m = manager();
    let cam = acquired(&mut m, 1);
    let cam = cam.release(&mut m, 0).ok().unwrap();
    assert!(!m.is_held(1));
    let cam = cam.acquire(&mut m, 0).ok().unwrap();
    assert_eq!(cam.id(), "/base/cam1");
    assert!(m.is_held(1));
}

#[test]
fn pipeline_refusal_of_acquire_keeps_camera_available() {
    let mut m = manager();
    let cam = m.cameras().remove(0);
    let (cam, e) = cam.acquire(&mut m, -19).err().unwrap();
    assert_eq!(e.kind, ErrorKind::Acquisition);
    assert_eq!(e.code, -19);
    assert!(!m.is_held(0));
    assert!(cam.acquire(&mut m, 0).is_ok());
}

#[test]
fn failed_release_keeps_camera_held() {
    let mut m = manager();
    let cam = acquired(&mut m, 0);
    let (cam, e) = cam.release(&mut m, -16).err().unwrap();
    assert_eq!(e.kind, ErrorKind::Release);
    assert!(m.is_held(0));
    assert!(cam.release(&mut m, 0).is_ok());
    assert!(!m.is_held(0));
}

#[test]
fn unsatisfiable_roles_give_no_configuration() {
    let mut m = manager();
    let cam = acquired(&mut m, 0);
    let roles = [StreamRole::Raw, StreamRole::StillCapture];
    assert!(cam.generate_configuration(&roles, None).is_none());
    assert!(cam.generate_configuration(&roles, Some(vec![stream_config(1)])).is_none());
    assert!(cam.generate_configuration(&[], Some(vec![])).is_none());
}

#[test]
fn negotiated_configuration_has_one_entry_per_role() {
    let mut m = manager();
    let cam = acquired(&mut m, 0);
    let roles = [StreamRole::Viewfinder, StreamRole::StillCapture];
    let config = cam
        .generate_configuration(&roles, Some(vec![stream_config(2), stream_config(3)]))
        .unwrap();
    assert_eq!(config.stream_configs_len(), 2);
    assert_eq!(config.stream_config(1).buffer_count(), 3);
    assert!(config.stream_config(0).stream().is_none());
    assert_eq!(config.validation_status(), None);
}

#[test]
fn zero_buffers_are_never_valid() {
    let mut m = manager();
    let cam = acquired(&mut m, 0);
    let mut config = cam
        .generate_configuration(&[StreamRole::Viewfinder, StreamRole::Raw], Some(vec![stream_config(0), stream_config(2)]))
        .unwrap();
    let status = config.validate(CameraConfigurationStatus::Valid);
    assert_eq!(status, CameraConfigurationStatus::Adjusted);
    assert_eq!(config.stream_config(0).buffer_count(), 1);
    assert_eq!(config.stream_config(1).buffer_count(), 2);
    config.stream_config_mut(0).set_buffer_count(0);
    assert_eq!(config.validation_status(), None);
    assert_eq!(config.validate(CameraConfigurationStatus::Invalid), CameraConfigurationStatus::Invalid);
}

#[test]
fn pipeline_adjustment_is_reported() {
    let mut m = manager();
    let cam = acquired(&mut m, 0);
    let mut config = cam.generate_configuration(&[StreamRole::Raw], Some(vec![stream_config(4)])).unwrap();
    assert_eq!(config.validate(CameraConfigurationStatus::Adjusted), CameraConfigurationStatus::Adjusted);
    assert_eq!(config.stream_config(0).buffer_count(), 4);
}

#[test]
fn configure_needs_a_validated_configuration() {
    let mut m = manager();
    let cam = acquired(&mut m, 0);
    let mut config = cam.generate_configuration(&[StreamRole::Raw], Some(vec![stream_config(4)])).unwrap();
    let (cam, e) = cam.configure(&mut config, 0).err().unwrap();
    assert_eq!(e.kind, ErrorKind::Configuration);
    assert_eq!(e.code, EINVAL);
    assert_eq!(config.validate(CameraConfigurationStatus::Invalid), CameraConfigurationStatus::Invalid);
    let (cam, e) = cam.configure(&mut config, 0).err().unwrap();
    assert_eq!(e.code, EINVAL);
    assert_eq!(config.validate(CameraConfigurationStatus::Valid), CameraConfigurationStatus::Valid);
    let (cam, e) = cam.configure(&mut config, -22).err().unwrap();
    assert_eq!(e.kind, ErrorKind::Configuration);
    assert_eq!(e.code, -22);
    assert!(config.stream_config(0).stream().is_none());
    let cam = cam.configure(&mut config, 0).ok().unwrap();
    let stream = config.stream_config(0).stream().unwrap();
    assert_eq!(stream.index(), 0);
    assert_eq!(stream.camera(), 0);
    assert_eq!(cam.id(), "/base/cam0");
}

#[test]
fn configure_refuses_another_cameras_configuration() {
    let mut m = manager();
    let cam0 = acquired(&mut m, 0);
    let cam1 = acquired(&mut m, 1);
    let mut config = validated_config(&cam0, 1);
    let (_, e) = cam1.configure(&mut config, 0).err().unwrap();
    assert_eq!(e.kind, ErrorKind::Configuration);
    assert_eq!(e.code, EXDEV);
}

#[test]
fn start_failure_hands_the_camera_back() {
    let mut m = manager();
    let (cam, _config) = configured(&mut m, 1);
    let (cam, e) = cam.start(-5).err().unwrap();
    assert_eq!(e.kind, ErrorKind::Start);
    assert_eq!(e.code, -5);
    assert!(cam.start(0).is_ok());
}

#[test]
fn allocate_twice_is_busy_and_count_matches_buffers() {
    let mut m = manager();
    let (cam, config) = configured(&mut m, 2);
    let mut alloc = cam.new_frame_buffer_allocator();
    let stream = config.stream_config(0).stream().unwrap();
    let n = alloc.allocate(&stream, Ok(vec![planes(2), planes(1), planes(3)])).unwrap();
    assert_eq!(n, 3);
    let bufs = alloc.buffers(&stream);
    assert_eq!(bufs.len(), n);
    assert_eq!(bufs[2].planes(), planes(3));
    assert_eq!(bufs[1].index(), 1);
    assert_eq!(bufs[0].stream(), stream);
    let e = alloc.allocate(&stream, Ok(vec![planes(1)])).unwrap_err();
    assert_eq!(e.kind, ErrorKind::AllocationBusy);
    assert_eq!(e.code, EBUSY);
    assert_eq!(alloc.buffers(&stream).len(), 3);
    let other = config.stream_config(1).stream().unwrap();
    assert_eq!(alloc.buffers(&other).len(), 0);
    assert_eq!(alloc.allocate(&other, Ok(vec![planes(1)])).unwrap(), 1);
}

#[test]
fn failed_allocation_leaves_stream_free() {
    let mut m = manager();
    let (cam, config) = configured(&mut m, 1);
    let mut alloc = cam.new_frame_buffer_allocator();
    let stream = config.stream_config(0).stream().unwrap();
    let e = alloc.allocate(&stream, Err(-12)).unwrap_err();
    assert_eq!(e.kind, ErrorKind::Allocation);
    assert_eq!(e.code, -12);
    assert_eq!(alloc.buffers(&stream).len(), 0);
    assert_eq!(alloc.allocate(&stream, Ok(vec![])).unwrap(), 0);
    assert_eq!(alloc.allocate(&stream, Ok(vec![planes(1)])).unwrap_err().kind, ErrorKind::AllocationBusy);
}

#[test]
fn allocator_refuses_another_cameras_stream() {
    let mut m = manager();
    let (cam0, config0) = configured(&mut m, 1);
    let cam1 = acquired(&mut m, 1);
    let mut config1 = validated_config(&cam1, 1);
    let _cam1 = cam1.configure(&mut config1, 0).ok().unwrap();
    let mut alloc = cam0.new_frame_buffer_allocator();
    let foreign = config1.stream_config(0).stream().unwrap();
    let e = alloc.allocate(&foreign, Ok(vec![planes(1)])).unwrap_err();
    assert_eq!(e.kind, ErrorKind::Allocation);
    assert_eq!(e.code, EINVAL);
    assert!(config0.stream_config(0).stream().is_some());
}

#[test]
fn request_completes_exactly_once() {
    let mut m = manager();
    let (cam, config) = configured(&mut m, 1);
    let mut alloc = cam.new_frame_buffer_allocator();
    let stream = config.stream_config(0).stream().unwrap();
    alloc.allocate(&stream, Ok(vec![planes(2)])).unwrap();
    let mut buffer = alloc.buffers(&stream).pop().unwrap();
    let mut request = cam.create_request(77);
    assert_eq!(request.cookie(), 77);
    request.add_buffer(&mut buffer, 0).unwrap();
    assert_eq!(request.buffers().len(), 1);
    assert_eq!(request.buffers()[0].stream, stream);
    let cam = cam.start(0).ok().unwrap();
    request.complete(RequestOutcome::Complete, 1);
    assert_eq!(request.status(), RequestStatus::Pending);
    cam.queue_request(&mut request, 0).unwrap();
    assert_eq!(request.status(), RequestStatus::Pending);
    request.complete(RequestOutcome::Complete, 12);
    assert_eq!(request.status(), RequestStatus::Complete);
    assert_eq!(request.sequence(), 12);
    request.complete(RequestOutcome::Cancelled, 13);
    assert_eq!(request.status(), RequestStatus::Complete);
    assert_eq!(request.sequence(), 12);
}

#[test]
fn cancelled_request_stays_cancelled() {
    let mut m = manager();
    let (cam, _config) = running(&mut m);
    let mut request = cam.create_request(1);
    cam.queue_request(&mut request, 0).unwrap();
    request.complete(RequestOutcome::Cancelled, 3);
    assert_eq!(request.status(), RequestStatus::Cancelled);
    request.complete(RequestOutcome::Complete, 4);
    assert_eq!(request.status(), RequestStatus::Cancelled);
}

#[test]
fn a_request_is_queued_at_most_once() {
    let mut m = manager();
    let (cam, _config) = running(&mut m);
    let mut request = cam.create_request(5);
    let e = cam.queue_request(&mut request, -22).unwrap_err();
    assert_eq!(e.kind, ErrorKind::Queue);
    assert_eq!(e.code, -22);
    cam.queue_request(&mut request, 0).unwrap();
    let e = cam.queue_request(&mut request, 0).unwrap_err();
    assert_eq!(e.kind, ErrorKind::Queue);
    assert_eq!(e.code, EBUSY);
}

#[test]
fn another_cameras_buffer_is_refused() {
    let mut m = manager();
    let (cam0, config0) = configured(&mut m, 1);
    let cam1 = acquired(&mut m, 1);
    let mut config1 = validated_config(&cam1, 1);
    let cam1 = cam1.configure(&mut config1, 0).ok().unwrap();
    let mut alloc = cam0.new_frame_buffer_allocator();
    let stream = config0.stream_config(0).stream().unwrap();
    alloc.allocate(&stream, Ok(vec![planes(1)])).unwrap();
    let mut buffer = alloc.buffers(&stream).pop().unwrap();
    let mut request = cam1.create_request(9);
    let e = request.add_buffer(&mut buffer, 0).unwrap_err();
    assert_eq!(e.kind, ErrorKind::AddBuffer);
    assert_eq!(e.code, EXDEV);
    let mut own = cam0.create_request(10);
    let e = own.add_buffer(&mut buffer, -17).unwrap_err();
    assert_eq!(e.kind, ErrorKind::AddBuffer);
    assert_eq!(e.code, -17);
    assert!(own.buffers().is_empty());
}

#[test]
fn another_cameras_request_is_not_queued() {
    let mut m = manager();
    let (running0, _config0) = running(&mut m);
    let cam1 = acquired(&mut m, 1);
    let mut config1 = validated_config(&cam1, 1);
    let cam1 = cam1.configure(&mut config1, 0).ok().unwrap();
    let mut request = cam1.create_request(3);
    let e = running0.queue_request(&mut request, 0).unwrap_err();
    assert_eq!(e.code, EXDEV);
    assert_eq!(request.status(), RequestStatus::Pending);
}

#[test]
fn buffer_metadata_starts_empty_and_records_reports() {
    let mut m = manager();
    let (cam, config) = configured(&mut m, 1);
    let mut alloc = cam.new_frame_buffer_allocator();
    let stream = config.stream_config(0).stream().unwrap();
    alloc.allocate(&stream, Ok(vec![planes(2)])).unwrap();
    let mut buffer = alloc.buffers(&stream).pop().unwrap();
    assert_eq!(buffer.metadata().status, libcamera::FrameStatus::Startup);
    buffer.set_metadata(libcamera::FrameMetadata {
        status: libcamera::FrameStatus::Success,
        sequence: 4,
        timestamp: 1000,
        planes: vec![libcamera::FramePlaneMetadata { bytes_used: 100 }],
    });
    let md = buffer.metadata();
    assert_eq!(md.sequence, 4);
    assert_eq!(md.planes.len(), 1);
}

#[test]
fn stream_configuration_setters_change_one_field() {
    let mut c = stream_config(1);
    c.set_size(Size { width: 2, height: 3 });
    c.set_stride(8);
    c.set_frame_size(24);
    c.set_pixel_format(PixelFormat { fourcc: 1, modifier: 2 });
    assert_eq!(c.size(), Size { width: 2, height: 3 });
    assert_eq!(c.stride(), 8);
    assert_eq!(c.frame_size(), 24);
    assert_eq!(c.pixel_format(), PixelFormat { fourcc: 1, modifier: 2 });
    assert_eq!(c.buffer_count(), 1);
}

#[test]
fn a_dropped_holder_can_be_forgotten() {
    let mut m = manager();
    let cam = acquired(&mut m, 0);
    drop(cam);
    assert!(m.is_held(0));
    m.forget_holder(0);
    assert!(!m.is_held(0));
    assert!(m.cameras().remove(0).acquire(&mut m, 0).is_ok());
}
