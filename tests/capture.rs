use hmd_capture::compositor::{self, CompositorErrorKind, VREye};
use hmd_capture::directx::{self, D3DError, DeviceOwnership, DeviceRelease};
use hmd_capture::mirror::{
    read_mapped, staging_desc, ReleaseStep, TextureChain, TextureDesc, CPU_ACCESS_READ,
    CPU_ACCESS_WRITE, FORMAT_R8G8B8A8_UNORM, USAGE_STAGING,
};
use hmd_capture::openvr_load::{
    check_load, fn_table_key, ApplicationType, Context, InitError, INIT_ALREADY_RUNNING,
    INIT_INTERFACE_NOT_FOUND,
};
use hmd_capture::pixels::{compose_side_by_side, extract_rows, try_compose_side_by_side, PixelImage};
use hmd_capture::report::StrError;
use hmd_capture::settings;
use hmd_capture::system::{self, property_buffer, property_bytes};
use hmd_capture::tracked_camera::{
    self, allocate_frame_buffer, camera_image, force_opaque, AcquisitionState, FrameAcquisition, poll_step, FrameType, PollAction,
    TrackedCameraError, CAMERA_NO_FRAME_AVAILABLE, POLL_DEADLINE_MS, POLL_INTERVAL_MS,
};

fn solid(width: u32, height: u32, value: u8) -> PixelImage {
    PixelImage::from_raw(width, height, vec![value; (width * height * 4) as usize]).unwrap()
}

fn not_ready() -> Result<(), TrackedCameraError> {
    Err(TrackedCameraError { code: CAMERA_NO_FRAME_AVAILABLE, name: "VRTrackedCameraError_NoFrameAvailable".to_string() })
}

#[test]
fn mirror_image_of_unequal_eyes_is_220_by_100() {
    let left = solid(100, 100, 1);
    let right = solid(120, 100, 2);
    let img = compose_side_by_side(&left, &right);
    assert_eq!(img.width(), 220);
    assert_eq!(img.height(), 100);
    let data = img.into_raw();
    assert_eq!(data.len(), 220 * 100 * 4);
    let row = 37usize;
    assert_eq!(data[row * 880 + 399], 1);
    assert_eq!(data[row * 880 + 400], 2);
    assert_eq!(data[row * 880 + 879], 2);
}

#[test]
fn mirror_image_height_is_the_taller_eye() {
    let left = solid(2, 3, 7);
    let right = solid(1, 1, 9);
    let img = compose_side_by_side(&left, &right);
    assert_eq!((img.width(), img.height()), (3, 3));
    let data = img.into_raw();
    // row 0: two left pixels, one right pixel
    assert_eq!(&data[0..12], &[7, 7, 7, 7, 7, 7, 7, 7, 9, 9, 9, 9]);
    // row 2: right eye has ended, zero fill
    assert_eq!(&data[24..36], &[7, 7, 7, 7, 7, 7, 7, 7, 0, 0, 0, 0]);
}

#[test]
fn pixel_image_rejects_wrong_length() {
    assert!(PixelImage::from_raw(2, 2, vec![0u8; 15]).is_none());
    assert!(PixelImage::from_raw(2, 2, vec![0u8; 16]).is_some());
    // a longer buffer is accepted and kept whole
    assert_eq!(PixelImage::from_raw(1, 1, vec![5u8; 6]).unwrap().into_raw(), vec![5u8; 6]);
}

#[test]
fn rows_are_read_without_padding() {
    // 1 pixel wide, 2 rows, row pitch 8: the last 4 bytes of each row are padding
    let data: Vec<u8> = vec![1, 2, 3, 4, 90, 91, 92, 93, 5, 6, 7, 8, 94, 95, 96, 97];
    let img = extract_rows(&data, 8, 1, 2);
    assert_eq!((img.width(), img.height()), (1, 2));
    assert_eq!(img.into_raw(), vec![1, 2, 3, 4, 5, 6, 7, 8]);
}

#[test]
fn mapped_read_failure_yields_no_image() {
    let r = read_mapped(-2147024809, &[], 0, 4, 4);
    assert_eq!(r.err().unwrap(), D3DError(-2147024809));
    let ok = read_mapped(0, &[1, 2, 3, 4, 0, 0], 6, 1, 1).unwrap();
    assert_eq!(ok.into_raw(), vec![1, 2, 3, 4]);
}

#[test]
fn alpha_is_forced_opaque() {
    let mut buf: Vec<u8> = vec![10, 20, 30, 0, 40, 50, 60, 1, 70, 80, 90, 2];
    force_opaque(&mut buf);
    assert_eq!(buf, vec![10, 20, 30, 255, 40, 50, 60, 255, 70, 80, 90, 255]);
    let mut short: Vec<u8> = vec![1, 2, 3];
    force_opaque(&mut short);
    assert_eq!(short, vec![1, 2, 3]);
}

#[test]
fn too_small_size_query_allocates_reported_size() {
    let buf = allocate_frame_buffer(tracked_camera::CAMERA_INVALID_FRAME_BUFFER_SIZE, 4096, None).unwrap();
    assert_eq!(buf.len(), 4096);
    assert!(buf.iter().all(|b| *b == 0));
    let buf2 = allocate_frame_buffer(0, 64, None).unwrap();
    assert_eq!(buf2.len(), 64);
}

#[test]
fn failed_size_query_is_a_hard_failure() {
    let e = allocate_frame_buffer(105, 4096, Some("VRTrackedCameraError_NotSupportedForThisDevice".to_string())).unwrap_err();
    assert_eq!(e.code, 105);
    assert_eq!(e.name, "VRTrackedCameraError_NotSupportedForThisDevice");
}

#[test]
fn five_not_ready_results_time_out() {
    let mut retries = 0;
    let mut elapsed: u64 = 0;
    let mut outcome = None;
    for _ in 0..5 {
        match poll_step(not_ready(), elapsed) {
            PollAction::Retry { wait_ms } => {
                retries += 1;
                elapsed += wait_ms;
            }
            other => {
                outcome = Some(other);
                break;
            }
        }
    }
    assert_eq!(retries, 4);
    match outcome {
        Some(PollAction::TimedOut(e)) => assert_eq!(e.code, CAMERA_NO_FRAME_AVAILABLE),
        other => panic!("expected a timeout, got {:?}", other),
    }
    assert!(elapsed < POLL_DEADLINE_MS);
}

#[test]
fn first_attempt_success_needs_no_wait() {
    assert!(matches!(poll_step(Ok(()), 0), PollAction::Ready));
}

#[test]
fn not_ready_before_deadline_waits_one_interval() {
    match poll_step(not_ready(), 0) {
        PollAction::Retry { wait_ms } => assert_eq!(wait_ms, POLL_INTERVAL_MS),
        other => panic!("expected a retry, got {:?}", other),
    }
}

#[test]
fn other_poll_failure_aborts_at_once() {
    let e = TrackedCameraError { code: 100, name: "VRTrackedCameraError_OperationFailed".to_string() };
    match poll_step(Err(e), 0) {
        PollAction::Failed(e) => assert_eq!(e.code, 100),
        other => panic!("expected a hard failure, got {:?}", other),
    }
}

#[test]
fn camera_check_err_names() {
    assert!(tracked_camera::check_err(0, None).is_ok());
    let e = tracked_camera::check_err(113, None).unwrap_err();
    assert_eq!(e.name, "VRTrackedCameraError_UnknownError");
    let e = tracked_camera::check_err(113, Some("VRTrackedCameraError_NoFrameAvailable".to_string())).unwrap_err();
    assert_eq!(e.name, "VRTrackedCameraError_NoFrameAvailable");
}

#[test]
fn unknown_compositor_code_maps_to_unknown_error() {
    let e = compositor::check_err(9999).unwrap_err();
    assert_eq!(e.code, 9999);
    assert_eq!(e.kind, CompositorErrorKind::UnknownError);
    assert_eq!(e.name(), "VRCompositorError_UnknownError");
}

#[test]
fn known_compositor_codes() {
    assert!(compositor::check_err(0).is_ok());
    assert_eq!(compositor::check_err(1).unwrap_err().kind, CompositorErrorKind::RequestFailed);
    let e = compositor::check_err(101).unwrap_err();
    assert_eq!(e.kind, CompositorErrorKind::DoNotHaveFocus);
    assert_eq!(e.name(), "VRCompositorError_DoNotHaveFocus");
    assert_eq!(compositor::check_err(109).unwrap_err().kind, CompositorErrorKind::InvalidBounds);
    assert_eq!(compositor::check_err(110).unwrap_err().kind, CompositorErrorKind::UnknownError);
}

#[test]
fn eye_and_frame_type_codes() {
    assert_eq!(VREye::Left.code(), 0);
    assert_eq!(VREye::Right.code(), 1);
    assert_eq!(FrameType::Distorted.code(), 0);
    assert_eq!(FrameType::MaximumUndistorted.code(), 2);
    assert_eq!(ApplicationType::Other.code(), 0);
    assert_eq!(ApplicationType::Bootstrapper.code(), 7);
}

#[test]
fn hresult_sign_decides() {
    assert!(directx::check_err(0).is_ok());
    assert!(directx::check_err(1).is_ok());
    assert_eq!(directx::check_err(-1).unwrap_err().code(), -1);
}

#[test]
fn mirror_chain_releases_in_order_once() {
    let mut chain = TextureChain::acquired();
    chain.staging_created();
    assert!(chain.can_capture());
    chain.record_capture();
    let steps = chain.release();
    assert_eq!(steps, vec![ReleaseStep::StagingTexture, ReleaseStep::Resource, ReleaseStep::ResourceView]);
    assert!(chain.release().is_empty());
    assert!(!chain.can_capture());
}

#[test]
fn uncaptured_chain_still_releases() {
    let mut chain = TextureChain::acquired();
    chain.staging_created();
    assert_eq!(chain.release(), vec![ReleaseStep::StagingTexture, ReleaseStep::Resource, ReleaseStep::ResourceView]);
}

#[test]
fn failed_staging_creation_releases_view_and_resource() {
    let mut chain = TextureChain::acquired();
    assert!(!chain.can_capture());
    assert_eq!(chain.release(), vec![ReleaseStep::Resource, ReleaseStep::ResourceView]);
}

#[test]
fn device_releases_context_then_device_once() {
    let mut dev = DeviceOwnership::created();
    assert_eq!(dev.release(), vec![DeviceRelease::Context, DeviceRelease::Device]);
    assert!(dev.release().is_empty());
}

#[test]
fn staging_description_keeps_geometry() {
    let src = TextureDesc {
        width: 1852, height: 2056, mip_levels: 1, array_size: 1, format: 29,
        sample_count: 1, sample_quality: 0, usage: 0, bind_flags: 8,
        cpu_access_flags: 0, misc_flags: 2,
    };
    let d = staging_desc(&src);
    assert_eq!((d.width, d.height, d.mip_levels, d.array_size), (1852, 2056, 1, 1));
    assert_eq!(d.format, FORMAT_R8G8B8A8_UNORM);
    assert_eq!(d.usage, USAGE_STAGING);
    assert_eq!(d.bind_flags, 0);
    assert_eq!(d.cpu_access_flags, CPU_ACCESS_READ | CPU_ACCESS_WRITE);
    assert_eq!(d.misc_flags, 2);
}

#[test]
fn property_errors_are_named() {
    assert!(system::check_err(0).is_ok());
    let e = system::check_err(8).unwrap_err();
    assert_eq!(e.name, "TrackedProp_StringExceedsMaximumLength");
    assert_eq!(system::check_err(42).unwrap_err().name, "TrackedProp_UnknownError");
}

#[test]
fn property_buffer_tolerates_too_small() {
    assert_eq!(property_buffer(3, 12).unwrap().len(), 12);
    assert_eq!(property_buffer(5, 12).unwrap_err().name, "TrackedProp_InvalidDevice");
}

#[test]
fn property_bytes_drops_terminator() {
    assert_eq!(property_bytes(b"LHR-1234\0").unwrap(), b"LHR-1234".to_vec());
    assert!(property_bytes(b"").is_none());
    assert!(property_bytes(b"a\0b\0").is_none());
}

#[test]
fn settings_errors_are_named() {
    assert!(settings::check_err(0, None).is_ok());
    assert_eq!(settings::check_err(3, None).unwrap_err().name, "VRSettingsError_UnknownError");
    assert_eq!(settings::check_err(3, Some("VRSettingsError_ReadFailed".to_string())).unwrap_err().name, "VRSettingsError_ReadFailed");
}

#[test]
fn session_opens_only_on_clean_init() {
    assert_eq!(Context::new(ApplicationType::Other, false, 0, true).unwrap().app_type(), ApplicationType::Other);
    assert_eq!(Context::new(ApplicationType::Other, false, 108, true).unwrap_err(), InitError(108));
    assert_eq!(Context::new(ApplicationType::Scene, false, 0, false).unwrap_err(), InitError(INIT_INTERFACE_NOT_FOUND));
}

#[test]
fn interface_lookup() {
    assert_eq!(fn_table_key(b"IVRCompositor_029"), b"FnTable:IVRCompositor_029".to_vec());
    assert!(check_load(0).is_ok());
    assert_eq!(check_load(1).unwrap_err(), InitError(INIT_INTERFACE_NOT_FOUND));
}

#[test]
fn str_error_keeps_message() {
    let e = StrError::new("No camera in HMD");
    assert_eq!(e.message(), "No camera in HMD");
    assert_eq!(e.0, "No camera in HMD");
}

#[test]
fn camera_settings_plan_changes_only_what_differs() {
    let p = settings::camera_settings_plan(false, 1, 2);
    assert!(p.enable_camera);
    assert!(!p.set_room_view);
    assert!(p.set_room_view_style);
    let q = settings::camera_settings_plan(true, 0, 4);
    assert_eq!(q, settings::CameraSettingsPlan { enable_camera: false, set_room_view: true, set_room_view_style: false });
}

#[test]
fn camera_frame_becomes_opaque_image() {
    let img = camera_image(2, 1, vec![1, 2, 3, 4, 5, 6, 7, 8]).unwrap();
    assert_eq!((img.width(), img.height()), (2, 1));
    assert_eq!(img.into_raw(), vec![1, 2, 3, 255, 5, 6, 7, 255]);
}

#[test]
fn short_camera_frame_is_rejected() {
    let e = camera_image(2, 2, vec![0u8; 15]).err().unwrap();
    assert_eq!(e.message(), "Failed to parse camera frame");
}

#[test]
fn acquisition_runs_to_frame_ready() {
    let mut acq = FrameAcquisition::new();
    assert_eq!(acq.state(), AcquisitionState::Inactive);
    assert!(acq.service_activated(Ok(())).is_ok());
    assert_eq!(acq.state(), AcquisitionState::ServiceAcquired);
    let buf = acq.size_buffer(tracked_camera::CAMERA_INVALID_FRAME_BUFFER_SIZE, 4096, None).unwrap();
    assert_eq!(buf.len(), 4096);
    assert_eq!(acq.state(), AcquisitionState::PollingForFrame);
    assert!(matches!(acq.attempt_done(not_ready(), 0), PollAction::Retry { .. }));
    assert_eq!(acq.state(), AcquisitionState::PollingForFrame);
    assert!(matches!(acq.attempt_done(Ok(()), 1000), PollAction::Ready));
    assert_eq!(acq.state(), AcquisitionState::FrameReady);
}

#[test]
fn acquisition_times_out_after_five_not_ready() {
    let mut acq = FrameAcquisition::new();
    acq.service_activated(Ok(())).unwrap();
    acq.size_buffer(0, 16, None).unwrap();
    for k in 0..4u64 {
        assert!(matches!(acq.attempt_done(not_ready(), k * 1000), PollAction::Retry { .. }));
    }
    assert!(matches!(acq.attempt_done(not_ready(), 4000), PollAction::TimedOut(_)));
    assert_eq!(acq.state(), AcquisitionState::TimedOut);
}

#[test]
fn failed_activation_is_terminal() {
    let mut acq = FrameAcquisition::new();
    let e = TrackedCameraError { code: 105, name: "VRTrackedCameraError_NotSupportedForThisDevice".to_string() };
    assert_eq!(acq.service_activated(Err(e)).unwrap_err().code, 105);
    assert_eq!(acq.state(), AcquisitionState::HardFailure);
}

#[test]
fn failed_size_query_is_terminal() {
    let mut acq = FrameAcquisition::new();
    acq.service_activated(Ok(())).unwrap();
    assert!(acq.size_buffer(104, 4096, None).is_err());
    assert_eq!(acq.state(), AcquisitionState::HardFailure);
}

#[test]
fn checked_composite_matches_plain_one() {
    let img = try_compose_side_by_side(&solid(1, 2, 3), &solid(2, 1, 4)).unwrap();
    assert_eq!((img.width(), img.height()), (3, 2));
    assert_eq!(img.into_raw(), vec![3, 3, 3, 3, 4, 4, 4, 4, 4, 4, 4, 4, 3, 3, 3, 3, 0, 0, 0, 0, 0, 0, 0, 0]);
}

#[test]
fn second_session_is_refused() {
    let first = Context::new(ApplicationType::Other, false, 0, true).unwrap();
    let second = Context::new(ApplicationType::Other, true, 0, true);
    assert_eq!(second.unwrap_err(), InitError(INIT_ALREADY_RUNNING));
    assert_eq!(first.app_type(), ApplicationType::Other);
}
