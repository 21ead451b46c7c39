use oxr_sync::frame::{FramePhase, FrameSynchronizer, ImageWaitOutcome, OxrFrameState};
use oxr_sync::status::OxrError;

fn frame_state(time: i64, period: i64) -> OxrFrameState {
    OxrFrameState { predicted_display_time: time, predicted_display_period: period }
}

#[test]
fn full_cycle_in_order() {
    let mut sync = FrameSynchronizer::new(3);
    assert_eq!(sync.current_phase(), FramePhase::Idle);

    let fs = frame_state(1_000, 16);
    assert_eq!(sync.wait_frame(Ok(fs)), Ok(fs));
    assert_eq!(sync.current_phase(), FramePhase::Waited);
    assert_eq!(sync.current_frame_state(), fs);

    assert_eq!(sync.begin_frame(Ok(())), Ok(()));
    assert_eq!(sync.current_phase(), FramePhase::Began);

    assert_eq!(sync.acquire_image(Ok(2)), Ok(2));
    assert_eq!(sync.current_phase(), FramePhase::Acquired);
    assert_eq!(sync.held_image(), Some(2));

    assert_eq!(sync.wait_image(ImageWaitOutcome::Ready), Ok(()));
    assert_eq!(sync.current_phase(), FramePhase::Rendering);
    assert_eq!(sync.held_image(), Some(2));

    assert_eq!(sync.release_image(Ok(())), Ok(()));
    assert_eq!(sync.current_phase(), FramePhase::Released);

    assert_eq!(sync.end_frame(Ok(())), Ok(()));
    assert_eq!(sync.current_phase(), FramePhase::Idle);
    assert_eq!(sync.held_image(), None);
}

#[test]
fn every_out_of_order_operation_is_rejected_when_idle() {
    let mut sync = FrameSynchronizer::new(2);
    assert_eq!(sync.begin_frame(Ok(())), Err(OxrError::CallOutOfOrder));
    assert_eq!(sync.acquire_image(Ok(0)), Err(OxrError::CallOutOfOrder));
    assert_eq!(sync.wait_image(ImageWaitOutcome::Ready), Err(OxrError::CallOutOfOrder));
    assert_eq!(sync.release_image(Ok(())), Err(OxrError::CallOutOfOrder));
    assert_eq!(sync.end_frame(Ok(())), Err(OxrError::CallOutOfOrder));
    assert_eq!(sync.current_phase(), FramePhase::Idle);
}

#[test]
fn every_out_of_order_operation_is_rejected_mid_cycle() {
    let mut sync = FrameSynchronizer::new(2);
    sync.wait_frame(Ok(frame_state(5, 1))).unwrap();

    // After wait, only begin is accepted.
    assert_eq!(sync.wait_frame(Ok(frame_state(6, 1))), Err(OxrError::CallOutOfOrder));
    assert_eq!(sync.release_image(Ok(())), Err(OxrError::CallOutOfOrder));
    assert_eq!(sync.end_frame(Ok(())), Err(OxrError::CallOutOfOrder));
    assert_eq!(sync.current_phase(), FramePhase::Waited);
    // The rejected calls changed nothing: the cycle still proceeds.
    sync.begin_frame(Ok(())).unwrap();

    // After begin, only acquire is accepted.
    assert_eq!(sync.begin_frame(Ok(())), Err(OxrError::CallOutOfOrder));
    assert_eq!(sync.end_frame(Ok(())), Err(OxrError::CallOutOfOrder));
    sync.acquire_image(Ok(0)).unwrap();

    // Rendering before the image wait is rejected.
    assert_eq!(sync.release_image(Ok(())), Err(OxrError::CallOutOfOrder));
    sync.wait_image(ImageWaitOutcome::Ready).unwrap();

    // Ending before release is rejected.
    assert_eq!(sync.end_frame(Ok(())), Err(OxrError::CallOutOfOrder));
    sync.release_image(Ok(())).unwrap();
    sync.end_frame(Ok(())).unwrap();
    assert_eq!(sync.current_phase(), FramePhase::Idle);
}

#[test]
fn native_wait_failure_keeps_machine_idle() {
    let mut sync = FrameSynchronizer::new(2);
    assert_eq!(sync.wait_frame(Err(-2)), Err(OxrError::NativeCallFailed(-2)));
    assert_eq!(sync.current_phase(), FramePhase::Idle);
    // The next frame can be attempted immediately.
    assert!(sync.wait_frame(Ok(frame_state(7, 1))).is_ok());
}

#[test]
fn native_begin_failure_aborts_frame() {
    let mut sync = FrameSynchronizer::new(2);
    sync.wait_frame(Ok(frame_state(7, 1))).unwrap();
    assert_eq!(sync.begin_frame(Err(-1)), Err(OxrError::NativeCallFailed(-1)));
    assert_eq!(sync.current_phase(), FramePhase::Idle);
}

#[test]
fn image_timeout_is_recoverable_and_retryable() {
    let mut sync = FrameSynchronizer::new(2);
    sync.wait_frame(Ok(frame_state(7, 1))).unwrap();
    sync.begin_frame(Ok(())).unwrap();
    sync.acquire_image(Ok(1)).unwrap();

    assert_eq!(sync.wait_image(ImageWaitOutcome::TimedOut), Err(OxrError::ImageTimeout));
    // The image stays acquired: the caller may retry with backoff.
    assert_eq!(sync.current_phase(), FramePhase::Acquired);
    assert_eq!(sync.held_image(), Some(1));
    assert_eq!(sync.wait_image(ImageWaitOutcome::Ready), Ok(()));
    assert_eq!(sync.current_phase(), FramePhase::Rendering);
}

#[test]
fn acquire_index_outside_image_set_is_exhaustion() {
    let mut sync = FrameSynchronizer::new(2);
    sync.wait_frame(Ok(frame_state(7, 1))).unwrap();
    sync.begin_frame(Ok(())).unwrap();
    assert_eq!(sync.acquire_image(Ok(2)), Err(OxrError::HandleExhausted));
    assert_eq!(sync.current_phase(), FramePhase::Idle);
    assert_eq!(sync.held_image(), None);
}

#[test]
fn end_failure_still_resets_to_idle() {
    let mut sync = FrameSynchronizer::new(2);
    sync.wait_frame(Ok(frame_state(7, 1))).unwrap();
    sync.begin_frame(Ok(())).unwrap();
    sync.acquire_image(Ok(0)).unwrap();
    sync.wait_image(ImageWaitOutcome::Ready).unwrap();
    sync.release_image(Ok(())).unwrap();
    assert_eq!(sync.end_frame(Err(-9)), Err(OxrError::NativeCallFailed(-9)));
    // The machine resets so the next frame attempt can start.
    assert_eq!(sync.current_phase(), FramePhase::Idle);
    assert!(sync.wait_frame(Ok(frame_state(8, 1))).is_ok());
}
