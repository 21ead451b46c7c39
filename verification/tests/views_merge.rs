use oxr_sync::layers::build_projection_layer;
use oxr_sync::pose::{FovBits, PoseBits, QuaternionBits, Vector3Bits};
use oxr_sync::pose::{ORIENTATION_VALID_BIT, POSITION_VALID_BIT};
use oxr_sync::views::{
    create_view, init_views, locate_views, sanitize_views, update_camera_transform,
    view_for_camera, OxrViews, ViewData,
};

fn sample_view(tag: u32) -> ViewData {
    ViewData {
        pose: PoseBits {
            orientation: QuaternionBits { x: tag, y: tag + 1, z: tag + 2, w: tag + 3 },
            position: Vector3Bits { x: tag + 4, y: tag + 5, z: tag + 6 },
        },
        fov: FovBits {
            angle_left: tag + 7,
            angle_right: tag + 8,
            angle_up: tag + 9,
            angle_down: tag + 10,
        },
    }
}

#[test]
fn init_views_is_two_default_records() {
    let views = init_views();
    assert_eq!(views.0.len(), 2);
    assert_eq!(views.0[0], ViewData::default());
    assert_eq!(views.0[1], ViewData::default());
}

#[test]
fn both_valid_replaces_whole_records() {
    let mut views = init_views();
    let reported = vec![sample_view(100), sample_view(200)];
    locate_views(&mut views, ORIENTATION_VALID_BIT | POSITION_VALID_BIT, &reported);
    assert_eq!(views.0[0], reported[0]);
    assert_eq!(views.0[1], reported[1]);
}

#[test]
fn position_only_keeps_rotation_and_fov() {
    let mut views = OxrViews(vec![sample_view(100), sample_view(200)]);
    let reported = vec![sample_view(300), sample_view(400)];
    locate_views(&mut views, POSITION_VALID_BIT, &reported);
    // Position is updated, rotation is unchanged from the prior frame.
    assert_eq!(views.0[0].pose.position, reported[0].pose.position);
    assert_eq!(views.0[0].pose.orientation, sample_view(100).pose.orientation);
    assert_eq!(views.0[0].fov, sample_view(100).fov);
    assert_eq!(views.0[1].pose.position, reported[1].pose.position);
    assert_eq!(views.0[1].pose.orientation, sample_view(200).pose.orientation);
}

#[test]
fn orientation_only_keeps_position() {
    let mut views = OxrViews(vec![sample_view(100)]);
    let reported = vec![sample_view(300)];
    locate_views(&mut views, ORIENTATION_VALID_BIT, &reported);
    assert_eq!(views.0[0].pose.orientation, reported[0].pose.orientation);
    assert_eq!(views.0[0].pose.position, sample_view(100).pose.position);
    assert_eq!(views.0[0].fov, sample_view(100).fov);
}

#[test]
fn nothing_valid_leaves_records_untouched() {
    let mut views = OxrViews(vec![sample_view(100), sample_view(200)]);
    let reported = vec![sample_view(300), sample_view(400)];
    locate_views(&mut views, 0, &reported);
    assert_eq!(views.0[0], sample_view(100));
    assert_eq!(views.0[1], sample_view(200));
}

#[test]
fn count_change_resizes_and_new_entries_start_default() {
    let mut views = OxrViews(vec![sample_view(100), sample_view(200)]);
    // The runtime reports three views this frame, none of them valid, so
    // the merge leaves every record at its pre-merge value: the grown
    // entry shows the default it started from.
    let reported = vec![sample_view(300), sample_view(400), sample_view(500)];
    locate_views(&mut views, 0, &reported);
    assert_eq!(views.0.len(), 3);
    assert_eq!(views.0[0], sample_view(100));
    assert_eq!(views.0[1], sample_view(200));
    assert_eq!(views.0[2], ViewData::default());
}

#[test]
fn count_change_shrinks_to_reported_count() {
    let mut views = OxrViews(vec![sample_view(100), sample_view(200), sample_view(300)]);
    let reported = vec![sample_view(400)];
    locate_views(&mut views, ORIENTATION_VALID_BIT | POSITION_VALID_BIT, &reported);
    assert_eq!(views.0.len(), 1);
    assert_eq!(views.0[0], reported[0]);
}

#[test]
fn create_view_zeroes_invalid_components() {
    let raw = sample_view(100);
    let v = create_view(ORIENTATION_VALID_BIT, raw);
    assert_eq!(v.pose.orientation, raw.pose.orientation);
    assert_eq!(v.pose.position, Vector3Bits::default());
    assert_eq!(v.fov, raw.fov);

    let v = create_view(POSITION_VALID_BIT, raw);
    assert_eq!(v.pose.orientation, QuaternionBits::default());
    assert_eq!(v.pose.position, raw.pose.position);

    let v = create_view(0, raw);
    assert_eq!(v.pose, PoseBits::default());
    assert_eq!(v.fov, raw.fov);
}

#[test]
fn batch_sanitize_applies_one_flag_word_to_every_record() {
    let raw = vec![sample_view(100), sample_view(200)];
    let out = sanitize_views(POSITION_VALID_BIT, &raw);
    assert_eq!(out.len(), 2);
    for i in 0..2 {
        assert_eq!(out[i].pose.position, raw[i].pose.position);
        assert_eq!(out[i].pose.orientation, QuaternionBits::default());
        assert_eq!(out[i].fov, raw[i].fov);
    }
}

#[test]
fn camera_reads_its_own_view() {
    let views = OxrViews(vec![sample_view(100), sample_view(200)]);
    assert_eq!(view_for_camera(&views, 0), Some(sample_view(100)));
    assert_eq!(view_for_camera(&views, 1), Some(sample_view(200)));
    assert_eq!(view_for_camera(&views, 2), None);

    let mut transform = PoseBits::default();
    assert!(update_camera_transform(&views, 1, &mut transform));
    assert_eq!(transform, sample_view(200).pose);

    let before = transform;
    assert!(!update_camera_transform(&views, 5, &mut transform));
    assert_eq!(transform, before);
}

#[test]
fn projection_layer_covers_both_eyes_on_shared_swapchain() {
    let views = OxrViews(vec![sample_view(100), sample_view(200)]);
    let layer = build_projection_layer(&views, 1832, 1920);
    assert_eq!(layer.views.len(), 2);
    for eye in 0..2 {
        assert_eq!(layer.views[eye].pose, views.0[eye].pose);
        assert_eq!(layer.views[eye].fov, views.0[eye].fov);
        assert_eq!(layer.views[eye].sub_image.image_array_index, eye as u32);
        assert_eq!(layer.views[eye].sub_image.rect_width, 1832);
        assert_eq!(layer.views[eye].sub_image.rect_height, 1920);
    }
}
