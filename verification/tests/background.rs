use background_layer::background::{
    Background, BackgroundMode, DrawCommand, ImageData, Matrix, ReloadStatus, Viewport,
};

/// The conversion the embedding renderer applies before calling
/// `set_opacity`: scale a nominal `[0.0, 1.0]` opacity to the 8-bit
/// range, truncating toward zero (the cast saturates on its own, and
/// the layer saturates again).
fn scaled(opacity: f32) -> i64 {
    (opacity * 255.0) as i64
}

#[test]
fn default_state_is_unconfigured_and_opaque() {
    let bg = Background::default();
    assert_eq!(bg.fill_mode, BackgroundMode::Stretch);
    assert_eq!(bg.matrix, Matrix { sx_num: 1, sx_den: 1, sy_num: 1, sy_den: 1 });
    assert_eq!(bg.paint.alpha, 255);
    assert!(bg.image_path.is_none());
    assert!(bg.image.is_none());
    assert!(bg.viewport.is_none());
}

#[test]
fn opacity_half_truncates_consistently() {
    let mut bg = Background::default();
    bg.set_opacity(scaled(0.5));
    assert_eq!(bg.paint.alpha, 127);
}

#[test]
fn opacity_above_one_saturates_to_opaque() {
    let mut bg = Background::default();
    bg.set_opacity(scaled(2.0));
    assert_eq!(bg.paint.alpha, 255);
}

#[test]
fn opacity_below_zero_saturates_to_transparent() {
    let mut bg = Background::default();
    bg.set_opacity(scaled(-1.0));
    assert_eq!(bg.paint.alpha, 0);
}

#[test]
fn opacity_in_range_is_kept_exactly() {
    let mut bg = Background::default();
    bg.set_opacity(51);
    assert_eq!(bg.paint.alpha, 51);
    bg.set_opacity(0);
    assert_eq!(bg.paint.alpha, 0);
    bg.set_opacity(255);
    assert_eq!(bg.paint.alpha, 255);
}

#[test]
fn same_path_twice_requests_one_decode() {
    let mut bg = Background::default();
    assert!(bg.load_image(String::from("bg.png")));
    let st = bg.reload_image(Some(ImageData { width: 8, height: 8 }));
    assert_eq!(st, ReloadStatus::Reloaded);
    // The same path again is a no-op: no second decode is requested.
    assert!(!bg.load_image(String::from("bg.png")));
    assert_eq!(bg.image, Some(ImageData { width: 8, height: 8 }));
}

#[test]
fn different_path_requests_second_decode_and_replaces_image() {
    let mut bg = Background::default();
    assert!(bg.load_image(String::from("first.png")));
    bg.reload_image(Some(ImageData { width: 8, height: 8 }));
    assert!(bg.load_image(String::from("second.png")));
    assert_eq!(bg.image_path, Some(String::from("second.png")));
    let st = bg.reload_image(Some(ImageData { width: 16, height: 4 }));
    assert_eq!(st, ReloadStatus::Reloaded);
    assert_eq!(bg.image, Some(ImageData { width: 16, height: 4 }));
}

#[test]
fn reload_without_path_reports_no_image_configured() {
    let mut bg = Background::default();
    let st = bg.reload_image(None);
    assert_eq!(st, ReloadStatus::NoImageConfigured);
    assert!(bg.image.is_none());
    assert!(bg.image_path.is_none());
}

#[test]
fn failed_decode_keeps_prior_image() {
    let mut bg = Background::default();
    bg.load_image(String::from("bg.png"));
    bg.reload_image(Some(ImageData { width: 8, height: 8 }));
    // The file turned corrupt or unsupported: the decode comes back empty.
    let st = bg.reload_image(None);
    assert_eq!(st, ReloadStatus::ImageLoadError);
    assert_eq!(bg.image, Some(ImageData { width: 8, height: 8 }));
}

#[test]
fn failed_first_decode_leaves_image_absent() {
    let mut bg = Background::default();
    bg.load_image(String::from("broken.png"));
    let st = bg.reload_image(None);
    assert_eq!(st, ReloadStatus::ImageLoadError);
    assert!(bg.image.is_none());
}

#[test]
fn draw_without_image_is_a_silent_no_op() {
    let bg = Background::default();
    assert_eq!(bg.draw(), None);
}

#[test]
fn draw_after_load_composites_at_origin_with_current_alpha() {
    let mut bg = Background::default();
    assert!(bg.load_image(String::from("valid.png")));
    bg.reload_image(Some(ImageData { width: 8, height: 8 }));
    let cmd = bg.draw().expect("an image is loaded");
    assert_eq!(
        cmd,
        DrawCommand {
            image: ImageData { width: 8, height: 8 },
            offset_x: 0,
            offset_y: 0,
            alpha: 255,
            matrix: Matrix { sx_num: 1, sx_den: 1, sy_num: 1, sy_den: 1 },
        }
    );
    bg.set_opacity(scaled(0.2));
    let cmd = bg.draw().expect("an image is loaded");
    assert_eq!(cmd.alpha, 51);
    assert_eq!(cmd.offset_x, 0);
    assert_eq!(cmd.offset_y, 0);
}

#[test]
fn stretch_scales_each_axis_to_the_viewport() {
    let mut bg = Background::default();
    bg.load_image(String::from("bg.png"));
    bg.reload_image(Some(ImageData { width: 100, height: 50 }));
    bg.update_window_info(0, 0, 200, 200);
    assert_eq!(bg.viewport, Some(Viewport { x: 0, y: 0, width: 200, height: 200 }));
    assert_eq!(bg.matrix, Matrix { sx_num: 200, sx_den: 100, sy_num: 200, sy_den: 50 });
}

#[test]
fn fill_scales_uniformly_to_cover_wide_image() {
    let mut bg = Background {
        fill_mode: BackgroundMode::Fill,
        ..Background::default()
    };
    bg.load_image(String::from("bg.png"));
    bg.reload_image(Some(ImageData { width: 100, height: 50 }));
    bg.update_window_info(0, 0, 200, 200);
    // The vertical ratio (200/50) is the larger one, so it drives both axes.
    assert_eq!(bg.matrix, Matrix { sx_num: 200, sx_den: 50, sy_num: 200, sy_den: 50 });
}

#[test]
fn fill_scales_uniformly_to_cover_tall_image() {
    let mut bg = Background {
        fill_mode: BackgroundMode::Fill,
        ..Background::default()
    };
    bg.load_image(String::from("bg.png"));
    bg.reload_image(Some(ImageData { width: 50, height: 100 }));
    bg.update_window_info(0, 0, 200, 200);
    // The horizontal ratio (200/50) is the larger one.
    assert_eq!(bg.matrix, Matrix { sx_num: 200, sx_den: 50, sy_num: 200, sy_den: 50 });
}

#[test]
fn matrix_refreshes_when_reload_follows_viewport() {
    let mut bg = Background::default();
    bg.update_window_info(10, 20, 300, 150);
    // No image yet: the cached matrix stays the identity.
    assert_eq!(bg.matrix, Matrix { sx_num: 1, sx_den: 1, sy_num: 1, sy_den: 1 });
    bg.load_image(String::from("bg.png"));
    bg.reload_image(Some(ImageData { width: 30, height: 30 }));
    assert_eq!(bg.matrix, Matrix { sx_num: 300, sx_den: 30, sy_num: 150, sy_den: 30 });
}

#[test]
fn fill_handles_maximal_dimensions() {
    let mut bg = Background {
        fill_mode: BackgroundMode::Fill,
        ..Background::default()
    };
    bg.load_image(String::from("big.png"));
    bg.reload_image(Some(ImageData { width: u32::MAX, height: u32::MAX }));
    bg.update_window_info(0, 0, u32::MAX, 1);
    // The horizontal ratio (MAX/MAX) is the larger one, so it drives both axes.
    assert_eq!(
        bg.matrix,
        Matrix { sx_num: u32::MAX, sx_den: u32::MAX, sy_num: u32::MAX, sy_den: u32::MAX }
    );
}

#[test]
fn degenerate_image_dimensions_leave_matrix_identity() {
    let mut bg = Background::default();
    bg.update_window_info(0, 0, 200, 200);
    bg.load_image(String::from("empty.png"));
    bg.reload_image(Some(ImageData { width: 0, height: 7 }));
    assert_eq!(bg.matrix, Matrix { sx_num: 1, sx_den: 1, sy_num: 1, sy_den: 1 });
}
