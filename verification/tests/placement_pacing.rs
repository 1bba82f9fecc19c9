use libretro_frontend::pacing::StepPacer;
use libretro_frontend::scale::calc_dest_scale;

#[test]
fn matching_aspect_scales_uniformly_and_centers_at_origin() {
    // Ideal 320x240, buffer 320x240, window 800x600: both axis fits are
    // 2.5, so the scale factor is 2.5 on both axes and the offsets vanish.
    let p = calc_dest_scale(320, 240, 320, 240, 800, 600).unwrap();
    assert_eq!(p.scale_x_num as f32 / p.scale_x_den as f32, 2.5);
    assert_eq!(p.scale_y_num as f32 / p.scale_y_den as f32, 2.5);
    assert_eq!(p.offset_x_num, 0);
    assert_eq!(p.offset_y_num, 0);
}

#[test]
fn mismatched_aspect_takes_the_smaller_fit_and_letterboxes() {
    // Window 800x480 against ideal 320x240: the fits are 2.5 and 2.0, the
    // smaller wins, and the leftover width is split evenly: 80 a side.
    let p = calc_dest_scale(320, 240, 320, 240, 800, 480).unwrap();
    assert_eq!(p.scale_x_num as f32 / p.scale_x_den as f32, 2.0);
    assert_eq!(p.scale_y_num as f32 / p.scale_y_den as f32, 2.0);
    assert_eq!(p.offset_x_num as f32 / p.offset_den as f32, 80.0);
    assert_eq!(p.offset_y_num, 0);
    assert!(p.offset_x_num > 0);
}

#[test]
fn taller_window_letterboxes_vertically() {
    // Window 320x480 against ideal 320x240: width fits exactly at 1.0,
    // leaving (480 - 240) / 2 = 120 above and below.
    let p = calc_dest_scale(320, 240, 320, 240, 320, 480).unwrap();
    assert_eq!(p.scale_x_num as f32 / p.scale_x_den as f32, 1.0);
    assert_eq!(p.offset_x_num, 0);
    assert_eq!(p.offset_y_num as f32 / p.offset_den as f32, 120.0);
}

#[test]
fn buffer_different_from_ideal_is_stretched_to_ideal() {
    // A 160x240 buffer presented at ideal 320x240 in a 640x480 window:
    // factor 2, horizontal stretch 2 * (320/160) = 4.
    let p = calc_dest_scale(320, 240, 160, 240, 640, 480).unwrap();
    assert_eq!(p.scale_x_num as f32 / p.scale_x_den as f32, 4.0);
    assert_eq!(p.scale_y_num as f32 / p.scale_y_den as f32, 2.0);
}

#[test]
fn degenerate_dimensions_yield_no_placement() {
    assert!(calc_dest_scale(0, 240, 320, 240, 800, 600).is_none());
    assert!(calc_dest_scale(320, 0, 320, 240, 800, 600).is_none());
    assert!(calc_dest_scale(320, 240, 0, 240, 800, 600).is_none());
    assert!(calc_dest_scale(320, 240, 320, 0, 800, 600).is_none());
    assert!(calc_dest_scale(320, 240, 320, 240, 0, 0).is_some());
}

#[test]
fn pacer_reports_steps_at_the_declared_rate() {
    // At 60 steps per second, 16667 microseconds are one step and 20 units
    // of remainder; nothing more falls due until more time is fed.
    let mut pacer = StepPacer::new();
    assert_eq!(pacer.advance(16_667, 60), 1);
    assert_eq!(pacer.accum, 20);
    assert_eq!(pacer.advance(0, 60), 0);
    assert_eq!(pacer.advance(33_334, 60), 2);
    assert_eq!(pacer.accum, 60);
}

#[test]
fn pacer_carries_fractions_without_loss() {
    // Four quarter-frames fed separately due exactly as many steps as fed
    // whole: 4 * 4167 us at 60 steps per second is one step plus 80 units.
    let mut pacer = StepPacer::new();
    let mut steps: u64 = 0;
    for _ in 0..4 {
        steps += pacer.advance(4_167, 60);
    }
    assert_eq!(steps, 1);
    assert_eq!(pacer.accum, 80);
    let mut whole = StepPacer::new();
    assert_eq!(whole.advance(4 * 4_167, 60), 1);
    assert_eq!(whole.accum, 80);
}

#[test]
fn pacer_catches_up_whole_after_a_stall() {
    // A half-second stall at 60 steps per second owes 30 steps, uncapped.
    let mut pacer = StepPacer::new();
    assert_eq!(pacer.advance(500_000, 60), 30);
    assert_eq!(pacer.accum, 0);
}
