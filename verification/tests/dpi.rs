use wx_utils::dpi::{BASELINE_DPI, Size, dpi_from_ppi, scale_at_dpi, scale_for_dpi, scale_size_at_dpi};

#[test]
fn sizes_pass_through_unchanged_at_100_percent() {
    assert_eq!(scale_for_dpi(800, 96), 800);
    assert_eq!(scale_for_dpi(1, 96), 1);
}

#[test]
fn sizes_scale_with_the_display() {
    assert_eq!(scale_for_dpi(800, 144), 1200); // 150%
    assert_eq!(scale_for_dpi(800, 192), 1600); // 200%
    assert_eq!(scale_for_dpi(600, 120), 750); // 125%
}

#[test]
fn scaling_rounds_rather_than_truncating() {
    assert_eq!(scale_for_dpi(250, 120), 313);
    assert_eq!(scale_for_dpi(5, 144), 8);
}

#[test]
fn absurd_sizes_clamp_instead_of_wrapping_negative() {
    assert_eq!(scale_for_dpi(i32::MAX / 2, 192), i32::MAX / 2 * 2);
    assert_eq!(scale_for_dpi(i32::MAX, 192), i32::MAX);
}

#[test]
fn default_coord_is_not_scaled() {
    assert_eq!(scale_at_dpi(-1, 192), -1);
    assert_eq!(scale_at_dpi(0, 192), 0);
    assert_eq!(scale_at_dpi(10, 192), 20);
}

#[test]
fn negative_values_round_toward_zero_when_scaled_directly() {
    assert_eq!(scale_for_dpi(-250, 120), -312);
}

#[test]
fn both_axes_of_a_size_scale() {
    let scaled = scale_size_at_dpi(Size { width: 400, height: -1 }, 144);
    assert_eq!(scaled, Size { width: 600, height: -1 });
}

#[test]
fn unreadable_displays_fall_back_to_the_baseline() {
    assert_eq!(dpi_from_ppi(None), BASELINE_DPI);
    assert_eq!(dpi_from_ppi(Some(0)), BASELINE_DPI);
    assert_eq!(dpi_from_ppi(Some(-5)), BASELINE_DPI);
    assert_eq!(dpi_from_ppi(Some(144)), 144);
}

#[test]
fn a_tiny_size_at_a_tiny_dpi_rounds_to_zero_not_below() {
    assert_eq!(scale_for_dpi(1, 1), 0);
}
