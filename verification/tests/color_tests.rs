use kartina::color::color_drivers;
use kartina::color::AudioFrame;

/// The canonical per-vertex color formula, as the render side evaluates it
/// from the library's drivers: red and green scale x and y by their samples,
/// blue divides z by its sample, all reduced modulo 256; an undefined blue
/// channel is substituted with zero.
fn apply(drivers: &kartina::color::ColorDrivers, position: (f32, f32, f32)) -> (f32, f32, f32) {
    let r = position.0 * drivers.red_scale as f32 % 256.0;
    let g = position.1 * drivers.green_scale as f32 % 256.0;
    let b = if drivers.blue_defined() {
        position.2 / drivers.blue_divisor as f32 % 256.0
    } else {
        0.0
    };
    (r, g, b)
}

#[test]
fn test_driver_roles() {
    let frame = AudioFrame::new(vec![8, 10, 20]);
    let d = color_drivers(&frame);
    assert_eq!(d.red_scale, 20);
    assert_eq!(d.green_scale, 10);
    assert_eq!(d.blue_divisor, 8);
    assert!(d.blue_defined());
}

#[test]
fn test_concrete_color_case() {
    let frame = AudioFrame::new(vec![8, 10, 20]);
    let d = color_drivers(&frame);
    let color = apply(&d, (2.0, 3.0, 4.0));
    assert_eq!(color, (40.0, 30.0, 0.5));
}

#[test]
fn test_division_by_zero_substitutes_zero_blue() {
    let frame = AudioFrame::new(vec![0, 10, 20]);
    let d = color_drivers(&frame);
    assert!(!d.blue_defined());
    let color = apply(&d, (2.0, 3.0, 4.0));
    assert_eq!(color.2, 0.0);
    assert_eq!(color, (40.0, 30.0, 0.0));
}

#[test]
fn test_recolor_deterministic_in_the_frame() {
    let samples: Vec<i16> = vec![-7, 300, -12000, 55];
    let first = color_drivers(&AudioFrame::new(samples.clone()));
    let second = color_drivers(&AudioFrame::new(samples));
    assert_eq!(first, second);
    let positions = [(0.1f32, -0.05, 0.02), (1.0, 2.0, 3.0), (-0.3, 0.0, -1.5)];
    for p in positions {
        assert_eq!(apply(&first, p), apply(&second, p));
    }
}

#[test]
fn test_frame_sample_requirement() {
    assert!(!AudioFrame::new(vec![]).drives_colors());
    assert!(!AudioFrame::new(vec![1, 2]).drives_colors());
    assert!(AudioFrame::new(vec![1, 2, 3]).drives_colors());
    assert!(AudioFrame::new(vec![1, 2, 3, 4, 5]).drives_colors());
}
