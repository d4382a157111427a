use hilly_sounds::strategy::color::{ColorStrategy, HueColorStrategy, Rgba};

fn rgba(red: u8, green: u8, blue: u8) -> Rgba {
    Rgba { red, green, blue, alpha: 255 }
}

#[test]
fn hue_colors_of_known_samples() {
    let hue = HueColorStrategy::default();
    assert_eq!(hue.sample_to_color(-32768), rgba(255, 0, 0));
    assert_eq!(hue.sample_to_color(-16384), rgba(127, 255, 0));
    assert_eq!(hue.sample_to_color(0), rgba(0, 255, 255));
    assert_eq!(hue.sample_to_color(16384), rgba(127, 0, 255));
    assert_eq!(hue.sample_to_color(32767), rgba(255, 0, 0));
    assert_eq!(hue.sample_to_color(-1), rgba(0, 255, 254));
    assert_eq!(hue.sample_to_color(10000), rgba(0, 21, 255));
}

#[test]
fn hue_saturation_and_value() {
    let hue = HueColorStrategy::new(128, 200);
    assert_eq!(hue.sample_to_color(1000), rgba(99, 190, 200));
    assert_eq!(hue.sample_to_color(-20000), rgba(183, 200, 99));
    let grey = HueColorStrategy::new(0, 255);
    assert_eq!(grey.sample_to_color(1000), rgba(255, 255, 255));
    let dim = HueColorStrategy::new(255, 100);
    assert_eq!(dim.sample_to_color(1000), rgba(0, 90, 100));
    assert_eq!(dim.sample_to_color(-20000), rgba(83, 100, 0));
}

#[test]
fn hue_samples_of_known_colors() {
    let hue = HueColorStrategy::default();
    assert_eq!(hue.color_to_sample(&rgba(255, 0, 0)), -32768);
    assert_eq!(hue.color_to_sample(&rgba(0, 255, 255)), 0);
    assert_eq!(hue.color_to_sample(&rgba(127, 0, 255)), 16362);
    assert_eq!(hue.color_to_sample(&rgba(0, 0, 255)), 10922);
    assert_eq!(hue.color_to_sample(&rgba(255, 255, 0)), -21845);
    assert_eq!(hue.color_to_sample(&rgba(0, 255, 0)), -10922);
    assert_eq!(hue.color_to_sample(&rgba(0, 255, 254)), -42);
}

#[test]
fn grey_reads_as_smallest_sample() {
    let hue = HueColorStrategy::default();
    assert_eq!(hue.color_to_sample(&rgba(10, 10, 10)), -32768);
    assert_eq!(hue.color_to_sample(&rgba(0, 0, 0)), -32768);
    assert_eq!(hue.color_to_sample(&Rgba { red: 255, green: 255, blue: 255, alpha: 0 }), -32768);
}

#[test]
fn alpha_is_not_read() {
    let hue = HueColorStrategy::default();
    let opaque = hue.color_to_sample(&rgba(127, 0, 255));
    let clear = hue.color_to_sample(&Rgba { red: 127, green: 0, blue: 255, alpha: 0 });
    assert_eq!(opaque, clear);
}

#[test]
fn every_channel_combination_is_accepted() {
    let hue = HueColorStrategy::new(17, 33);
    for r in (0..=255u8).step_by(5) {
        for g in (0..=255u8).step_by(3) {
            for b in [0u8, 1, 128, 254, 255] {
                let _ = hue.color_to_sample(&rgba(r, g, b));
            }
        }
    }
    for s in i16::MIN..=i16::MAX {
        assert_eq!(hue.sample_to_color(s).alpha, 255);
    }
}

#[test]
fn hue_round_trip_within_bound() {
    let hue = HueColorStrategy::default();
    for s in i16::MIN..=i16::MAX {
        let back = hue.color_to_sample(&hue.sample_to_color(s));
        let e = back as i32 - s as i32;
        assert!(e.abs() <= 43 || (e + 65536).abs() <= 43, "sample {} read back as {}", s, back);
    }
    assert_eq!(hue.color_to_sample(&hue.sample_to_color(32767)), -32768);
    assert_eq!(hue.color_to_sample(&hue.sample_to_color(0)), 0);
}
