use rain::linexp::LinExp;

#[test]
fn zero_shape_is_a_strictly_decreasing_line() {
    let shaper = LinExp::new();
    let norm = shaper.get_norm();
    assert_eq!(norm, 32768);
    for x in 0..=norm {
        assert_eq!(shaper.y(x), norm - x);
    }
    for x in 0..norm {
        assert!(shaper.y(x) > shaper.y(x + 1));
    }
}

#[test]
fn out_of_range_inputs_saturate() {
    let mut shaper = LinExp::new();
    shaper.set_sigma(8000);
    assert_eq!(shaper.y(-5), 32768);
    assert_eq!(shaper.y(i32::MIN), 32768);
    assert_eq!(shaper.y(32769), 0);
    assert_eq!(shaper.y(i32::MAX), 0);
}

#[test]
fn each_segment_gives_its_formula() {
    let mut shaper = LinExp::new();
    shaper.set_sigma(8000);
    assert_eq!(shaper.y(1000), 28906);
    assert_eq!(shaper.y(5000), 14998);
    assert_eq!(shaper.y(10000), 7557);
    assert_eq!(shaper.y(20000), 3305);
    assert_eq!(shaper.y(32768), 0);
    shaper.set_sigma(1234);
    assert_eq!(shaper.y(8000), 22883);
    shaper.set_sigma(16383);
    assert_eq!(shaper.y(0), 32768);
    assert_eq!(shaper.y(16000), 0);
}

#[test]
fn invalid_shape_resets_to_zero() {
    let mut shaper = LinExp::new();
    let sigma_max = shaper.get_sigma_max();
    assert_eq!(sigma_max, 16384);
    shaper.set_sigma(8000);
    shaper.set_sigma(sigma_max);
    assert_eq!(shaper.y(1000), 31768);
    shaper.set_sigma(8000);
    shaper.set_sigma(-1);
    assert_eq!(shaper.y(1000), 31768);
    shaper.set_sigma(sigma_max - 1);
    assert_ne!(shaper.y(1000), 31768);
}
