use postfx::params::ComputeParametersUniform;

#[test]
fn frame_time_is_truncated_to_32_bits() {
    assert_eq!(ComputeParametersUniform::from_millis(0).time, 0);
    assert_eq!(ComputeParametersUniform::from_millis(1234).time, 1234);
    assert_eq!(ComputeParametersUniform::from_millis(4294967295).time, 4294967295);
    assert_eq!(ComputeParametersUniform::from_millis(4294967296).time, 0);
    assert_eq!(ComputeParametersUniform::from_millis(4294967297).time, 1);
    assert_eq!(ComputeParametersUniform::from_millis(u64::MAX).time, 4294967295);
}

#[test]
fn refresh_takes_the_new_clock_reading() {
    let mut p = ComputeParametersUniform::from_millis(10);
    assert_eq!(p.time, 10);
    p.refresh(77);
    assert_eq!(p.time, 77);
}

#[test]
fn advancing_clock_gives_fresh_values() {
    let mut p = ComputeParametersUniform::from_millis(1000);
    let first = p.time;
    p.refresh(2000);
    let second = p.time;
    assert_ne!(first, second);
    assert_eq!(second, 2000);
}

#[test]
fn fixed_clock_gives_identical_values() {
    let mut a = ComputeParametersUniform::from_millis(5);
    let mut b = ComputeParametersUniform::from_millis(999_999);
    a.refresh(42);
    b.refresh(42);
    assert_eq!(a.time, b.time);
    a.refresh(42);
    assert_eq!(a.time, b.time);
}
