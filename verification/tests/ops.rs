use abc::ops::a;
use abc::ops::c;
use abc::ops::output_payload;
use abc::ops::sentinel_code;
use abc::ops::MountReadFailed;

#[test]
fn a_missing_deploy_gives_deploy_sentinel() {
    assert_eq!(a(1, 2, None, None), -1337);
    let e = vec![b'e'];
    assert_eq!(a(1, 2, None, Some(&e)), -1337);
    assert_eq!(a(0, 0, None, None), -1337);
}

#[test]
fn a_missing_execute_gives_execute_sentinel() {
    let d = vec![b'd'];
    assert_eq!(a(1, 2, Some(&d), None), -2337);
    let empty: Vec<u8> = Vec::new();
    assert_eq!(a(u32::MAX, i32::MIN, Some(&empty), None), -2337);
}

#[test]
fn a_success_is_always_negative() {
    let d = vec![b'd'];
    let e = vec![b'e'];
    assert!(a(1, 2, Some(&d), Some(&e)) < 0);
    assert!(a(0, 0, Some(&d), Some(&e)) < 0);
    assert!(a(u32::MAX, i32::MAX, Some(&d), Some(&e)) < 0);
    assert!(a(u32::MAX, i32::MIN, Some(&d), Some(&e)) < 0);
    let empty: Vec<u8> = Vec::new();
    assert!(a(123456789, -987654321, Some(&empty), Some(&empty)) < 0);
}

#[test]
fn a_exact_values_on_empty_files() {
    // With both files empty the hash is the FNV-1a offset basis, whose low
    // 32 bits reinterpreted as signed are -2078137563.
    let empty: Vec<u8> = Vec::new();
    // Sum 0: normalized to -1.
    assert_eq!(a(0, 2078137563, Some(&empty), Some(&empty)), -1);
    // Sum 10: negated to -10.
    assert_eq!(a(0, 2078137573, Some(&empty), Some(&empty)), -10);
    // Sum 1: negated to -1, colliding with the sum-0 result by design.
    assert_eq!(a(0, 2078137564, Some(&empty), Some(&empty)), -1);
}

#[test]
fn a_saturates_at_minimum() {
    // Chosen so that the wrapping sum lands exactly on i32::MIN: the result
    // saturates there instead of wrapping past it.
    let empty: Vec<u8> = Vec::new();
    assert_eq!(a(0, -69346085, Some(&empty), Some(&empty)), i32::MIN);
    // One above the minimum still steps down normally.
    assert_eq!(a(0, -69346084, Some(&empty), Some(&empty)), i32::MIN);
}

#[test]
fn a_is_deterministic() {
    let d = vec![b'd'];
    let e = vec![b'e'];
    assert_eq!(a(1, 2, Some(&d), Some(&e)), a(1, 2, Some(&d), Some(&e)));
}

#[test]
fn a_is_sensitive_to_both_files() {
    let d = vec![b'd'];
    let e = vec![b'e'];
    let x = vec![b'x'];
    let base = a(1, 2, Some(&d), Some(&e));
    assert_ne!(base, a(1, 2, Some(&x), Some(&e)));
    assert_ne!(base, a(1, 2, Some(&d), Some(&x)));
}

#[test]
fn end_to_end_scenario() {
    // Deploy file holds "d", execute file holds "e"; the float argument 2.5
    // of the driver truncates to 2.
    let d = vec![b'd'];
    let e = vec![b'e'];
    assert!(a(1, 2, Some(&d), Some(&e)) < 0);
    assert_eq!(c(true), 2147483647);
    assert_eq!(output_payload(), b"42".to_vec());
}

#[test]
fn c_reports_maximum_on_success_and_sentinel_on_failure() {
    assert_eq!(c(true), 2147483647);
    assert_eq!(c(false), 404);
}

#[test]
fn output_payload_is_the_two_ascii_digits() {
    let p = output_payload();
    assert_eq!(p.len(), 2);
    assert_eq!(p[0], b'4');
    assert_eq!(p[1], b'2');
}

#[test]
fn sentinel_codes_are_fixed() {
    assert_eq!(sentinel_code(MountReadFailed::Deploy), -1337);
    assert_eq!(sentinel_code(MountReadFailed::Exec), -2337);
    assert_eq!(sentinel_code(MountReadFailed::Out), 404);
}
