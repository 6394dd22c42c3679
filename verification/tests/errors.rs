use cuvs::binary::{Binary32, Binary64};
use cuvs::error::{check_cuvs, LibraryError};
use cuvs::ffi::cuvsError_t;
use cuvs::path::CPath;
use cuvs::settings::{fraction, share};
use cuvs::text::{push_signed_decimal, with_decimal, with_text};

#[test]
fn check_cuvs_success() {
    assert!(check_cuvs(cuvsError_t::CUVS_SUCCESS, None).is_ok());
    assert!(check_cuvs(cuvsError_t::CUVS_SUCCESS, Some(b"stale text")).is_ok());
}

#[test]
fn check_cuvs_error_without_message() {
    for text in [None, Some(&b""[..])] {
        let err = check_cuvs(cuvsError_t::CUVS_ERROR, text).unwrap_err();
        assert!(!err.0.is_empty());
        assert_eq!(err.0, "unknown cuVS error");
    }
}

#[test]
fn check_cuvs_error_keeps_the_message() {
    let err = check_cuvs(cuvsError_t::CUVS_ERROR, Some(b"bad k: \xc3\xa4")).unwrap_err();
    assert_eq!(err.to_string(), "bad k: ä");
    let err = check_cuvs(cuvsError_t::CUVS_ERROR, Some(b"bad \xff byte")).unwrap_err();
    assert_eq!(err.to_string(), "bad \u{fffd} byte");
}

#[test]
fn library_error_shows_its_message() {
    assert_eq!(LibraryError("out of memory".to_string()).to_string(), "out of memory");
}

#[test]
fn paths_end_in_one_zero() {
    let path = CPath::new(b"/tmp/index.bin").unwrap();
    assert_eq!(path.as_bytes_with_nul(), b"/tmp/index.bin\0");
    assert_eq!(CPath::new(b"").unwrap().as_bytes_with_nul(), b"\0");
    let err = CPath::new(b"a\0b\0").unwrap_err();
    assert_eq!(err.nul_position(), 1);
    assert_eq!(err.bytes, b"a\0b\0");
}

#[test]
fn numbers_are_written_in_decimal() {
    for n in [0u64, 7, 10, 99, 100, 12345, u64::MAX] {
        assert_eq!(with_decimal("n=", n), format!("n={n}"));
    }
    for n in [0i64, -1, 42, i64::MAX, i64::MIN] {
        let mut text = String::from("n=");
        push_signed_decimal(&mut text, n);
        assert_eq!(text, format!("n={n}"));
    }
    assert_eq!(with_text("a", "b"), "ab");
}

#[test]
fn patterns_compare_as_the_numbers_do() {
    let numbers = [
        0.0f32,
        -0.0,
        1.0,
        -1.0,
        0.1,
        0.9,
        f32::MIN_POSITIVE,
        1.0e-45,
        -1.0e-45,
        f32::MAX,
        f32::MIN,
        f32::INFINITY,
        f32::NEG_INFINITY,
        f32::NAN,
    ];
    for a in numbers {
        let x = Binary32::from_bits(a.to_bits());
        assert_eq!(x.is_nan(), a.is_nan());
        assert_eq!(x.is_finite(), a.is_finite());
        for b in numbers {
            let y = Binary32::from_bits(b.to_bits());
            assert_eq!(x.lt(y), a < b);
            assert_eq!(x.le(y), a <= b);
            assert_eq!(x.ordered_eq(y), a == b || (a.is_nan() && b.is_nan()));
        }
    }
    for a in numbers {
        let x = Binary64::from_bits((a as f64).to_bits());
        assert_eq!(x.is_nan(), a.is_nan());
        for b in numbers {
            let y = Binary64::from_bits((b as f64).to_bits());
            assert_eq!(x.lt(y), a < b);
            assert_eq!(x.le(y), a <= b);
        }
    }
}

#[test]
fn ranges_of_fractions_and_shares() {
    let bits = |x: f64| Binary64::from_bits(x.to_bits());
    for x in [1.0, 0.5, f64::MIN_POSITIVE] {
        assert!(fraction(bits(x)));
        assert!(share(bits(x)));
    }
    assert!(!fraction(bits(0.0)));
    assert!(!fraction(bits(-0.0)));
    assert!(share(bits(0.0)));
    assert!(share(bits(-0.0)));
    for x in [1.0000000000000002, -0.5, f64::NAN, f64::INFINITY] {
        assert!(!fraction(bits(x)));
        assert!(!share(bits(x)));
    }
}
