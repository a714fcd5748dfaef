use outcome::IntoOutcome;
use outcome::Outcome;

#[test]
fn success_scenario() {
    let x: Outcome<i32, &str, i32> = Outcome::Success(10);
    assert!(x.is_success());
    assert!(!x.is_failure());
    assert!(!x.is_forward());
    assert_eq!(x.succeeded(), Some(10));
    assert_eq!(x.failed(), None);
    assert_eq!(x.forwarded(), None);
}

#[test]
fn failure_scenario() {
    let x: Outcome<i32, &str, i32> = Outcome::Failure("bad input");
    assert!(x.is_failure());
    assert!(!x.is_success());
    assert!(!x.is_forward());
    assert_eq!(x.failed(), Some("bad input"));
    assert_eq!(x.succeeded(), None);
    assert_eq!(x.forwarded(), None);
}

#[test]
fn forward_scenario() {
    let x: Outcome<i32, &str, i32> = Outcome::Forward(25);
    assert!(x.is_forward());
    assert!(!x.is_success());
    assert!(!x.is_failure());
    assert_eq!(x.forwarded(), Some(25));
    assert_eq!(x.debug_render(), "Outcome::Forward");
}

#[test]
fn unwrap_returns_success_payload() {
    let x: Outcome<i32, &str, i32> = Outcome::Success(10);
    assert_eq!(x.unwrap(), 10);
}

#[test]
fn expect_returns_success_payload() {
    let x: Outcome<i32, &str, i32> = Outcome::Success(10);
    assert_eq!(x.expect("success value"), 10);
}

#[test]
fn as_ref_preserves_variant_and_payload() {
    let x: Outcome<i32, String, usize> = Outcome::Success(10);
    match x.as_ref() {
        Outcome::Success(v) => assert_eq!(*v, 10),
        _ => panic!("read-only view changed the variant"),
    }
    // The original is untouched and still usable.
    assert!(x.is_success());
    assert_eq!(x.succeeded(), Some(10));

    let y: Outcome<i32, String, usize> = Outcome::Failure(String::from("oops"));
    match y.as_ref() {
        Outcome::Failure(v) => assert_eq!(v, "oops"),
        _ => panic!("read-only view changed the variant"),
    }
    assert!(y.is_failure());

    let z: Outcome<i32, String, usize> = Outcome::Forward(3);
    match z.as_ref() {
        Outcome::Forward(v) => assert_eq!(*v, 3),
        _ => panic!("read-only view changed the variant"),
    }
    assert!(z.is_forward());
}

#[test]
fn as_mut_modifies_payload_in_place() {
    let mut x: Outcome<i32, &str, usize> = Outcome::Success(10);
    if let Outcome::Success(val) = x.as_mut() {
        *val = 20;
    }
    assert!(x.is_success());
    assert!(!x.is_failure());
    assert!(!x.is_forward());
    assert_eq!(x.unwrap(), 20);

    let mut y: Outcome<i32, i32, usize> = Outcome::Failure(1);
    if let Outcome::Failure(val) = y.as_mut() {
        *val = -1;
    }
    assert!(y.is_failure());
    assert_eq!(y.failed(), Some(-1));

    let mut z: Outcome<i32, i32, usize> = Outcome::Forward(5);
    if let Outcome::Forward(val) = z.as_mut() {
        *val = 6;
    }
    assert!(z.is_forward());
    assert_eq!(z.forwarded(), Some(6));
}

#[test]
fn variant_order_ignores_payload() {
    let s: Outcome<i32, &str, i32> = Outcome::Success(10);
    let e: Outcome<i32, &str, i32> = Outcome::Failure("x");
    let f: Outcome<i32, &str, i32> = Outcome::Forward(1);
    assert!(s < e);
    assert!(e < f);
    assert!(s < f);
    // The rank holds regardless of payload magnitude.
    let s_big: Outcome<i32, &str, i32> = Outcome::Success(i32::MAX);
    let f_small: Outcome<i32, &str, i32> = Outcome::Forward(i32::MIN);
    assert!(s_big < e);
    assert!(e < f_small);
    assert!(s_big < f_small);
}

#[test]
fn same_variant_orders_by_payload() {
    let a: Outcome<i32, &str, i32> = Outcome::Success(1);
    let b: Outcome<i32, &str, i32> = Outcome::Success(2);
    assert!(a < b);
    assert!(!(b < a));
    let c: Outcome<i32, &str, i32> = Outcome::Failure("a");
    let d: Outcome<i32, &str, i32> = Outcome::Failure("b");
    assert!(c < d);
    let e: Outcome<i32, &str, i32> = Outcome::Forward(1);
    let f: Outcome<i32, &str, i32> = Outcome::Forward(2);
    assert!(e < f);
}

#[test]
fn structural_equality() {
    let a: Outcome<i32, &str, i32> = Outcome::Success(1);
    let b: Outcome<i32, &str, i32> = Outcome::Success(1);
    let c: Outcome<i32, &str, i32> = Outcome::Success(2);
    let d: Outcome<i32, &str, i32> = Outcome::Failure("1");
    assert!(a == b);
    assert!(a != c);
    assert!(a != d);
}

#[test]
fn debug_render_names_variant_only() {
    let s: Outcome<i32, &str, i32> = Outcome::Success(10);
    let e: Outcome<i32, &str, i32> = Outcome::Failure("bad");
    let f: Outcome<i32, &str, i32> = Outcome::Forward(25);
    assert_eq!(s.debug_render(), "Outcome::Success");
    assert_eq!(e.debug_render(), "Outcome::Failure");
    assert_eq!(f.debug_render(), "Outcome::Forward");
}

#[test]
fn display_render_matches_painted_name() {
    let s: Outcome<i32, &str, i32> = Outcome::Success(10);
    let e: Outcome<i32, &str, i32> = Outcome::Failure("bad");
    let f: Outcome<i32, &str, i32> = Outcome::Forward(25);
    // The characters of the rendering are exactly the variant's name; the
    // color is applied to the terminal, not to the returned text. Rendering
    // through term_painter directly gives the same characters.
    let painted_success = format!(
        "{}",
        term_painter::ToStyle::paint(&term_painter::Color::Green, "Success")
    );
    let painted_failure = format!(
        "{}",
        term_painter::ToStyle::paint(&term_painter::Color::Red, "Failure")
    );
    let painted_forward = format!(
        "{}",
        term_painter::ToStyle::paint(&term_painter::Color::Yellow, "Forward")
    );
    assert_eq!(s.display_render(), painted_success);
    assert_eq!(e.display_render(), painted_failure);
    assert_eq!(f.display_render(), painted_forward);
    assert_eq!(s.display_render(), "Success");
    assert_eq!(e.display_render(), "Failure");
    assert_eq!(f.display_render(), "Forward");
}

#[test]
fn result_adapts_with_error_as_failure() {
    let ok: Result<i32, &str> = Ok(3);
    let o: Outcome<i32, &str, i32> = ok.into_outcome();
    assert!(o == Outcome::Success(3));

    let err: Result<i32, &str> = Err("broken");
    let o: Outcome<i32, &str, i32> = err.into_outcome();
    assert!(o == Outcome::Failure("broken"));
}

#[test]
fn absent_option_adapts_as_forward_with_default() {
    let absent: (Option<i32>, i32) = (None, 7);
    let o: Outcome<i32, &str, i32> = absent.into_outcome();
    assert!(o.is_forward());
    assert_eq!(o.forwarded(), Some(7));

    let present: (Option<i32>, i32) = (Some(4), 7);
    let o: Outcome<i32, &str, i32> = present.into_outcome();
    assert!(o == Outcome::Success(4));
}

#[test]
fn copies_share_no_state() {
    let x: Outcome<i32, i32, i32> = Outcome::Success(10);
    let mut y = x;
    if let Outcome::Success(val) = y.as_mut() {
        *val = 99;
    }
    assert_eq!(x.unwrap(), 10);
    assert_eq!(y.unwrap(), 99);
}
