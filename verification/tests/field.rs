use stream_alerts::error::{AlertError, ErrorClass};
use stream_alerts::field::AlertField;

#[test]
fn default_field_is_empty_text() {
    assert!(matches!(AlertField::default(), AlertField::Text(text) if text.is_empty()));
}

#[test]
fn set_keeps_the_kind() {
    let mut text = AlertField::Text("old".to_string());
    assert_eq!(text.set("12".to_string()), Ok(()));
    assert!(matches!(&text, AlertField::Text(t) if t == "12"));

    let mut counter = AlertField::Counter(5);
    assert_eq!(counter.set("-12".to_string()), Ok(()));
    assert!(matches!(counter, AlertField::Counter(-12)));
}

#[test]
fn counter_refuses_text_that_is_no_number() {
    for raw in ["", "twelve", "1.5", "2147483648", " 1"] {
        let mut counter = AlertField::Counter(5);
        assert_eq!(counter.set(raw.to_string()), Err(AlertError::InvalidNumber));
        assert!(matches!(counter, AlertField::Counter(5)));
    }
    assert_eq!(AlertError::InvalidNumber.class(), ErrorClass::Validation);
}

#[test]
fn only_counters_can_be_stepped() {
    assert!(AlertField::Counter(0).can_incr());
    assert!(!AlertField::Text(String::new()).can_incr());
}

#[test]
fn incr_moves_a_counter_by_the_signed_step() {
    let mut counter = AlertField::Counter(100);
    counter.incr(50);
    assert!(matches!(counter, AlertField::Counter(150)));
    counter.incr(-151);
    assert!(matches!(counter, AlertField::Counter(-1)));
}

#[test]
fn incr_on_text_does_nothing() {
    let mut text = AlertField::Text("same".to_string());
    assert!(text.fits(i32::MAX));
    text.incr(3);
    assert!(matches!(&text, AlertField::Text(t) if t == "same"));
}

#[test]
fn fits_tells_when_a_step_stays_in_range() {
    assert!(AlertField::Counter(i32::MAX - 1).fits(1));
    assert!(!AlertField::Counter(i32::MAX).fits(1));
    assert!(AlertField::Counter(i32::MIN + 1).fits(-1));
    assert!(!AlertField::Counter(i32::MIN).fits(-1));
    assert!(AlertField::Counter(0).fits(i32::MIN));
    assert!(!AlertField::Counter(-1).fits(i32::MIN));
}

#[test]
fn shown_text_of_a_field() {
    assert_eq!(AlertField::Text("viewer1".to_string()).to_string(), "viewer1");
    assert_eq!(AlertField::Counter(-7).to_string(), "-7");
    assert_eq!(AlertField::Counter(0).to_string(), "0");
}

#[test]
fn field_clone_is_equal() {
    assert!(matches!(AlertField::Counter(3).clone(), AlertField::Counter(3)));
    assert!(matches!(AlertField::Text("x".to_string()).clone(), AlertField::Text(t) if t == "x"));
}
