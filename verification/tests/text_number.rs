//! A lens on the text of a pair, a prism that reads the text as a number, and their
//! composition.

use core::convert::Infallible;
use core::num::ParseIntError;
use optics::{
    composed_partial_lens, HasGetter, HasReverseGet, HasSetter, HasTotalGetter,
    HasTotalReverseGet, LensImpl, PartialLens, PartialLensImpl, PrismImpl,
};

// The `*_spec` and `*_is_total` members of the capability traits are ghost: they describe an
// optic to the verifier and are never called when a program runs.

/// Focuses on the text of a pair.
struct Text;

impl HasGetter<(i32, String), String> for Text {
    type GetterError = Infallible;

    fn try_get_spec(&self, _: (i32, String)) -> Result<String, Infallible> {
        unreachable!()
    }

    fn try_get(&self, source: &(i32, String)) -> Result<String, Infallible> {
        Ok(source.1.clone())
    }
}

impl HasTotalGetter<(i32, String), String> for Text {
    fn get_is_total(&self, _: (i32, String)) {}

    fn get(&self, source: &(i32, String)) -> String {
        source.1.clone()
    }
}

impl HasSetter<(i32, String), String> for Text {
    fn set_spec(&self, _: (i32, String), _: String) -> (i32, String) {
        unreachable!()
    }

    fn set(&self, source: &mut (i32, String), value: String) {
        source.1 = value;
    }
}

/// Reads a text as a number, where it is one.
struct Number;

impl HasGetter<String, i32> for Number {
    type GetterError = ParseIntError;

    fn try_get_spec(&self, _: String) -> Result<i32, ParseIntError> {
        unreachable!()
    }

    fn try_get(&self, source: &String) -> Result<i32, ParseIntError> {
        source.parse::<i32>()
    }
}

impl HasSetter<String, i32> for Number {
    fn set_spec(&self, _: String, _: i32) -> String {
        unreachable!()
    }

    fn set(&self, source: &mut String, value: i32) {
        if source.parse::<i32>().is_ok() {
            *source = value.to_string();
        }
    }
}

impl HasReverseGet<String, i32> for Number {
    type ReverseError = Infallible;

    fn try_reverse_get_spec(&self, _: i32) -> Result<String, Infallible> {
        unreachable!()
    }

    fn try_reverse_get(&self, value: &i32) -> Result<String, Infallible> {
        Ok(value.to_string())
    }
}

impl HasTotalReverseGet<String, i32> for Number {
    fn reverse_get_is_total(&self, _: i32) {}

    fn reverse_get(&self, value: &i32) -> String {
        value.to_string()
    }
}

#[derive(Debug, PartialEq)]
enum ReadError {
    NotANumber,
}

fn never(e: Infallible) -> ReadError {
    match e {}
}

fn not_a_number(_: ParseIntError) -> ReadError {
    ReadError::NotANumber
}

fn is_partial_lens<S, A, PL: PartialLens<S, A>>(_: &PartialLensImpl<S, A, PL>) {}

#[test]
fn number_in_text_is_read() {
    let optic = composed_partial_lens(Text, Number, never, not_a_number);
    assert_eq!(optic.try_get(&(0, "42".to_string())), Ok(42));
}

#[test]
fn number_in_text_is_replaced() {
    let optic = composed_partial_lens(Text, Number, never, not_a_number);
    let mut source = (0, "42".to_string());
    optic.set(&mut source, 7);
    assert_eq!(source, (0, "7".to_string()));
}

#[test]
fn text_that_is_no_number_gives_the_mapped_error() {
    let optic = composed_partial_lens(Text, Number, never, not_a_number);
    assert_eq!(optic.try_get(&(0, "abc".to_string())), Err(ReadError::NotANumber));
}

#[test]
fn text_that_is_no_number_is_left_unchanged_by_set() {
    let optic = composed_partial_lens(Text, Number, never, not_a_number);
    let mut source = (0, "abc".to_string());
    optic.set(&mut source, 7);
    assert_eq!(source, (0, "abc".to_string()));
}

#[test]
fn lens_with_prism_is_a_partial_lens() {
    let optic = LensImpl::new(Text).compose_with_prism(PrismImpl::new(Number));
    is_partial_lens(&optic);
    let mut source = (0, "42".to_string());
    assert_eq!(optic.try_get(&source), Ok(42));
    optic.set(&mut source, 7);
    assert_eq!(source, (0, "7".to_string()));
}

#[test]
fn lens_with_prism_fails_with_the_error_of_the_prism() {
    let optic = LensImpl::new(Text).compose_with_prism(PrismImpl::new(Number));
    let expected = "abc".parse::<i32>();
    assert!(expected.is_err());
    assert_eq!(optic.try_get(&(0, "abc".to_string())), expected);
    let mut source = (0, "abc".to_string());
    optic.set(&mut source, 7);
    assert_eq!(source, (0, "abc".to_string()));
}

#[test]
fn prism_builds_the_text_of_a_number() {
    let prism = PrismImpl::new(Number);
    assert_eq!(prism.reverse_get(&-12), "-12".to_string());
    assert_eq!(prism.try_reverse_get(&5), Ok("5".to_string()));
}
