//! Fallible optics on numbers: their compositions in both directions, and what becomes of
//! the errors of either stage.

use core::convert::Infallible;
use optics::{
    composed_fallible_iso, composed_partial_getter, composed_prism, FallibleIso, FallibleIsoImpl,
    HasGetter, HasReverseGet, HasSetter, HasTotalReverseGet, Kind, PartialGetterImpl, PrismImpl,
};

// The `*_spec` and `*_is_total` members of the capability traits are ghost: they describe an
// optic to the verifier and are never called when a program runs.

#[derive(Debug, PartialEq)]
struct Odd(u32);

#[derive(Debug, PartialEq)]
struct NoDouble(u32);

/// Half of an even number. An odd number has no half, and a half above 100 is not doubled.
struct Half;

impl HasGetter<u32, u32> for Half {
    type GetterError = Odd;

    fn try_get_spec(&self, _: u32) -> Result<u32, Odd> {
        unreachable!()
    }

    fn try_get(&self, source: &u32) -> Result<u32, Odd> {
        if source % 2 == 0 {
            Ok(source / 2)
        } else {
            Err(Odd(*source))
        }
    }
}

impl HasSetter<u32, u32> for Half {
    fn set_spec(&self, _: u32, _: u32) -> u32 {
        unreachable!()
    }

    fn set(&self, source: &mut u32, value: u32) {
        if *source % 2 == 0 {
            *source = value.wrapping_mul(2);
        }
    }
}

impl HasReverseGet<u32, u32> for Half {
    type ReverseError = NoDouble;

    fn try_reverse_get_spec(&self, _: u32) -> Result<u32, NoDouble> {
        unreachable!()
    }

    fn try_reverse_get(&self, value: &u32) -> Result<u32, NoDouble> {
        if *value <= 100 {
            Ok(value * 2)
        } else {
            Err(NoDouble(*value))
        }
    }
}

#[derive(Debug, PartialEq)]
struct Wide(u32);

#[derive(Debug, PartialEq)]
struct Zero;

/// A number below 256 as a byte. Zero is not turned back into a number.
struct Narrow;

impl HasGetter<u32, u8> for Narrow {
    type GetterError = Wide;

    fn try_get_spec(&self, _: u32) -> Result<u8, Wide> {
        unreachable!()
    }

    fn try_get(&self, source: &u32) -> Result<u8, Wide> {
        u8::try_from(*source).map_err(|_| Wide(*source))
    }
}

impl HasSetter<u32, u8> for Narrow {
    fn set_spec(&self, _: u32, _: u8) -> u32 {
        unreachable!()
    }

    fn set(&self, source: &mut u32, value: u8) {
        if *source < 256 {
            *source = u32::from(value);
        }
    }
}

impl HasReverseGet<u32, u8> for Narrow {
    type ReverseError = Zero;

    fn try_reverse_get_spec(&self, _: u8) -> Result<u32, Zero> {
        unreachable!()
    }

    fn try_reverse_get(&self, value: &u8) -> Result<u32, Zero> {
        if *value == 0 {
            Err(Zero)
        } else {
            Ok(u32::from(*value))
        }
    }
}

/// A number as the pair of its quotient and remainder by 10, where the remainder is below 10.
struct Decimal;

impl HasGetter<(u32, u32), u32> for Decimal {
    type GetterError = u32;

    fn try_get_spec(&self, _: (u32, u32)) -> Result<u32, u32> {
        unreachable!()
    }

    fn try_get(&self, source: &(u32, u32)) -> Result<u32, u32> {
        if source.1 < 10 {
            Ok(source.0.wrapping_mul(10).wrapping_add(source.1))
        } else {
            Err(source.1)
        }
    }
}

impl HasSetter<(u32, u32), u32> for Decimal {
    fn set_spec(&self, _: (u32, u32), _: u32) -> (u32, u32) {
        unreachable!()
    }

    fn set(&self, source: &mut (u32, u32), value: u32) {
        if source.1 < 10 {
            *source = (value / 10, value % 10);
        }
    }
}

impl HasReverseGet<(u32, u32), u32> for Decimal {
    type ReverseError = Infallible;

    fn try_reverse_get_spec(&self, _: u32) -> Result<(u32, u32), Infallible> {
        unreachable!()
    }

    fn try_reverse_get(&self, value: &u32) -> Result<(u32, u32), Infallible> {
        Ok((value / 10, value % 10))
    }
}

impl HasTotalReverseGet<(u32, u32), u32> for Decimal {
    fn reverse_get_is_total(&self, _: u32) {}

    fn reverse_get(&self, value: &u32) -> (u32, u32) {
        (value / 10, value % 10)
    }
}

/// A number as its even double; an odd number is the double of nothing.
struct Double;

impl HasGetter<u32, u32> for Double {
    type GetterError = Odd;

    fn try_get_spec(&self, _: u32) -> Result<u32, Odd> {
        unreachable!()
    }

    fn try_get(&self, source: &u32) -> Result<u32, Odd> {
        if source % 2 == 0 {
            Ok(source / 2)
        } else {
            Err(Odd(*source))
        }
    }
}

impl HasSetter<u32, u32> for Double {
    fn set_spec(&self, _: u32, _: u32) -> u32 {
        unreachable!()
    }

    fn set(&self, source: &mut u32, value: u32) {
        if *source % 2 == 0 {
            *source = value.wrapping_mul(2);
        }
    }
}

impl HasReverseGet<u32, u32> for Double {
    type ReverseError = Infallible;

    fn try_reverse_get_spec(&self, _: u32) -> Result<u32, Infallible> {
        unreachable!()
    }

    fn try_reverse_get(&self, value: &u32) -> Result<u32, Infallible> {
        Ok(value.wrapping_mul(2))
    }
}

impl HasTotalReverseGet<u32, u32> for Double {
    fn reverse_get_is_total(&self, _: u32) {}

    fn reverse_get(&self, value: &u32) -> u32 {
        value.wrapping_mul(2)
    }
}

#[derive(Debug, PartialEq)]
enum ReadError {
    First(u32),
    Second(u32),
}

#[derive(Debug, PartialEq)]
enum BuildError {
    First(u32),
    Second,
}

fn read_first(e: Odd) -> ReadError {
    ReadError::First(e.0)
}

fn read_second(e: Wide) -> ReadError {
    ReadError::Second(e.0)
}

fn build_first(e: NoDouble) -> BuildError {
    BuildError::First(e.0)
}

fn build_second(_: Zero) -> BuildError {
    BuildError::Second
}

fn half_byte() -> FallibleIsoImpl<u32, u8, impl FallibleIso<u32, u8, GetterError = ReadError, ReverseError = BuildError>> {
    composed_fallible_iso(Half, Narrow, read_first, read_second, build_first, build_second)
}

#[test]
fn fallible_iso_reads_through_both_stages() {
    assert_eq!(half_byte().try_get(&10), Ok(5));
    assert_eq!(half_byte().try_get(&510), Ok(255));
}

#[test]
fn fallible_iso_maps_the_read_error_of_the_first_stage() {
    assert_eq!(half_byte().try_get(&11), Err(ReadError::First(11)));
}

#[test]
fn fallible_iso_maps_the_read_error_of_the_second_stage() {
    assert_eq!(half_byte().try_get(&1000), Err(ReadError::Second(500)));
}

#[test]
fn fallible_iso_builds_from_the_focus_outward() {
    assert_eq!(half_byte().try_reverse_get(&5), Ok(10));
    assert_eq!(half_byte().try_reverse_get(&100), Ok(200));
}

#[test]
fn fallible_iso_maps_the_build_error_of_the_second_stage() {
    assert_eq!(half_byte().try_reverse_get(&0), Err(BuildError::Second));
}

#[test]
fn fallible_iso_maps_the_build_error_of_the_first_stage() {
    assert_eq!(half_byte().try_reverse_get(&101), Err(BuildError::First(101)));
    assert_eq!(half_byte().try_reverse_get(&255), Err(BuildError::First(255)));
}

#[test]
fn fallible_iso_writes_through_both_stages() {
    let mut source = 10;
    half_byte().set(&mut source, 7);
    assert_eq!(source, 14);
}

#[test]
fn fallible_iso_set_is_a_no_op_where_the_first_stage_reads_nothing() {
    for value in [0u8, 7, 255] {
        let mut source = 11;
        half_byte().set(&mut source, value);
        assert_eq!(source, 11);
    }
}

#[test]
fn fallible_iso_set_is_a_no_op_where_the_second_stage_reads_nothing() {
    let mut source = 1000;
    half_byte().set(&mut source, 7);
    assert_eq!(source, 1000);
}

#[test]
fn fallible_iso_reads_what_it_built() {
    let optic = half_byte();
    for value in 0..=255u8 {
        if let Ok(source) = optic.try_reverse_get(&value) {
            assert_eq!(optic.try_get(&source), Ok(value));
        }
    }
}

#[test]
fn fallible_iso_with_lossy_mappers_reports_one_error_for_all() {
    let optic = composed_fallible_iso(Half, Narrow, |_: Odd| (), |_: Wide| (), |_: NoDouble| (), |_: Zero| ());
    assert_eq!(optic.try_get(&11), Err(()));
    assert_eq!(optic.try_get(&1000), Err(()));
    assert_eq!(optic.try_reverse_get(&0), Err(()));
    assert_eq!(optic.try_reverse_get(&200), Err(()));
    assert_eq!(optic.try_get(&8), Ok(4));
}

#[test]
fn fallible_iso_composition_is_associative() {
    let left = composed_fallible_iso(
        composed_fallible_iso(Half, Half, read_first, read_first, build_first, build_first),
        Narrow,
        |e: ReadError| e,
        read_second,
        |e: BuildError| e,
        build_second,
    );
    let right = composed_fallible_iso(
        Half,
        composed_fallible_iso(Half, Narrow, read_first, read_second, build_first, build_second),
        read_first,
        |e: ReadError| e,
        build_first,
        |e: BuildError| e,
    );
    for source in [0u32, 1, 2, 3, 4, 6, 20, 1020, 1022, 2000, 4000] {
        assert_eq!(left.try_get(&source), right.try_get(&source));
        for value in [0u8, 1, 9, 255] {
            let mut by_left = source;
            let mut by_right = source;
            left.set(&mut by_left, value);
            right.set(&mut by_right, value);
            assert_eq!(by_left, by_right);
        }
    }
    for value in [0u8, 1, 25, 26, 50, 51, 255] {
        assert_eq!(left.try_reverse_get(&value), right.try_reverse_get(&value));
    }
    assert_eq!(left.try_get(&20), Ok(5));
    assert_eq!(left.try_get(&6), Err(ReadError::First(3)));
    assert_eq!(left.try_reverse_get(&25), Ok(100));
    assert_eq!(left.try_reverse_get(&51), Err(BuildError::First(102)));
}

#[test]
fn partial_getter_reads_through_both_stages_and_maps_errors() {
    let getter = composed_partial_getter(Half, Narrow, read_first, read_second);
    assert_eq!(getter.try_get(&10), Ok(5));
    assert_eq!(getter.try_get(&11), Err(ReadError::First(11)));
    assert_eq!(getter.try_get(&1000), Err(ReadError::Second(500)));
    assert_eq!(getter.kind(), Kind::PartialGetter);
}

#[test]
fn prism_composition_builds_without_fail() {
    let prism = composed_prism(Decimal, Double, |e: u32| e, |e: Odd| e.0);
    assert_eq!(prism.kind(), Kind::Prism);
    assert_eq!(prism.try_get(&(4, 2)), Ok(21));
    assert_eq!(prism.try_get(&(4, 3)), Err(43));
    assert_eq!(prism.try_get(&(4, 12)), Err(12));
    assert_eq!(prism.reverse_get(&21), (4, 2));
    assert_eq!(prism.try_reverse_get(&21), Ok((4, 2)));
    let mut source = (4, 2);
    prism.set(&mut source, 8);
    assert_eq!(source, (1, 6));
    let mut odd = (4, 3);
    prism.set(&mut odd, 8);
    assert_eq!(odd, (4, 3));
    let mut no_digit = (4, 12);
    prism.set(&mut no_digit, 8);
    assert_eq!(no_digit, (4, 12));
}

#[test]
fn prism_with_fallible_iso_is_a_fallible_iso() {
    let optic = PrismImpl::new(Double).compose_with_fallible_iso(
        FallibleIsoImpl::new(Narrow),
        read_first,
        read_second,
    );
    assert_eq!(optic.kind(), Kind::FallibleIso);
    assert_eq!(optic.try_get(&10), Ok(5));
    assert_eq!(optic.try_get(&11), Err(ReadError::First(11)));
    assert_eq!(optic.try_get(&1000), Err(ReadError::Second(500)));
    assert_eq!(optic.try_reverse_get(&5), Ok(10));
    assert_eq!(optic.try_reverse_get(&0), Err(Zero));
}

#[test]
fn fallible_iso_with_prism_fails_to_build_as_the_first_stage_does() {
    let optic = FallibleIsoImpl::new(Half).compose_with_prism(
        PrismImpl::new(Double),
        |e: Odd| e.0,
        |e: Odd| e.0 + 1000,
    );
    assert_eq!(optic.kind(), Kind::FallibleIso);
    assert_eq!(optic.try_get(&20), Ok(5));
    assert_eq!(optic.try_get(&21), Err(21));
    assert_eq!(optic.try_get(&22), Err(1011));
    assert_eq!(optic.try_reverse_get(&5), Ok(20));
    assert_eq!(optic.try_reverse_get(&51), Err(NoDouble(102)));
}

#[test]
fn partial_getter_with_fallible_iso_is_a_partial_getter() {
    let getter = PartialGetterImpl::new(Half).compose_with_fallible_iso(
        FallibleIsoImpl::new(Narrow),
        read_first,
        read_second,
    );
    assert_eq!(getter.kind(), Kind::PartialGetter);
    assert_eq!(getter.try_get(&10), Ok(5));
    assert_eq!(getter.try_get(&7), Err(ReadError::First(7)));
}
