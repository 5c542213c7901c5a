//! Total optics on pairs and bytes: getters, lenses and an isomorphism, their compositions,
//! and the kinds of what comes out.

use core::convert::Infallible;
use optics::{
    composed_getter, composed_iso, composed_lens, FallibleIsoImpl, Getter, GetterImpl, HasGetter,
    HasReverseGet, HasSetter, HasTotalGetter, HasTotalReverseGet, IsoImpl, Kind, Lens, LensImpl,
    PartialGetter, PartialGetterImpl, PrismImpl,
};

// The `*_spec` and `*_is_total` members of the capability traits are ghost: they describe an
// optic to the verifier and are never called when a program runs.

/// Focuses on the pair inside a pair with a flag.
struct Left;

impl HasGetter<((u8, u8), bool), (u8, u8)> for Left {
    type GetterError = Infallible;

    fn try_get_spec(&self, _: ((u8, u8), bool)) -> Result<(u8, u8), Infallible> {
        unreachable!()
    }

    fn try_get(&self, source: &((u8, u8), bool)) -> Result<(u8, u8), Infallible> {
        Ok(source.0)
    }
}

impl HasTotalGetter<((u8, u8), bool), (u8, u8)> for Left {
    fn get_is_total(&self, _: ((u8, u8), bool)) {}

    fn get(&self, source: &((u8, u8), bool)) -> (u8, u8) {
        source.0
    }
}

impl HasSetter<((u8, u8), bool), (u8, u8)> for Left {
    fn set_spec(&self, _: ((u8, u8), bool), _: (u8, u8)) -> ((u8, u8), bool) {
        unreachable!()
    }

    fn set(&self, source: &mut ((u8, u8), bool), value: (u8, u8)) {
        source.0 = value;
    }
}

/// Focuses on the first byte of a pair.
struct First;

impl HasGetter<(u8, u8), u8> for First {
    type GetterError = Infallible;

    fn try_get_spec(&self, _: (u8, u8)) -> Result<u8, Infallible> {
        unreachable!()
    }

    fn try_get(&self, source: &(u8, u8)) -> Result<u8, Infallible> {
        Ok(source.0)
    }
}

impl HasTotalGetter<(u8, u8), u8> for First {
    fn get_is_total(&self, _: (u8, u8)) {}

    fn get(&self, source: &(u8, u8)) -> u8 {
        source.0
    }
}

impl HasSetter<(u8, u8), u8> for First {
    fn set_spec(&self, _: (u8, u8), _: u8) -> (u8, u8) {
        unreachable!()
    }

    fn set(&self, source: &mut (u8, u8), value: u8) {
        source.0 = value;
    }
}

/// Focuses on the lowest bit of a byte.
struct LowBit;

impl HasGetter<u8, bool> for LowBit {
    type GetterError = Infallible;

    fn try_get_spec(&self, _: u8) -> Result<bool, Infallible> {
        unreachable!()
    }

    fn try_get(&self, source: &u8) -> Result<bool, Infallible> {
        Ok(source & 1 == 1)
    }
}

impl HasTotalGetter<u8, bool> for LowBit {
    fn get_is_total(&self, _: u8) {}

    fn get(&self, source: &u8) -> bool {
        source & 1 == 1
    }
}

impl HasSetter<u8, bool> for LowBit {
    fn set_spec(&self, _: u8, _: bool) -> u8 {
        unreachable!()
    }

    fn set(&self, source: &mut u8, value: bool) {
        *source = (*source & 0xfe) | u8::from(value);
    }
}

/// A pair and the pair with its halves exchanged.
struct Swap;

impl HasGetter<(u8, u8), (u8, u8)> for Swap {
    type GetterError = Infallible;

    fn try_get_spec(&self, _: (u8, u8)) -> Result<(u8, u8), Infallible> {
        unreachable!()
    }

    fn try_get(&self, source: &(u8, u8)) -> Result<(u8, u8), Infallible> {
        Ok((source.1, source.0))
    }
}

impl HasTotalGetter<(u8, u8), (u8, u8)> for Swap {
    fn get_is_total(&self, _: (u8, u8)) {}

    fn get(&self, source: &(u8, u8)) -> (u8, u8) {
        (source.1, source.0)
    }
}

impl HasSetter<(u8, u8), (u8, u8)> for Swap {
    fn set_spec(&self, _: (u8, u8), _: (u8, u8)) -> (u8, u8) {
        unreachable!()
    }

    fn set(&self, source: &mut (u8, u8), value: (u8, u8)) {
        *source = (value.1, value.0);
    }
}

impl HasReverseGet<(u8, u8), (u8, u8)> for Swap {
    type ReverseError = Infallible;

    fn try_reverse_get_spec(&self, _: (u8, u8)) -> Result<(u8, u8), Infallible> {
        unreachable!()
    }

    fn try_reverse_get(&self, value: &(u8, u8)) -> Result<(u8, u8), Infallible> {
        Ok((value.1, value.0))
    }
}

impl HasTotalReverseGet<(u8, u8), (u8, u8)> for Swap {
    fn reverse_get_is_total(&self, _: (u8, u8)) {}

    fn reverse_get(&self, value: &(u8, u8)) -> (u8, u8) {
        (value.1, value.0)
    }
}

#[derive(Debug, PartialEq)]
struct Odd(u8);

/// Half of an even byte. An odd byte has no half, and a half above 127 has no double.
struct Half;

impl HasGetter<u8, u8> for Half {
    type GetterError = Odd;

    fn try_get_spec(&self, _: u8) -> Result<u8, Odd> {
        unreachable!()
    }

    fn try_get(&self, source: &u8) -> Result<u8, Odd> {
        if source % 2 == 0 {
            Ok(source / 2)
        } else {
            Err(Odd(*source))
        }
    }
}

impl HasSetter<u8, u8> for Half {
    fn set_spec(&self, _: u8, _: u8) -> u8 {
        unreachable!()
    }

    fn set(&self, source: &mut u8, value: u8) {
        if *source % 2 == 0 {
            *source = value.wrapping_mul(2);
        }
    }
}

#[derive(Debug, PartialEq)]
struct TooLarge(u8);

impl HasReverseGet<u8, u8> for Half {
    type ReverseError = TooLarge;

    fn try_reverse_get_spec(&self, _: u8) -> Result<u8, TooLarge> {
        unreachable!()
    }

    fn try_reverse_get(&self, value: &u8) -> Result<u8, TooLarge> {
        value.checked_mul(2).ok_or(TooLarge(*value))
    }
}

/// One byte as a pair of equal bytes; a write replaces both where they are equal.
struct Twice;

impl HasGetter<(u8, u8), u8> for Twice {
    type GetterError = (u8, u8);

    fn try_get_spec(&self, _: (u8, u8)) -> Result<u8, (u8, u8)> {
        unreachable!()
    }

    fn try_get(&self, source: &(u8, u8)) -> Result<u8, (u8, u8)> {
        if source.0 == source.1 {
            Ok(source.0)
        } else {
            Err(*source)
        }
    }
}

impl HasSetter<(u8, u8), u8> for Twice {
    fn set_spec(&self, _: (u8, u8), _: u8) -> (u8, u8) {
        unreachable!()
    }

    fn set(&self, source: &mut (u8, u8), value: u8) {
        if source.0 == source.1 {
            *source = (value, value);
        }
    }
}

impl HasReverseGet<(u8, u8), u8> for Twice {
    type ReverseError = Infallible;

    fn try_reverse_get_spec(&self, _: u8) -> Result<(u8, u8), Infallible> {
        unreachable!()
    }

    fn try_reverse_get(&self, value: &u8) -> Result<(u8, u8), Infallible> {
        Ok((*value, *value))
    }
}

impl HasTotalReverseGet<(u8, u8), u8> for Twice {
    fn reverse_get_is_total(&self, _: u8) {}

    fn reverse_get(&self, value: &u8) -> (u8, u8) {
        (*value, *value)
    }
}

fn is_getter<S, A, G: Getter<S, A>>(_: &GetterImpl<S, A, G>) {}

fn is_partial_getter<S, A, PG: PartialGetter<S, A>>(_: &PartialGetterImpl<S, A, PG>) {}

fn is_lens<S, A, L: Lens<S, A>>(_: &LensImpl<S, A, L>) {}

const SOURCES: [((u8, u8), bool); 4] =
    [((0, 0), false), ((1, 2), true), ((254, 255), false), ((37, 200), true)];

#[test]
fn composed_getter_reads_through_both_stages() {
    let getter = composed_getter(Left, First);
    assert_eq!(getter.get(&((21, 5), true)), 21);
    assert_eq!(getter.try_get(&((4, 9), false)), Ok(4));
}

#[test]
fn getter_with_getter_is_a_getter() {
    let getter = GetterImpl::new(Left).compose_with_getter(GetterImpl::new(First));
    is_getter(&getter);
    assert_eq!(getter.kind(), Kind::Getter);
    assert_eq!(getter.get(&((3, 4), false)), 3);
}

#[test]
fn getter_with_lens_is_a_getter() {
    let getter = GetterImpl::new(Left).compose_with_lens(LensImpl::new(First));
    is_getter(&getter);
    assert_eq!(getter.kind(), Kind::Getter);
    assert!(!getter.kind().has_write());
    assert_eq!(getter.get(&((8, 9), true)), 8);
}

#[test]
fn getter_with_iso_is_a_getter() {
    let getter = GetterImpl::new(Left).compose_with_iso(IsoImpl::new(Swap));
    is_getter(&getter);
    assert_eq!(getter.get(&((8, 9), true)), (9, 8));
}

#[test]
fn getter_with_prism_is_a_partial_getter() {
    let getter = GetterImpl::new(Left).compose_with_prism(PrismImpl::new(Twice));
    is_partial_getter(&getter);
    assert_eq!(getter.kind(), Kind::PartialGetter);
    assert_eq!(getter.try_get(&((6, 6), true)), Ok(6));
    assert_eq!(getter.try_get(&((6, 7), true)), Err((6, 7)));
}

#[test]
fn getter_with_fallible_iso_is_a_partial_getter() {
    let getter = GetterImpl::new(First).compose_with_fallible_iso(FallibleIsoImpl::new(Half));
    is_partial_getter(&getter);
    assert_eq!(getter.kind(), Kind::PartialGetter);
    assert_eq!(getter.try_get(&(10, 3)), Ok(5));
    assert_eq!(getter.try_get(&(11, 3)), Err(Odd(11)));
}

#[test]
fn getter_from_an_optic_wraps_it() {
    let getter = GetterImpl::from(First);
    assert_eq!(getter.get(&(7, 8)), 7);
    assert_eq!(getter.0.get(&(7, 8)), 7);
}

#[test]
fn composed_lens_reads_and_writes_the_inner_part() {
    let lens = composed_lens(Left, First);
    is_lens(&lens);
    let mut source = ((1, 2), true);
    assert_eq!(lens.get(&source), 1);
    assert_eq!(lens.try_get(&source), Ok(1));
    lens.set(&mut source, 9);
    assert_eq!(source, ((9, 2), true));
}

#[test]
fn composed_lens_set_of_get_changes_nothing() {
    let lens = composed_lens(Left, First);
    for source in SOURCES {
        let mut written = source;
        lens.set(&mut written, lens.get(&source));
        assert_eq!(written, source);
    }
}

#[test]
fn composed_lens_get_after_set_is_the_value() {
    let lens = composed_lens(Left, First);
    for source in SOURCES {
        for value in [0u8, 1, 128, 255] {
            let mut written = source;
            lens.set(&mut written, value);
            assert_eq!(lens.get(&written), value);
        }
    }
}

#[test]
fn lens_composition_is_associative() {
    let left = composed_lens(composed_lens(Left, First), LowBit);
    let right = composed_lens(Left, composed_lens(First, LowBit));
    for source in SOURCES {
        assert_eq!(left.try_get(&source), right.try_get(&source));
        for value in [false, true] {
            let mut by_left = source;
            let mut by_right = source;
            left.set(&mut by_left, value);
            right.set(&mut by_right, value);
            assert_eq!(by_left, by_right);
        }
    }
    let mut source = ((6, 1), true);
    left.set(&mut source, true);
    assert_eq!(source, ((7, 1), true));
}

#[test]
fn composed_iso_reads_forward_and_builds_backward() {
    let iso = composed_iso(Swap, Swap);
    assert_eq!(iso.get(&(1, 2)), (1, 2));
    assert_eq!(iso.reverse_get(&(3, 4)), (3, 4));
    let swap_then_first = LensImpl::new(Swap).compose_with_lens(LensImpl::new(First));
    let mut source = (1, 2);
    assert_eq!(swap_then_first.get(&source), 2);
    swap_then_first.set(&mut source, 9);
    assert_eq!(source, (1, 9));
}

#[test]
fn kind_of_a_composition_keeps_what_both_can_do() {
    let lens_prism = Kind::Lens.compose(Kind::Prism);
    assert_eq!(lens_prism, Kind::PartialLens);
    assert!(lens_prism.has_write());
    assert!(!lens_prism.has_total_read());
    assert!(!lens_prism.has_reverse());
    let getter_lens = Kind::Getter.compose(Kind::Lens);
    assert_eq!(getter_lens, Kind::Getter);
    assert!(getter_lens.has_total_read());
    assert!(!getter_lens.has_write());
    assert_eq!(Kind::Prism.compose(Kind::Iso), Kind::Prism);
    assert_eq!(Kind::Prism.compose(Kind::FallibleIso), Kind::FallibleIso);
    assert_eq!(Kind::Iso.compose(Kind::Iso), Kind::Iso);
    assert_eq!(Kind::Iso.compose(Kind::Lens), Kind::Lens);
    assert_eq!(Kind::FallibleIso.compose(Kind::PartialGetter), Kind::PartialGetter);
}

#[test]
fn kind_of_a_composition_does_not_depend_on_grouping() {
    let kinds = [
        Kind::PartialGetter,
        Kind::Getter,
        Kind::PartialLens,
        Kind::Lens,
        Kind::FallibleIso,
        Kind::Prism,
        Kind::Iso,
    ];
    for a in kinds {
        assert_eq!(a.compose(a), a);
        for b in kinds {
            let both = a.compose(b);
            assert_eq!(both.has_total_read(), a.has_total_read() && b.has_total_read());
            assert_eq!(both.has_write(), a.has_write() && b.has_write());
            assert_eq!(both.has_reverse(), a.has_reverse() && b.has_reverse());
            assert_eq!(both.has_total_reverse(), a.has_total_reverse() && b.has_total_reverse());
            for c in kinds {
                assert_eq!(a.compose(b).compose(c), a.compose(b.compose(c)));
            }
        }
    }
}
