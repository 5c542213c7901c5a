//! The capabilities an optic may have, each with the mathematical function it computes,
//! and what it means for one optic to be the composition of two others.

use core::convert::Infallible;
use vstd::prelude::*;

verus! {

/// Fallible read: focus on a part `A` of a whole `S`, or report why it is absent.
pub trait HasGetter<S, A> {
    /// What a failed read reports.
    type GetterError;

    /// The read as a function of the source.
    spec fn try_get_spec(&self, source: S) -> Result<A, Self::GetterError>;

    fn try_get(&self, source: &S) -> (r: Result<A, Self::GetterError>)
        ensures
            r == self.try_get_spec(*source),
    ;
}

/// Total read: a fallible read that succeeds on every source.
pub trait HasTotalGetter<S, A>: HasGetter<S, A, GetterError = Infallible> {
    /// The read never fails.
    proof fn get_is_total(&self, source: S)
        ensures
            self.try_get_spec(source) is Ok,
    ;

    fn get(&self, source: &S) -> (a: A)
        ensures
            self.try_get_spec(*source) == Ok::<A, Infallible>(a),
    ;
}

/// Write: replace the focus inside a whole, in place.
pub trait HasSetter<S, A> {
    /// The whole that results from writing `value` into `source`.
    spec fn set_spec(&self, source: S, value: A) -> S;

    fn set(&self, source: &mut S, value: A)
        ensures
            *final(source) == self.set_spec(*old(source), value),
    ;
}

/// Fallible reverse construction: build a whole from a focus alone.
pub trait HasReverseGet<S, A> {
    /// What a failed construction reports.
    type ReverseError;

    /// The construction as a function of the focus.
    spec fn try_reverse_get_spec(&self, value: A) -> Result<S, Self::ReverseError>;

    fn try_reverse_get(&self, value: &A) -> (r: Result<S, Self::ReverseError>)
        ensures
            r == self.try_reverse_get_spec(*value),
    ;
}

/// Total reverse construction: one that succeeds on every focus.
pub trait HasTotalReverseGet<S, A>: HasReverseGet<S, A, ReverseError = Infallible> {
    /// The construction never fails.
    proof fn reverse_get_is_total(&self, value: A)
        ensures
            self.try_reverse_get_spec(value) is Ok,
    ;

    fn reverse_get(&self, value: &A) -> (s: S)
        ensures
            self.try_reverse_get_spec(*value) == Ok::<S, Infallible>(s),
    ;
}

/// The focus that the total read `g` finds in `source`.
pub open spec fn get_spec<S, A, G: HasTotalGetter<S, A>>(g: G, source: S) -> A {
    g.try_get_spec(source)->Ok_0
}

/// The whole that the total construction `g` builds from `value`.
pub open spec fn reverse_get_spec<S, A, G: HasTotalReverseGet<S, A>>(g: G, value: A) -> S {
    g.try_reverse_get_spec(value)->Ok_0
}

/// `f` accepts `e` and can return nothing but `model(e)` on it.
pub open spec fn maps_to<E, T, F: Fn(E) -> T>(f: F, model: spec_fn(E) -> T, e: E) -> bool {
    &&& call_requires(f, (e,))
    &&& forall|r: T| call_ensures(f, (e,), r) ==> r == model(e)
}

/// `f` accepts `e` and has at most one result on it: it is total and pure there.
pub open spec fn single_valued_at<E, T, F: Fn(E) -> T>(f: F, e: E) -> bool {
    &&& call_requires(f, (e,))
    &&& forall|r1: T, r2: T| call_ensures(f, (e,), r1) && call_ensures(f, (e,), r2) ==> r1 == r2
}

/// The result of `f` on `e`, where `f` is single-valued at `e`.
pub open spec fn mapped<E, T, F: Fn(E) -> T>(f: F, e: E) -> T {
    choose|r: T| call_ensures(f, (e,), r)
}

/// Whatever a single-valued `f` returns on `e` is `mapped(f, e)`.
pub proof fn mapped_is_the_result<E, T, F: Fn(E) -> T>(f: F, e: E, r: T)
    requires
        single_valued_at(f, e),
        call_ensures(f, (e,), r),
    ensures
        mapped(f, e) == r,
{
}

/// `mapped(f, ..)` as a function: the model of a caller's error mapper.
pub open spec fn mapping<E, T, F: Fn(E) -> T>(f: F) -> spec_fn(E) -> T {
    |e: E| mapped(f, e)
}

/// The model of a mapper that leaves the error as it is.
pub open spec fn same<E>() -> spec_fn(E) -> E {
    |e: E| e
}

/// A model for the mapper of a stage that cannot fail. Which function it is does not matter:
/// it is never applied to an error that occurs.
pub open spec fn never<E>() -> spec_fn(Infallible) -> E {
    |e: Infallible| arbitrary()
}

/// `f` maps every error that reading through `o` can report, and `model` says to what.
pub open spec fn models_getter_errors<S, A, T, O: HasGetter<S, A>, F: Fn(O::GetterError) -> T>(
    o: O,
    f: F,
    model: spec_fn(O::GetterError) -> T,
) -> bool {
    forall|s: S| (#[trigger] o.try_get_spec(s)) matches Err(e) ==> maps_to(f, model, e)
}

/// `f` maps every error that building through `o` can report, and `model` says to what.
pub open spec fn models_reverse_errors<
    S,
    A,
    T,
    O: HasReverseGet<S, A>,
    F: Fn(O::ReverseError) -> T,
>(o: O, f: F, model: spec_fn(O::ReverseError) -> T) -> bool {
    forall|a: A| (#[trigger] o.try_reverse_get_spec(a)) matches Err(e) ==> maps_to(f, model, e)
}

/// `f` is total and pure on every error that reading through `o` can report.
pub open spec fn handles_getter_errors<S, A, T, O: HasGetter<S, A>, F: Fn(O::GetterError) -> T>(
    o: O,
    f: F,
) -> bool {
    forall|s: S| (#[trigger] o.try_get_spec(s)) matches Err(e) ==> single_valued_at(f, e)
}

/// `f` is total and pure on every error that building through `o` can report.
pub open spec fn handles_reverse_errors<
    S,
    A,
    T,
    O: HasReverseGet<S, A>,
    F: Fn(O::ReverseError) -> T,
>(o: O, f: F) -> bool {
    forall|a: A| (#[trigger] o.try_reverse_get_spec(a)) matches Err(e) ==> single_valued_at(f, e)
}

/// A mapper that handles the read errors of `o` is modelled on them by `mapping(f)`.
pub proof fn handled_getter_errors_are_modelled<
    S,
    A,
    T,
    O: HasGetter<S, A>,
    F: Fn(O::GetterError) -> T,
>(o: O, f: F)
    requires
        handles_getter_errors(o, f),
    ensures
        models_getter_errors(o, f, mapping(f)),
{
    assert forall|s: S| (#[trigger] o.try_get_spec(s)) is Err implies maps_to(
        f,
        mapping(f),
        o.try_get_spec(s)->Err_0,
    ) by {
        let e = o.try_get_spec(s)->Err_0;
        assert forall|r: T| call_ensures(f, (e,), r) implies r == mapping(f)(e) by {
            assert(call_ensures(f, (e,), mapped(f, e)));
        }
    }
}

/// A mapper that handles the construction errors of `o` is modelled on them by `mapping(f)`.
pub proof fn handled_reverse_errors_are_modelled<
    S,
    A,
    T,
    O: HasReverseGet<S, A>,
    F: Fn(O::ReverseError) -> T,
>(o: O, f: F)
    requires
        handles_reverse_errors(o, f),
    ensures
        models_reverse_errors(o, f, mapping(f)),
{
    assert forall|a: A| (#[trigger] o.try_reverse_get_spec(a)) is Err implies maps_to(
        f,
        mapping(f),
        o.try_reverse_get_spec(a)->Err_0,
    ) by {
        let e = o.try_reverse_get_spec(a)->Err_0;
        assert forall|r: T| call_ensures(f, (e,), r) implies r == mapping(f)(e) by {
            assert(call_ensures(f, (e,), mapped(f, e)));
        }
    }
}

/// What reading `s` through `o1` and then `o2` yields, a failure of either stage reported
/// through the model of its mapper.
pub open spec fn read_through<S, I, A, T, O1: HasGetter<S, I>, O2: HasGetter<I, A>>(
    o1: O1,
    o2: O2,
    m1: spec_fn(O1::GetterError) -> T,
    m2: spec_fn(O2::GetterError) -> T,
    s: S,
) -> Result<A, T> {
    match o1.try_get_spec(s) {
        Err(e) => Err(m1(e)),
        Ok(i) => match o2.try_get_spec(i) {
            Err(e) => Err(m2(e)),
            Ok(a) => Ok(a),
        },
    }
}

/// What writing `v` into `s` through `o1` and then `o2` leaves: the part that `o1` reads,
/// rewritten by `o2` and put back by `o1`; or `s` itself where `o1` reads nothing.
pub open spec fn write_through<
    S,
    I,
    A,
    O1: HasGetter<S, I> + HasSetter<S, I>,
    O2: HasSetter<I, A>,
>(o1: O1, o2: O2, s: S, v: A) -> S {
    match o1.try_get_spec(s) {
        Ok(i) => o1.set_spec(s, o2.set_spec(i, v)),
        Err(_) => s,
    }
}

/// What building from `a` through `o2` and then `o1` yields: the stages run from the focus
/// outward, a failure of either reported through the model of its mapper.
pub open spec fn build_through<S, I, A, T, O1: HasReverseGet<S, I>, O2: HasReverseGet<I, A>>(
    o1: O1,
    o2: O2,
    m1: spec_fn(O1::ReverseError) -> T,
    m2: spec_fn(O2::ReverseError) -> T,
    a: A,
) -> Result<S, T> {
    match o2.try_reverse_get_spec(a) {
        Err(e) => Err(m2(e)),
        Ok(i) => match o1.try_reverse_get_spec(i) {
            Err(e) => Err(m1(e)),
            Ok(s) => Ok(s),
        },
    }
}

/// `c` reads as `o1` followed by `o2` does.
pub open spec fn composes_reads<
    S,
    I,
    A,
    O1: HasGetter<S, I>,
    O2: HasGetter<I, A>,
    C: HasGetter<S, A>,
>(
    c: C,
    o1: O1,
    o2: O2,
    m1: spec_fn(O1::GetterError) -> C::GetterError,
    m2: spec_fn(O2::GetterError) -> C::GetterError,
) -> bool {
    forall|s: S| #[trigger] c.try_get_spec(s) == read_through(o1, o2, m1, m2, s)
}

/// `c` writes as `o1` followed by `o2` does.
pub open spec fn composes_writes<
    S,
    I,
    A,
    O1: HasGetter<S, I> + HasSetter<S, I>,
    O2: HasSetter<I, A>,
    C: HasSetter<S, A>,
>(c: C, o1: O1, o2: O2) -> bool {
    forall|s: S, v: A| #[trigger] c.set_spec(s, v) == write_through(o1, o2, s, v)
}

/// `c` builds as `o2` followed by `o1` does.
pub open spec fn composes_builds<
    S,
    I,
    A,
    O1: HasReverseGet<S, I>,
    O2: HasReverseGet<I, A>,
    C: HasReverseGet<S, A>,
>(
    c: C,
    o1: O1,
    o2: O2,
    m1: spec_fn(O1::ReverseError) -> C::ReverseError,
    m2: spec_fn(O2::ReverseError) -> C::ReverseError,
) -> bool {
    forall|a: A| #[trigger] c.try_reverse_get_spec(a) == build_through(o1, o2, m1, m2, a)
}

/// An error mapper for a stage that cannot fail: the match without arms on a value of
/// `core::convert::Infallible`. That type has no values, so no call of this ever happens.
/// The body is not verified, as the verifier does not take a match without arms, and
/// nothing is claimed of the result.
#[verifier::external_body]
pub(crate) fn infallible<E>(x: Infallible) -> E {
    match x {
    }
}

/// The error mapper that leaves the error as it is.
pub fn identity<E>(x: E) -> (r: E)
    ensures
        r == x,
{
    x
}

/// A read that never fails reports no error, so `infallible` maps all of them.
pub(crate) proof fn infallible_maps_getter_errors<S, A, T, O: HasTotalGetter<S, A>>(o: O)
    ensures
        models_getter_errors(o, infallible::<T>, never::<T>()),
{
    assert forall|s: S| (#[trigger] o.try_get_spec(s)) is Ok by {
        o.get_is_total(s);
    }
}

/// A construction that never fails reports no error, so `infallible` maps all of them.
pub(crate) proof fn infallible_maps_reverse_errors<S, A, T, O: HasTotalReverseGet<S, A>>(o: O)
    ensures
        models_reverse_errors(o, infallible::<T>, never::<T>()),
{
    assert forall|a: A| (#[trigger] o.try_reverse_get_spec(a)) is Ok by {
        o.reverse_get_is_total(a);
    }
}

/// `identity` maps every read error of `o` to itself.
pub proof fn identity_maps_getter_errors<S, A, O: HasGetter<S, A>>(o: O)
    ensures
        models_getter_errors(o, identity::<O::GetterError>, same()),
{
}

/// `identity` maps every construction error of `o` to itself.
pub proof fn identity_maps_reverse_errors<S, A, O: HasReverseGet<S, A>>(o: O)
    ensures
        models_reverse_errors(o, identity::<O::ReverseError>, same()),
{
}

} // verus!
