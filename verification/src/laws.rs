//! What composition preserves: the laws of well-behaved optics, and the proof that a
//! composition obeys each of them wherever its two stages do.
//!
//! Every statement is about an optic `c` that composes two stages `o1` and `o2`, which is
//! what the `new` function of each kind promises of its result.

use crate::base::{
    composes_builds, composes_reads, composes_writes, get_spec, same, HasGetter, HasReverseGet,
    HasSetter, HasTotalGetter,
};
use core::convert::Infallible;
use vstd::prelude::*;

verus! {

/// Get-set: writing back what was read leaves the whole as it was.
pub open spec fn get_set_law<S, A, O: HasGetter<S, A> + HasSetter<S, A>>(o: O) -> bool {
    forall|s: S| (#[trigger] o.try_get_spec(s)) matches Ok(a) ==> o.set_spec(s, a) == s
}

/// Set-get: where there is a focus, a read after a write finds what was written.
pub open spec fn set_get_law<S, A, O: HasGetter<S, A> + HasSetter<S, A>>(o: O) -> bool {
    forall|s: S, v: A|
        o.try_get_spec(s) is Ok ==> o.try_get_spec(#[trigger] o.set_spec(s, v)) == Ok::<
            A,
            O::GetterError,
        >(v)
}

/// Round trip: a whole that was built from a focus reads as that focus.
pub open spec fn round_trip_law<S, A, O: HasGetter<S, A> + HasReverseGet<S, A>>(o: O) -> bool {
    forall|a: A|
        (#[trigger] o.try_reverse_get_spec(a)) matches Ok(s) ==> o.try_get_spec(s) == Ok::<
            A,
            O::GetterError,
        >(a)
}

/// No-op on mismatch: where there is no focus, a write leaves the whole as it was.
pub open spec fn set_skips_mismatch_law<S, A, O: HasGetter<S, A> + HasSetter<S, A>>(o: O) -> bool {
    forall|s: S, v: A| o.try_get_spec(s) is Err ==> #[trigger] o.set_spec(s, v) == s
}

/// Where `o2` finds no focus in what `o1` read, `o1` puts that part back without a change.
/// It holds where `o1` obeys the get-set law, and where `o2` never fails.
pub open spec fn puts_back_unread<S, I, A, O1: HasGetter<S, I> + HasSetter<S, I>, O2: HasGetter<I, A>>(
    o1: O1,
    o2: O2,
) -> bool {
    forall|s: S|
        (#[trigger] o1.try_get_spec(s)) matches Ok(i) ==> (o2.try_get_spec(i) is Err ==> o1.set_spec(
            s,
            i,
        ) == s)
}

/// A write through a composition whose first stage finds no focus in `s` leaves `s` as it
/// is, whatever the value.
pub proof fn set_leaves_source_where_first_read_fails<S, I, A, O1, O2, C>(
    c: C,
    o1: O1,
    o2: O2,
    s: S,
    v: A,
) where O1: HasGetter<S, I> + HasSetter<S, I>, O2: HasSetter<I, A>, C: HasSetter<S, A>
    requires
        composes_writes(c, o1, o2),
        o1.try_get_spec(s) is Err,
    ensures
        c.set_spec(s, v) == s,
{
}

/// A composition reads a focus exactly where both stages do, one after the other.
pub proof fn reads_where_both_stages_read<S, I, A, O1, O2, C>(
    c: C,
    o1: O1,
    o2: O2,
    m1: spec_fn(O1::GetterError) -> C::GetterError,
    m2: spec_fn(O2::GetterError) -> C::GetterError,
    s: S,
) where O1: HasGetter<S, I>, O2: HasGetter<I, A>, C: HasGetter<S, A>
    requires
        composes_reads(c, o1, o2, m1, m2),
    ensures
        c.try_get_spec(s) is Ok <==> (o1.try_get_spec(s) matches Ok(i) && o2.try_get_spec(i) is Ok),
        c.try_get_spec(s) matches Ok(a) ==> o2.try_get_spec(o1.try_get_spec(s)->Ok_0) == Ok::<
            A,
            O2::GetterError,
        >(a),
{
}

/// A composition builds a whole exactly where both stages build, from the focus outward.
pub proof fn builds_where_both_stages_build<S, I, A, O1, O2, C>(
    c: C,
    o1: O1,
    o2: O2,
    m1: spec_fn(O1::ReverseError) -> C::ReverseError,
    m2: spec_fn(O2::ReverseError) -> C::ReverseError,
    a: A,
) where O1: HasReverseGet<S, I>, O2: HasReverseGet<I, A>, C: HasReverseGet<S, A>
    requires
        composes_builds(c, o1, o2, m1, m2),
    ensures
        c.try_reverse_get_spec(a) is Ok <==> (o2.try_reverse_get_spec(a) matches Ok(i)
            && o1.try_reverse_get_spec(i) is Ok),
        c.try_reverse_get_spec(a) matches Ok(s) ==> o1.try_reverse_get_spec(
            o2.try_reverse_get_spec(a)->Ok_0,
        ) == Ok::<S, O1::ReverseError>(s),
{
}

/// The composition of two optics that obey the get-set law obeys it.
pub proof fn composition_keeps_get_set_law<S, I, A, O1, O2, C>(
    c: C,
    o1: O1,
    o2: O2,
    m1: spec_fn(O1::GetterError) -> C::GetterError,
    m2: spec_fn(O2::GetterError) -> C::GetterError,
) where
    O1: HasGetter<S, I> + HasSetter<S, I>,
    O2: HasGetter<I, A> + HasSetter<I, A>,
    C: HasGetter<S, A> + HasSetter<S, A>,

    requires
        composes_reads(c, o1, o2, m1, m2),
        composes_writes(c, o1, o2),
        get_set_law(o1),
        get_set_law(o2),
    ensures
        get_set_law(c),
{
    assert forall|s: S| (#[trigger] c.try_get_spec(s)) is Ok implies c.set_spec(
        s,
        c.try_get_spec(s)->Ok_0,
    ) == s by {
        let i = o1.try_get_spec(s)->Ok_0;
        let a = o2.try_get_spec(i)->Ok_0;
        assert(o2.set_spec(i, a) == i);
        assert(o1.set_spec(s, i) == s);
    }
}

/// The composition of two optics that obey the set-get law obeys it.
pub proof fn composition_keeps_set_get_law<S, I, A, O1, O2, C>(
    c: C,
    o1: O1,
    o2: O2,
    m1: spec_fn(O1::GetterError) -> C::GetterError,
    m2: spec_fn(O2::GetterError) -> C::GetterError,
) where
    O1: HasGetter<S, I> + HasSetter<S, I>,
    O2: HasGetter<I, A> + HasSetter<I, A>,
    C: HasGetter<S, A> + HasSetter<S, A>,

    requires
        composes_reads(c, o1, o2, m1, m2),
        composes_writes(c, o1, o2),
        set_get_law(o1),
        set_get_law(o2),
    ensures
        set_get_law(c),
{
    assert forall|s: S, v: A| c.try_get_spec(s) is Ok implies c.try_get_spec(
        #[trigger] c.set_spec(s, v),
    ) == Ok::<A, C::GetterError>(v) by {
        let i = o1.try_get_spec(s)->Ok_0;
        let i2 = o2.set_spec(i, v);
        assert(o1.try_get_spec(o1.set_spec(s, i2)) == Ok::<I, O1::GetterError>(i2));
        assert(o2.try_get_spec(i2) == Ok::<A, O2::GetterError>(v));
    }
}

/// Get-set for two lenses in a row: writing back what the composition reads in `s` leaves
/// `s` as it was.
pub proof fn composed_lens_get_set<S, I, A, L1, L2, C>(c: C, l1: L1, l2: L2, s: S) where
    L1: HasTotalGetter<S, I> + HasSetter<S, I>,
    L2: HasTotalGetter<I, A> + HasSetter<I, A>,
    C: HasTotalGetter<S, A> + HasSetter<S, A>,

    requires
        composes_reads(c, l1, l2, same(), same()),
        composes_writes(c, l1, l2),
        get_set_law(l1),
        get_set_law(l2),
    ensures
        c.set_spec(s, get_spec(c, s)) == s,
{
    composition_keeps_get_set_law(c, l1, l2, same(), same());
    c.get_is_total(s);
}

/// Set-get for two lenses in a row: after the composition has written `v` into `s`, it
/// reads `v`.
pub proof fn composed_lens_set_get<S, I, A, L1, L2, C>(c: C, l1: L1, l2: L2, s: S, v: A) where
    L1: HasTotalGetter<S, I> + HasSetter<S, I>,
    L2: HasTotalGetter<I, A> + HasSetter<I, A>,
    C: HasTotalGetter<S, A> + HasSetter<S, A>,

    requires
        composes_reads(c, l1, l2, same(), same()),
        composes_writes(c, l1, l2),
        set_get_law(l1),
        set_get_law(l2),
    ensures
        get_spec(c, c.set_spec(s, v)) == v,
{
    composition_keeps_set_get_law(c, l1, l2, same(), same());
    c.get_is_total(s);
}

/// The composition of two optics that obey the round-trip law obeys it: where it builds a
/// whole from a focus, it reads that focus in the whole.
pub proof fn composition_keeps_round_trip_law<S, I, A, O1, O2, C>(
    c: C,
    o1: O1,
    o2: O2,
    gm1: spec_fn(O1::GetterError) -> C::GetterError,
    gm2: spec_fn(O2::GetterError) -> C::GetterError,
    rm1: spec_fn(O1::ReverseError) -> C::ReverseError,
    rm2: spec_fn(O2::ReverseError) -> C::ReverseError,
) where
    O1: HasGetter<S, I> + HasReverseGet<S, I>,
    O2: HasGetter<I, A> + HasReverseGet<I, A>,
    C: HasGetter<S, A> + HasReverseGet<S, A>,

    requires
        composes_reads(c, o1, o2, gm1, gm2),
        composes_builds(c, o1, o2, rm1, rm2),
        round_trip_law(o1),
        round_trip_law(o2),
    ensures
        round_trip_law(c),
{
    assert forall|a: A| (#[trigger] c.try_reverse_get_spec(a)) is Ok implies c.try_get_spec(
        c.try_reverse_get_spec(a)->Ok_0,
    ) == Ok::<A, C::GetterError>(a) by {
        let i = o2.try_reverse_get_spec(a)->Ok_0;
        let s = o1.try_reverse_get_spec(i)->Ok_0;
        assert(o1.try_get_spec(s) == Ok::<I, O1::GetterError>(i));
        assert(o2.try_get_spec(i) == Ok::<A, O2::GetterError>(a));
    }
}

/// A composition skips a write wherever it reads no focus, if its second stage does so and
/// its first obeys the get-set law.
pub proof fn composition_keeps_set_skips_mismatch_law<S, I, A, O1, O2, C>(
    c: C,
    o1: O1,
    o2: O2,
    m1: spec_fn(O1::GetterError) -> C::GetterError,
    m2: spec_fn(O2::GetterError) -> C::GetterError,
) where
    O1: HasGetter<S, I> + HasSetter<S, I>,
    O2: HasGetter<I, A> + HasSetter<I, A>,
    C: HasGetter<S, A> + HasSetter<S, A>,

    requires
        composes_reads(c, o1, o2, m1, m2),
        composes_writes(c, o1, o2),
        get_set_law(o1),
        set_skips_mismatch_law(o2),
    ensures
        set_skips_mismatch_law(c),
{
    assert forall|s: S, v: A| c.try_get_spec(s) is Err implies #[trigger] c.set_spec(s, v)
        == s by {
        if o1.try_get_spec(s) is Ok {
            let i = o1.try_get_spec(s)->Ok_0;
            assert(o2.set_spec(i, v) == i);
            assert(o1.set_spec(s, i) == s);
        }
    }
}

/// Reading is associative: three optics composed as `(o1 . o2) . o3` and as
/// `o1 . (o2 . o3)` read the same in every source, provided that the two groupings map the
/// error of each stage to the same error of the whole.
pub proof fn composition_reads_associate<S, I, J, A, O1, O2, O3, C12, C23, CL, CR>(
    o1: O1,
    o2: O2,
    o3: O3,
    c12: C12,
    c23: C23,
    left: CL,
    right: CR,
    m1: spec_fn(O1::GetterError) -> C12::GetterError,
    m2: spec_fn(O2::GetterError) -> C12::GetterError,
    left_m12: spec_fn(C12::GetterError) -> CL::GetterError,
    left_m3: spec_fn(O3::GetterError) -> CL::GetterError,
    n2: spec_fn(O2::GetterError) -> C23::GetterError,
    n3: spec_fn(O3::GetterError) -> C23::GetterError,
    right_m1: spec_fn(O1::GetterError) -> CL::GetterError,
    right_m23: spec_fn(C23::GetterError) -> CL::GetterError,
) where
    O1: HasGetter<S, I>,
    O2: HasGetter<I, J>,
    O3: HasGetter<J, A>,
    C12: HasGetter<S, J>,
    C23: HasGetter<I, A>,
    CL: HasGetter<S, A>,
    CR: HasGetter<S, A, GetterError = CL::GetterError>,

    requires
        composes_reads(c12, o1, o2, m1, m2),
        composes_reads(left, c12, o3, left_m12, left_m3),
        composes_reads(c23, o2, o3, n2, n3),
        composes_reads(right, o1, c23, right_m1, right_m23),
        forall|e: O1::GetterError| left_m12(m1(e)) == #[trigger] right_m1(e),
        forall|e: O2::GetterError| left_m12(m2(e)) == right_m23(#[trigger] n2(e)),
        forall|e: O3::GetterError| #[trigger] left_m3(e) == right_m23(n3(e)),
    ensures
        forall|s: S| #[trigger] left.try_get_spec(s) == right.try_get_spec(s),
{
    assert forall|s: S| #[trigger] left.try_get_spec(s) == right.try_get_spec(s) by {
        match o1.try_get_spec(s) {
            Err(e) => {
                assert(left_m12(m1(e)) == right_m1(e));
            },
            Ok(i) => {
                match o2.try_get_spec(i) {
                    Err(e) => {
                        assert(left_m12(m2(e)) == right_m23(n2(e)));
                    },
                    Ok(j) => {
                        match o3.try_get_spec(j) {
                            Err(e) => {
                                assert(left_m3(e) == right_m23(n3(e)));
                            },
                            Ok(a) => {},
                        }
                    },
                }
            },
        }
    }
}

/// Writing is associative: three optics composed as `(o1 . o2) . o3` and as
/// `o1 . (o2 . o3)` write the same into every source, provided that `o1` puts back
/// unchanged a part in which `o2` finds no focus.
pub proof fn composition_writes_associate<S, I, J, A, O1, O2, O3, C12, C23, CL, CR>(
    o1: O1,
    o2: O2,
    o3: O3,
    c12: C12,
    c23: C23,
    left: CL,
    right: CR,
    m1: spec_fn(O1::GetterError) -> C12::GetterError,
    m2: spec_fn(O2::GetterError) -> C12::GetterError,
) where
    O1: HasGetter<S, I> + HasSetter<S, I>,
    O2: HasGetter<I, J> + HasSetter<I, J>,
    O3: HasSetter<J, A>,
    C12: HasGetter<S, J> + HasSetter<S, J>,
    C23: HasSetter<I, A>,
    CL: HasSetter<S, A>,
    CR: HasSetter<S, A>,

    requires
        composes_reads(c12, o1, o2, m1, m2),
        composes_writes(c12, o1, o2),
        composes_writes(left, c12, o3),
        composes_writes(c23, o2, o3),
        composes_writes(right, o1, c23),
        puts_back_unread(o1, o2),
    ensures
        forall|s: S, v: A| #[trigger] left.set_spec(s, v) == right.set_spec(s, v),
{
    assert forall|s: S, v: A| #[trigger] left.set_spec(s, v) == right.set_spec(s, v) by {
        match o1.try_get_spec(s) {
            Err(e) => {},
            Ok(i) => {
                match o2.try_get_spec(i) {
                    Err(e) => {
                        assert(c23.set_spec(i, v) == i);
                        assert(o1.set_spec(s, i) == s);
                    },
                    Ok(j) => {
                        assert(c12.set_spec(s, o3.set_spec(j, v)) == o1.set_spec(
                            s,
                            o2.set_spec(i, o3.set_spec(j, v)),
                        ));
                        assert(c23.set_spec(i, v) == o2.set_spec(i, o3.set_spec(j, v)));
                    },
                }
            },
        }
    }
}

/// Building is associative: three optics composed as `(o1 . o2) . o3` and as
/// `o1 . (o2 . o3)` build the same from every focus, provided that the two groupings map
/// the error of each stage to the same error of the whole.
pub proof fn composition_builds_associate<S, I, J, A, O1, O2, O3, C12, C23, CL, CR>(
    o1: O1,
    o2: O2,
    o3: O3,
    c12: C12,
    c23: C23,
    left: CL,
    right: CR,
    m1: spec_fn(O1::ReverseError) -> C12::ReverseError,
    m2: spec_fn(O2::ReverseError) -> C12::ReverseError,
    left_m12: spec_fn(C12::ReverseError) -> CL::ReverseError,
    left_m3: spec_fn(O3::ReverseError) -> CL::ReverseError,
    n2: spec_fn(O2::ReverseError) -> C23::ReverseError,
    n3: spec_fn(O3::ReverseError) -> C23::ReverseError,
    right_m1: spec_fn(O1::ReverseError) -> CL::ReverseError,
    right_m23: spec_fn(C23::ReverseError) -> CL::ReverseError,
) where
    O1: HasReverseGet<S, I>,
    O2: HasReverseGet<I, J>,
    O3: HasReverseGet<J, A>,
    C12: HasReverseGet<S, J>,
    C23: HasReverseGet<I, A>,
    CL: HasReverseGet<S, A>,
    CR: HasReverseGet<S, A, ReverseError = CL::ReverseError>,

    requires
        composes_builds(c12, o1, o2, m1, m2),
        composes_builds(left, c12, o3, left_m12, left_m3),
        composes_builds(c23, o2, o3, n2, n3),
        composes_builds(right, o1, c23, right_m1, right_m23),
        forall|e: O1::ReverseError| left_m12(m1(e)) == #[trigger] right_m1(e),
        forall|e: O2::ReverseError| left_m12(m2(e)) == right_m23(#[trigger] n2(e)),
        forall|e: O3::ReverseError| #[trigger] left_m3(e) == right_m23(n3(e)),
    ensures
        forall|a: A| #[trigger] left.try_reverse_get_spec(a) == right.try_reverse_get_spec(a),
{
    assert forall|a: A| #[trigger]
        left.try_reverse_get_spec(a) == right.try_reverse_get_spec(a) by {
        match o3.try_reverse_get_spec(a) {
            Err(e) => {
                assert(left_m3(e) == right_m23(n3(e)));
            },
            Ok(j) => {
                match o2.try_reverse_get_spec(j) {
                    Err(e) => {
                        assert(left_m12(m2(e)) == right_m23(n2(e)));
                    },
                    Ok(i) => {
                        match o1.try_reverse_get_spec(i) {
                            Err(e) => {
                                assert(left_m12(m1(e)) == right_m1(e));
                            },
                            Ok(s) => {},
                        }
                    },
                }
            },
        }
    }
}

/// Composition of lenses is associative: three lenses composed as `(l1 . l2) . l3` and as
/// `l1 . (l2 . l3)` read the same in every source and write the same into it.
pub proof fn lens_composition_is_associative<S, I, J, A, L1, L2, L3, C12, C23, CL, CR>(
    l1: L1,
    l2: L2,
    l3: L3,
    c12: C12,
    c23: C23,
    left: CL,
    right: CR,
) where
    L1: HasTotalGetter<S, I> + HasSetter<S, I>,
    L2: HasTotalGetter<I, J> + HasSetter<I, J>,
    L3: HasTotalGetter<J, A> + HasSetter<J, A>,
    C12: HasTotalGetter<S, J> + HasSetter<S, J>,
    C23: HasTotalGetter<I, A> + HasSetter<I, A>,
    CL: HasTotalGetter<S, A> + HasSetter<S, A>,
    CR: HasTotalGetter<S, A> + HasSetter<S, A>,

    requires
        composes_reads(c12, l1, l2, same(), same()),
        composes_writes(c12, l1, l2),
        composes_reads(left, c12, l3, same(), same()),
        composes_writes(left, c12, l3),
        composes_reads(c23, l2, l3, same(), same()),
        composes_writes(c23, l2, l3),
        composes_reads(right, l1, c23, same(), same()),
        composes_writes(right, l1, c23),
    ensures
        forall|s: S| #[trigger] left.try_get_spec(s) == right.try_get_spec(s),
        forall|s: S, v: A| #[trigger] left.set_spec(s, v) == right.set_spec(s, v),
{
    assert(puts_back_unread(l1, l2)) by {
        assert forall|s: S| (#[trigger] l1.try_get_spec(s)) is Ok implies l2.try_get_spec(
            l1.try_get_spec(s)->Ok_0,
        ) is Ok by {
            l2.get_is_total(l1.try_get_spec(s)->Ok_0);
        }
    }
    composition_reads_associate(
        l1,
        l2,
        l3,
        c12,
        c23,
        left,
        right,
        same::<Infallible>(),
        same::<Infallible>(),
        same::<Infallible>(),
        same::<Infallible>(),
        same::<Infallible>(),
        same::<Infallible>(),
        same::<Infallible>(),
        same::<Infallible>(),
    );
    composition_writes_associate(
        l1,
        l2,
        l3,
        c12,
        c23,
        left,
        right,
        same::<Infallible>(),
        same::<Infallible>(),
    );
}

} // verus!
