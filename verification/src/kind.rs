//! The kinds of optic as values, and the rule that gives the kind of a composition.
//!
//! Every optic can read, perhaps with a failure. Beyond that an optic may read without
//! fail, write, build a whole from a focus, and do that without fail. A kind is a set of
//! these capabilities that has a name, and a composition can do what both of its stages can.

use vstd::prelude::*;

verus! {

/// The named bundles of capabilities.
#[derive(Clone, Copy, Debug, PartialEq, Eq, Structural)]
pub enum Kind {
    /// Reads, perhaps with a failure.
    PartialGetter,
    /// Reads without fail.
    Getter,
    /// Reads, perhaps with a failure, and writes.
    PartialLens,
    /// Reads without fail, and writes.
    Lens,
    /// Reads and builds, each perhaps with a failure, and writes.
    FallibleIso,
    /// Reads, perhaps with a failure, writes, and builds without fail.
    Prism,
    /// Reads and builds without fail, and writes.
    Iso,
}

impl Kind {
    /// Whether a read cannot fail.
    pub open spec fn total_read(self) -> bool {
        self is Getter || self is Lens || self is Iso
    }

    /// Whether the focus can be replaced.
    pub open spec fn write(self) -> bool {
        !(self is PartialGetter) && !(self is Getter)
    }

    /// Whether a whole can be built from a focus, perhaps with a failure.
    pub open spec fn reverse(self) -> bool {
        self is FallibleIso || self is Prism || self is Iso
    }

    /// Whether a whole can be built from a focus without fail.
    pub open spec fn total_reverse(self) -> bool {
        self is Prism || self is Iso
    }

    /// The kind with the given capabilities. Building without fail counts only where a
    /// whole can be built, and building only where the focus can be written.
    pub open spec fn with(total_read: bool, write: bool, reverse: bool, total_reverse: bool) -> Kind {
        if !write {
            if total_read {
                Kind::Getter
            } else {
                Kind::PartialGetter
            }
        } else if !reverse {
            if total_read {
                Kind::Lens
            } else {
                Kind::PartialLens
            }
        } else if !total_reverse {
            Kind::FallibleIso
        } else if total_read {
            Kind::Iso
        } else {
            Kind::Prism
        }
    }

    /// The kind of the composition of an optic of this kind with one of the other: it reads
    /// without fail if both do, writes if both do, builds if both do, and builds without
    /// fail if both do.
    pub open spec fn composed_with(self, other: Kind) -> Kind {
        Kind::with(
            self.total_read() && other.total_read(),
            self.write() && other.write(),
            self.reverse() && other.reverse(),
            self.total_reverse() && other.total_reverse(),
        )
    }

    #[verifier::when_used_as_spec(total_read)]
    pub fn has_total_read(self) -> (b: bool)
        ensures
            b == self.total_read(),
    {
        match self {
            Kind::Getter | Kind::Lens | Kind::Iso => true,
            _ => false,
        }
    }

    #[verifier::when_used_as_spec(write)]
    pub fn has_write(self) -> (b: bool)
        ensures
            b == self.write(),
    {
        match self {
            Kind::PartialGetter | Kind::Getter => false,
            _ => true,
        }
    }

    #[verifier::when_used_as_spec(reverse)]
    pub fn has_reverse(self) -> (b: bool)
        ensures
            b == self.reverse(),
    {
        match self {
            Kind::FallibleIso | Kind::Prism | Kind::Iso => true,
            _ => false,
        }
    }

    #[verifier::when_used_as_spec(total_reverse)]
    pub fn has_total_reverse(self) -> (b: bool)
        ensures
            b == self.total_reverse(),
    {
        match self {
            Kind::Prism | Kind::Iso => true,
            _ => false,
        }
    }

    /// The kind of the composition of an optic of this kind with one of the other.
    #[verifier::when_used_as_spec(composed_with)]
    pub fn compose(self, other: Kind) -> (r: Kind)
        ensures
            r == self.composed_with(other),
            r.total_read() == (self.total_read() && other.total_read()),
            r.write() == (self.write() && other.write()),
            r.reverse() == (self.reverse() && other.reverse()),
            r.total_reverse() == (self.total_reverse() && other.total_reverse()),
    {
        let total_read = self.has_total_read() && other.has_total_read();
        let write = self.has_write() && other.has_write();
        let reverse = self.has_reverse() && other.has_reverse();
        let total_reverse = self.has_total_reverse() && other.has_total_reverse();
        if !write {
            if total_read {
                Kind::Getter
            } else {
                Kind::PartialGetter
            }
        } else if !reverse {
            if total_read {
                Kind::Lens
            } else {
                Kind::PartialLens
            }
        } else if !total_reverse {
            Kind::FallibleIso
        } else if total_read {
            Kind::Iso
        } else {
            Kind::Prism
        }
    }
}

/// A kind is its capabilities: two kinds that can do the same are the same kind.
pub proof fn kind_is_its_capabilities(k1: Kind, k2: Kind)
    requires
        k1.total_read() == k2.total_read(),
        k1.write() == k2.write(),
        k1.reverse() == k2.reverse(),
        k1.total_reverse() == k2.total_reverse(),
    ensures
        k1 == k2,
{
}

/// A composition can do exactly what both of its stages can, so it is never stronger than
/// either of them.
pub proof fn composition_keeps_what_both_can_do(k1: Kind, k2: Kind)
    ensures
        k1.composed_with(k2).total_read() == (k1.total_read() && k2.total_read()),
        k1.composed_with(k2).write() == (k1.write() && k2.write()),
        k1.composed_with(k2).reverse() == (k1.reverse() && k2.reverse()),
        k1.composed_with(k2).total_reverse() == (k1.total_reverse() && k2.total_reverse()),
{
}

/// The kind of a composition of three optics does not depend on how they are grouped.
pub proof fn kind_composition_is_associative(k1: Kind, k2: Kind, k3: Kind)
    ensures
        k1.composed_with(k2).composed_with(k3) == k1.composed_with(k2.composed_with(k3)),
{
    composition_keeps_what_both_can_do(k1, k2);
    composition_keeps_what_both_can_do(k2, k3);
    composition_keeps_what_both_can_do(k1.composed_with(k2), k3);
    composition_keeps_what_both_can_do(k1, k2.composed_with(k3));
    kind_is_its_capabilities(
        k1.composed_with(k2).composed_with(k3),
        k1.composed_with(k2.composed_with(k3)),
    );
}

/// Composing an optic with one of its own kind gives that kind again.
pub proof fn kind_composition_is_idempotent(k: Kind)
    ensures
        k.composed_with(k) == k,
{
}

} // verus!
