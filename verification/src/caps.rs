//! The access model: a closed, fixed domain of seven filesystem capabilities
//! and an unordered set over that domain with the usual set algebra.

use vstd::prelude::*;

verus! {

/// One discrete filesystem operation category, independently grantable per
/// path. The domain is fixed at build time; no other capability is
/// representable.
#[derive(Clone, Copy, Debug, PartialEq, Eq, Structural)]
pub enum Capability {
    ReadFile,
    ReadDir,
    Execute,
    WriteFile,
    RemoveFile,
    RemoveDir,
    Truncate,
}

/// An unordered set of capabilities. Equality is set equality (fieldwise,
/// since the domain is fixed).
#[derive(Clone, Copy, Debug, PartialEq, Eq, Structural)]
pub struct CapabilitySet {
    pub read_file: bool,
    pub read_dir: bool,
    pub execute: bool,
    pub write_file: bool,
    pub remove_file: bool,
    pub remove_dir: bool,
    pub truncate: bool,
}

impl View for CapabilitySet {
    type V = Set<Capability>;

    open spec fn view(&self) -> Set<Capability> {
        Set::new(|c: Capability| self.has(c))
    }
}

impl CapabilitySet {
    /// Membership of one capability, as a spec-level predicate.
    pub open spec fn has(self, c: Capability) -> bool {
        match c {
            Capability::ReadFile => self.read_file,
            Capability::ReadDir => self.read_dir,
            Capability::Execute => self.execute,
            Capability::WriteFile => self.write_file,
            Capability::RemoveFile => self.remove_file,
            Capability::RemoveDir => self.remove_dir,
            Capability::Truncate => self.truncate,
        }
    }

    pub open spec fn empty_spec() -> CapabilitySet {
        CapabilitySet {
            read_file: false,
            read_dir: false,
            execute: false,
            write_file: false,
            remove_file: false,
            remove_dir: false,
            truncate: false,
        }
    }

    /// The full seven-capability domain.
    pub open spec fn full_spec() -> CapabilitySet {
        CapabilitySet {
            read_file: true,
            read_dir: true,
            execute: true,
            write_file: true,
            remove_file: true,
            remove_dir: true,
            truncate: true,
        }
    }

    pub open spec fn union_spec(self, other: CapabilitySet) -> CapabilitySet {
        CapabilitySet {
            read_file: self.read_file || other.read_file,
            read_dir: self.read_dir || other.read_dir,
            execute: self.execute || other.execute,
            write_file: self.write_file || other.write_file,
            remove_file: self.remove_file || other.remove_file,
            remove_dir: self.remove_dir || other.remove_dir,
            truncate: self.truncate || other.truncate,
        }
    }

    pub open spec fn intersect_spec(self, other: CapabilitySet) -> CapabilitySet {
        CapabilitySet {
            read_file: self.read_file && other.read_file,
            read_dir: self.read_dir && other.read_dir,
            execute: self.execute && other.execute,
            write_file: self.write_file && other.write_file,
            remove_file: self.remove_file && other.remove_file,
            remove_dir: self.remove_dir && other.remove_dir,
            truncate: self.truncate && other.truncate,
        }
    }

    pub open spec fn difference_spec(self, other: CapabilitySet) -> CapabilitySet {
        CapabilitySet {
            read_file: self.read_file && !other.read_file,
            read_dir: self.read_dir && !other.read_dir,
            execute: self.execute && !other.execute,
            write_file: self.write_file && !other.write_file,
            remove_file: self.remove_file && !other.remove_file,
            remove_dir: self.remove_dir && !other.remove_dir,
            truncate: self.truncate && !other.truncate,
        }
    }

    pub open spec fn subset_spec(self, other: CapabilitySet) -> bool {
        forall|c: Capability| self.has(c) ==> other.has(c)
    }

    pub open spec fn is_empty_spec(self) -> bool {
        self == Self::empty_spec()
    }

    /// The set with no capability.
    pub fn empty() -> (r: CapabilitySet)
        ensures
            r == Self::empty_spec(),
    {
        CapabilitySet {
            read_file: false,
            read_dir: false,
            execute: false,
            write_file: false,
            remove_file: false,
            remove_dir: false,
            truncate: false,
        }
    }

    /// The set with every capability of the domain.
    pub fn full() -> (r: CapabilitySet)
        ensures
            r == Self::full_spec(),
    {
        CapabilitySet {
            read_file: true,
            read_dir: true,
            execute: true,
            write_file: true,
            remove_file: true,
            remove_dir: true,
            truncate: true,
        }
    }

    pub fn contains(&self, c: Capability) -> (r: bool)
        ensures
            r == self.has(c),
    {
        match c {
            Capability::ReadFile => self.read_file,
            Capability::ReadDir => self.read_dir,
            Capability::Execute => self.execute,
            Capability::WriteFile => self.write_file,
            Capability::RemoveFile => self.remove_file,
            Capability::RemoveDir => self.remove_dir,
            Capability::Truncate => self.truncate,
        }
    }

    pub fn union(&self, other: &CapabilitySet) -> (r: CapabilitySet)
        ensures
            r == self.union_spec(*other),
    {
        CapabilitySet {
            read_file: self.read_file || other.read_file,
            read_dir: self.read_dir || other.read_dir,
            execute: self.execute || other.execute,
            write_file: self.write_file || other.write_file,
            remove_file: self.remove_file || other.remove_file,
            remove_dir: self.remove_dir || other.remove_dir,
            truncate: self.truncate || other.truncate,
        }
    }

    pub fn intersect(&self, other: &CapabilitySet) -> (r: CapabilitySet)
        ensures
            r == self.intersect_spec(*other),
    {
        CapabilitySet {
            read_file: self.read_file && other.read_file,
            read_dir: self.read_dir && other.read_dir,
            execute: self.execute && other.execute,
            write_file: self.write_file && other.write_file,
            remove_file: self.remove_file && other.remove_file,
            remove_dir: self.remove_dir && other.remove_dir,
            truncate: self.truncate && other.truncate,
        }
    }

    pub fn difference(&self, other: &CapabilitySet) -> (r: CapabilitySet)
        ensures
            r == self.difference_spec(*other),
    {
        CapabilitySet {
            read_file: self.read_file && !other.read_file,
            read_dir: self.read_dir && !other.read_dir,
            execute: self.execute && !other.execute,
            write_file: self.write_file && !other.write_file,
            remove_file: self.remove_file && !other.remove_file,
            remove_dir: self.remove_dir && !other.remove_dir,
            truncate: self.truncate && !other.truncate,
        }
    }

    pub fn subset_of(&self, other: &CapabilitySet) -> (r: bool)
        ensures
            r == self.subset_spec(*other),
    {
        let r = (!self.read_file || other.read_file) && (!self.read_dir || other.read_dir)
            && (!self.execute || other.execute) && (!self.write_file || other.write_file)
            && (!self.remove_file || other.remove_file) && (!self.remove_dir || other.remove_dir)
            && (!self.truncate || other.truncate);
        proof {
            if r {
                assert forall|c: Capability| self.has(c) implies other.has(c) by {}
            } else {
                assert(!self.subset_spec(*other)) by {
                    if !(!self.read_file || other.read_file) {
                        assert(self.has(Capability::ReadFile) && !other.has(Capability::ReadFile));
                    } else if !(!self.read_dir || other.read_dir) {
                        assert(self.has(Capability::ReadDir) && !other.has(Capability::ReadDir));
                    } else if !(!self.execute || other.execute) {
                        assert(self.has(Capability::Execute) && !other.has(Capability::Execute));
                    } else if !(!self.write_file || other.write_file) {
                        assert(self.has(Capability::WriteFile) && !other.has(
                            Capability::WriteFile,
                        ));
                    } else if !(!self.remove_file || other.remove_file) {
                        assert(self.has(Capability::RemoveFile) && !other.has(
                            Capability::RemoveFile,
                        ));
                    } else if !(!self.remove_dir || other.remove_dir) {
                        assert(self.has(Capability::RemoveDir) && !other.has(
                            Capability::RemoveDir,
                        ));
                    } else {
                        assert(self.has(Capability::Truncate) && !other.has(Capability::Truncate));
                    }
                }
            }
        }
        r
    }

    pub fn is_empty(&self) -> (r: bool)
        ensures
            r == self.is_empty_spec(),
    {
        !self.read_file && !self.read_dir && !self.execute && !self.write_file
            && !self.remove_file && !self.remove_dir && !self.truncate
    }
}

/// The stable, human-readable name of one capability, for diagnostics.
pub open spec fn cap_name(c: Capability) -> Seq<char> {
    match c {
        Capability::ReadFile => "ReadFile"@,
        Capability::ReadDir => "ReadDir"@,
        Capability::Execute => "Execute"@,
        Capability::WriteFile => "WriteFile"@,
        Capability::RemoveFile => "RemoveFile"@,
        Capability::RemoveDir => "RemoveDir"@,
        Capability::Truncate => "Truncate"@,
    }
}

/// The names of a set's members, in the fixed order of the domain.
pub open spec fn names_seq(s: CapabilitySet) -> Seq<Seq<char>> {
    (if s.read_file {
        seq![cap_name(Capability::ReadFile)]
    } else {
        Seq::empty()
    }) + (if s.read_dir {
        seq![cap_name(Capability::ReadDir)]
    } else {
        Seq::empty()
    }) + (if s.execute {
        seq![cap_name(Capability::Execute)]
    } else {
        Seq::empty()
    }) + (if s.write_file {
        seq![cap_name(Capability::WriteFile)]
    } else {
        Seq::empty()
    }) + (if s.remove_file {
        seq![cap_name(Capability::RemoveFile)]
    } else {
        Seq::empty()
    }) + (if s.remove_dir {
        seq![cap_name(Capability::RemoveDir)]
    } else {
        Seq::empty()
    }) + (if s.truncate {
        seq![cap_name(Capability::Truncate)]
    } else {
        Seq::empty()
    })
}

/// The view of a list of names.
pub open spec fn name_views(v: Seq<&'static str>) -> Seq<Seq<char>> {
    v.map_values(|t: &'static str| t@)
}

/// The stable, human-readable name of one capability.
pub fn capability_name(c: Capability) -> (r: &'static str)
    ensures
        r@ == cap_name(c),
{
    match c {
        Capability::ReadFile => "ReadFile",
        Capability::ReadDir => "ReadDir",
        Capability::Execute => "Execute",
        Capability::WriteFile => "WriteFile",
        Capability::RemoveFile => "RemoveFile",
        Capability::RemoveDir => "RemoveDir",
        Capability::Truncate => "Truncate",
    }
}

/// Lists the names of the capabilities in `set`, in the fixed order of the
/// domain.
pub fn access_names(set: &CapabilitySet) -> (r: Vec<&'static str>)
    ensures
        name_views(r@) == names_seq(*set),
{
    let mut v: Vec<&'static str> = Vec::new();
    if set.read_file {
        v.push(capability_name(Capability::ReadFile));
    }
    if set.read_dir {
        v.push(capability_name(Capability::ReadDir));
    }
    if set.execute {
        v.push(capability_name(Capability::Execute));
    }
    if set.write_file {
        v.push(capability_name(Capability::WriteFile));
    }
    if set.remove_file {
        v.push(capability_name(Capability::RemoveFile));
    }
    if set.remove_dir {
        v.push(capability_name(Capability::RemoveDir));
    }
    if set.truncate {
        v.push(capability_name(Capability::Truncate));
    }
    proof {
        assert(name_views(v@) =~= names_seq(*set));
    }
    v
}

/// Union of capability sets is commutative.
pub proof fn lemma_union_commutative(a: CapabilitySet, b: CapabilitySet)
    ensures
        a.union_spec(b) == b.union_spec(a),
{
}

/// Union of capability sets is associative.
pub proof fn lemma_union_associative(a: CapabilitySet, b: CapabilitySet, c: CapabilitySet)
    ensures
        a.union_spec(b).union_spec(c) == a.union_spec(b.union_spec(c)),
{
}

/// Union of capability sets is idempotent.
pub proof fn lemma_union_idempotent(a: CapabilitySet)
    ensures
        a.union_spec(a) == a,
{
}

/// Removing a set from itself leaves nothing.
pub proof fn lemma_difference_self_empty(a: CapabilitySet)
    ensures
        a.difference_spec(a) == CapabilitySet::empty_spec(),
{
}

/// Membership in a `CapabilitySet` agrees with membership in its view, so
/// the fieldwise algebra above is the set algebra of the view.
pub proof fn lemma_view_membership(a: CapabilitySet, c: Capability)
    ensures
        a@.contains(c) == a.has(c),
{
}

/// Equality of capability sets is set equality: two sets are equal exactly
/// when their views hold the same capabilities.
pub proof fn lemma_eq_is_set_eq(a: CapabilitySet, b: CapabilitySet)
    ensures
        (a@ =~= b@) <==> a == b,
{
    if a@ =~= b@ {
        assert forall|c: Capability| a.has(c) == b.has(c) by {
            assert(a@.contains(c) == b@.contains(c));
        }
        assert(a.has(Capability::ReadFile) == b.has(Capability::ReadFile));
        assert(a.has(Capability::ReadDir) == b.has(Capability::ReadDir));
        assert(a.has(Capability::Execute) == b.has(Capability::Execute));
        assert(a.has(Capability::WriteFile) == b.has(Capability::WriteFile));
        assert(a.has(Capability::RemoveFile) == b.has(Capability::RemoveFile));
        assert(a.has(Capability::RemoveDir) == b.has(Capability::RemoveDir));
        assert(a.has(Capability::Truncate) == b.has(Capability::Truncate));
    }
}

} // verus!
