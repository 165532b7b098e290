//! The type definitions that a model refers to.
use crate::model::{Struct, StructView};
use crate::types::TypeDef;
use vstd::prelude::*;

verus! {

impl StructView {
    /// The definitions that each field's type refers to, one field after
    /// the other.
    pub open spec fn dependencies_of_fields(self) -> Seq<Seq<TypeDef>> {
        Seq::new(self.fields.len(), |i: int| self.fields[i].1.kind.dependencies())
    }

    /// The dependencies of each anonymous member, one member after the
    /// other.
    pub open spec fn dependencies_of_members(self) -> Seq<Seq<TypeDef>>
        decreases self, 0nat,
    {
        Seq::new(
            self.nested.len(),
            |i: int|
                if 0 <= i < self.nested.len() {
                    self.nested[i].1.dependencies()
                } else {
                    arbitrary()
                },
        )
    }

    /// The definitions that the type refers to: those of its fields in
    /// field order, then those of its anonymous members in member order.
    /// A definition stands once for every reference to it.
    pub open spec fn dependencies(self) -> Seq<TypeDef>
        decreases self, 1nat,
    {
        self.dependencies_of_fields().flatten() + self.dependencies_of_members().flatten()
    }
}

impl Struct {
    /// Collects the definitions that the type refers to, in its fields and
    /// in the anonymous types inside it.
    pub fn dependencies(&self) -> (found: Vec<TypeDef>)
        ensures
            found@ == self@.dependencies(),
        decreases self,
    {
        let ghost of_fields = self@.dependencies_of_fields();
        let ghost of_members = self@.dependencies_of_members();
        let mut found: Vec<TypeDef> = Vec::new();
        let mut i: usize = 0;
        assert(of_fields.take(0) =~= Seq::<Seq<TypeDef>>::empty());
        while i < self.fields.len()
            invariant
                i <= self.fields.len(),
                of_fields == self@.dependencies_of_fields(),
                found@ == of_fields.take(i as int).flatten(),
            decreases self.fields.len() - i,
        {
            let mut more = self.fields[i].1.kind.dependencies();
            proof {
                assert(of_fields[i as int] == more@);
                assert(of_fields.take(i + 1) =~= of_fields.take(i as int).push(more@));
                of_fields.take(i as int).lemma_flatten_push(more@);
            }
            found.append(&mut more);
            i = i + 1;
        }
        assert(of_fields.take(self.fields.len() as int) =~= of_fields);

        let mut k: usize = 0;
        assert(of_members.take(0) =~= Seq::<Seq<TypeDef>>::empty());
        assert(found@ =~= of_fields.flatten() + of_members.take(0).flatten());
        while k < self.nested.len()
            invariant
                k <= self.nested.len(),
                of_fields == self@.dependencies_of_fields(),
                of_members == self@.dependencies_of_members(),
                found@ == of_fields.flatten() + of_members.take(k as int).flatten(),
            decreases self.nested.len() - k,
        {
            let mut more = self.nested[k].1.dependencies();
            proof {
                assert(self@.nested[k as int].1 == self.nested@[k as int].1@);
                assert(of_members[k as int] == more@);
                assert(of_members.take(k + 1) =~= of_members.take(k as int).push(more@));
                of_members.take(k as int).lemma_flatten_push(more@);
            }
            found.append(&mut more);
            k = k + 1;
        }
        assert(of_members.take(self.nested.len() as int) =~= of_members);
        found
    }
}

} // verus!
