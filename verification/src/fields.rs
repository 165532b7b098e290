//! The storage fields of a model and the identifiers they are given: each
//! field gets the identifier its name transliterates to, or, where an
//! earlier field has that one, the first free numbered form of it.
use crate::text::{decimal, lemma_decimal_injective, lemma_decimal_len, push_decimal};
use crate::types::{Type, TypeView};
use vstd::prelude::*;
use vstd::set_lib::lemma_len_subset;
use vstd::string::*;

verus! {

/// What a list of fields stands for: each identifier with its type.
pub open spec fn field_views(fields: Seq<(String, Type)>) -> Seq<(Seq<char>, TypeView)> {
    Seq::new(fields.len(), |i: int| (fields[i].0@, fields[i].1@))
}

/// The identifiers of the fields, in field order.
pub open spec fn identifiers(fields: Seq<(Seq<char>, TypeView)>) -> Seq<Seq<char>> {
    Seq::new(fields.len(), |i: int| fields[i].0)
}

/// Whether one of the fields has the identifier `id`.
pub open spec fn taken(fields: Seq<(Seq<char>, TypeView)>, id: Seq<char>) -> bool {
    exists|i: int| 0 <= i < fields.len() && #[trigger] fields[i].0 == id
}

/// Whether no two fields share an identifier.
pub open spec fn distinct(fields: Seq<(Seq<char>, TypeView)>) -> bool {
    forall|i: int, j: int|
        0 <= i < j < fields.len() ==> #[trigger] fields[i].0 != #[trigger] fields[j].0
}

/// The `k`-th numbered form of an identifier: the identifier followed by
/// the decimal numeral of `k`.
pub open spec fn numbered(base: Seq<char>, k: nat) -> Seq<char> {
    base + decimal(k)
}

/// The first numbered form of `base`, counting from `k`, that no field
/// has. The search looks at `budget` forms beyond the first; with a
/// budget of one per field it always ends at a free one
/// (`lemma_first_free`).
pub open spec fn first_free(
    fields: Seq<(Seq<char>, TypeView)>,
    base: Seq<char>,
    k: nat,
    budget: nat,
) -> Seq<char>
    decreases budget,
{
    if budget == 0 || !taken(fields, numbered(base, k)) {
        numbered(base, k)
    } else {
        first_free(fields, base, k + 1, (budget - 1) as nat)
    }
}

/// The identifier given to a new field whose name transliterates to
/// `base`: `base` itself if no field has it yet, otherwise `base2`,
/// `base3`, ... whichever comes first that no field has.
pub open spec fn unique_name(fields: Seq<(Seq<char>, TypeView)>, base: Seq<char>) -> Seq<char> {
    if !taken(fields, base) {
        base
    } else {
        first_free(fields, base, 2, fields.len())
    }
}

/// `base` and its numbered forms from 2 up to, not including, `k`.
pub open spec fn forms_below(base: Seq<char>, k: nat) -> Set<Seq<char>>
    decreases k,
{
    if k <= 2 {
        set![base]
    } else {
        forms_below(base, (k - 1) as nat).insert(numbered(base, (k - 1) as nat))
    }
}

/// Numbered forms with different numbers differ, and differ from the
/// identifier they number.
pub proof fn lemma_numbered_injective(base: Seq<char>, a: nat, b: nat)
    ensures
        numbered(base, a) != base,
        numbered(base, a) == numbered(base, b) ==> a == b,
{
    lemma_decimal_len(a);
    if numbered(base, a) == numbered(base, b) {
        assert(numbered(base, a).subrange(base.len() as int, numbered(base, a).len() as int)
            == decimal(a));
        assert(numbered(base, b).subrange(base.len() as int, numbered(base, b).len() as int)
            == decimal(b));
        lemma_decimal_injective(a, b);
    }
}

proof fn lemma_forms_below(base: Seq<char>, k: nat)
    requires
        k >= 2,
    ensures
        forms_below(base, k).finite(),
        forms_below(base, k).len() == k - 1,
        forall|id: Seq<char>| #[trigger]
            forms_below(base, k).contains(id) <==> (id == base || exists|j: nat|
                2 <= j < k && id == #[trigger] numbered(base, j)),
    decreases k,
{
    if k > 2 {
        let m = (k - 1) as nat;
        lemma_forms_below(base, m);
        let new = numbered(base, m);
        assert(!forms_below(base, m).contains(new)) by {
            lemma_numbered_injective(base, m, m);
            if forms_below(base, m).contains(new) {
                let j = choose|j: nat| 2 <= j < m && new == #[trigger] numbered(base, j);
                lemma_numbered_injective(base, m, j);
            }
        }
        assert forall|id: Seq<char>| #[trigger]
            forms_below(base, k).contains(id) <==> (id == base || exists|j: nat|
                2 <= j < k && id == #[trigger] numbered(base, j)) by {
            if forms_below(base, k).contains(id) {
                if id == new {
                    assert(2 <= m < k && id == numbered(base, m));
                } else {
                    assert(forms_below(base, m).contains(id));
                    if id != base {
                        let j = choose|j: nat| 2 <= j < m && id == #[trigger] numbered(base, j);
                        assert(2 <= j < k && id == numbered(base, j));
                    }
                }
            }
            if id != base && exists|j: nat| 2 <= j < k && id == #[trigger] numbered(base, j) {
                let j = choose|j: nat| 2 <= j < k && id == #[trigger] numbered(base, j);
                if j < m {
                    assert(forms_below(base, m).contains(id));
                }
            }
        }
    }
}

/// Where `base` and its forms numbered 2 up to, not including, `k` are all
/// taken, there are at least `k - 1` fields.
pub proof fn lemma_forms_taken(fields: Seq<(Seq<char>, TypeView)>, base: Seq<char>, k: nat)
    requires
        k >= 2,
        taken(fields, base),
        forall|j: nat| 2 <= j < k ==> taken(fields, #[trigger] numbered(base, j)),
    ensures
        k - 1 <= fields.len(),
{
    let ids = identifiers(fields);
    lemma_forms_below(base, k);
    ids.lemma_cardinality_of_set();
    assert forall|id: Seq<char>| forms_below(base, k).contains(id) implies ids.to_set().contains(
        id,
    ) by {
        assert(taken(fields, id));
        let i = choose|i: int| 0 <= i < fields.len() && #[trigger] fields[i].0 == id;
        assert(ids[i] == id);
    }
    lemma_len_subset(forms_below(base, k), ids.to_set());
}

/// The search for a free numbered form ends at one: where `base` and its
/// forms below `k` are taken and one unit of budget is left for each
/// field that they do not account for, the form found is free, and every
/// form before it is taken.
pub proof fn lemma_first_free(
    fields: Seq<(Seq<char>, TypeView)>,
    base: Seq<char>,
    k: nat,
    budget: nat,
)
    requires
        k >= 2,
        taken(fields, base),
        forall|j: nat| 2 <= j < k ==> taken(fields, #[trigger] numbered(base, j)),
        budget + k == fields.len() + 2,
    ensures
        !taken(fields, first_free(fields, base, k, budget)),
        exists|n: nat|
            k <= n && first_free(fields, base, k, budget) == #[trigger] numbered(base, n)
                && forall|j: nat| 2 <= j < n ==> taken(fields, #[trigger] numbered(base, j)),
    decreases budget,
{
    lemma_forms_taken(fields, base, k);
    if taken(fields, numbered(base, k)) {
        lemma_forms_taken(fields, base, k + 1);
        lemma_first_free(fields, base, k + 1, (budget - 1) as nat);
    } else {
        assert(first_free(fields, base, k, budget) == numbered(base, k));
    }
}

/// The identifier given to a new field is one that no field has.
pub proof fn lemma_unique_name_free(fields: Seq<(Seq<char>, TypeView)>, base: Seq<char>)
    ensures
        !taken(fields, unique_name(fields, base)),
{
    if taken(fields, base) {
        lemma_first_free(fields, base, 2, fields.len());
    }
}

/// Tells whether one of the fields has the identifier `id`.
pub fn is_taken(fields: &Vec<(String, Type)>, id: &String) -> (r: bool)
    ensures
        r == taken(field_views(fields@), id@),
{
    let mut i: usize = 0;
    while i < fields.len()
        invariant
            i <= fields.len(),
            forall|j: int| 0 <= j < i ==> field_views(fields@)[j].0 != id@,
        decreases fields.len() - i,
    {
        if fields[i].0 == *id {
            assert(field_views(fields@)[i as int].0 == id@);
            return true;
        }
        i = i + 1;
    }
    false
}

/// Gives a new field its identifier: `base` if it is free, else its first
/// free numbered form, counting from 2.
pub fn assign_name(fields: &Vec<(String, Type)>, base: String) -> (id: String)
    ensures
        id@ == unique_name(field_views(fields@), base@),
        !taken(field_views(fields@), id@),
{
    proof {
        lemma_unique_name_free(field_views(fields@), base@);
    }
    if !is_taken(fields, &base) {
        return base;
    }
    let ghost all = field_views(fields@);
    let mut k: u128 = 2;
    proof {
        lemma_forms_taken(all, base@, 2);
    }
    loop
        invariant
            all == field_views(fields@),
            all.len() == fields.len(),
            2 <= k <= all.len() + 1,
            taken(all, base@),
            forall|j: nat| 2 <= j < k ==> taken(all, #[trigger] numbered(base@, j)),
            unique_name(all, base@) == first_free(all, base@, k as nat, (all.len() + 2 - k) as nat),
        decreases all.len() + 1 - k,
    {
        let mut candidate = base.clone();
        push_decimal(&mut candidate, k);
        assert(candidate@ == numbered(base@, k as nat));
        if !is_taken(fields, &candidate) {
            return candidate;
        }
        proof {
            lemma_forms_taken(all, base@, (k + 1) as nat);
        }
        k = k + 1;
    }
}

} // verus!
