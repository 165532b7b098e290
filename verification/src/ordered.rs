//! Entries kept in the order of their names, one entry to a name: the
//! arrangement in which a model holds its anonymous members.
use crate::text::{
    lemma_name_lt_irreflexive, lemma_name_lt_total, lemma_name_lt_transitive, name_lt,
};
use vstd::prelude::*;

verus! {

/// Whether the entries stand in strictly ascending order of their names.
pub open spec fn sorted<V>(entries: Seq<(Seq<char>, V)>) -> bool {
    forall|i: int, j: int|
        0 <= i < j < entries.len() ==> name_lt(#[trigger] entries[i].0, #[trigger] entries[j].0)
}

/// How many leading entries have a name that comes before `key`. Among
/// sorted entries this is the place where `key` stands or would stand.
pub open spec fn lower_bound<V>(entries: Seq<(Seq<char>, V)>, key: Seq<char>) -> nat
    decreases entries.len(),
{
    if entries.len() == 0 || !name_lt(entries[0].0, key) {
        0
    } else {
        1 + lower_bound(entries.drop_first(), key)
    }
}

/// Whether an entry is filed under `key`.
pub open spec fn has_key<V>(entries: Seq<(Seq<char>, V)>, key: Seq<char>) -> bool {
    let at = lower_bound(entries, key) as int;
    at < entries.len() && entries[at].0 == key
}

/// The entries after `value` is filed under `key`: in place of the entry
/// that had the name, or else at the name's place in the order.
pub open spec fn insert<V>(entries: Seq<(Seq<char>, V)>, key: Seq<char>, value: V) -> Seq<
    (Seq<char>, V),
> {
    let at = lower_bound(entries, key) as int;
    if has_key(entries, key) {
        entries.update(at, (key, value))
    } else {
        entries.insert(at, (key, value))
    }
}

/// What `lower_bound` counts: exactly the entries before it come before
/// `key`, and the entry at it does not.
pub proof fn lemma_lower_bound<V>(entries: Seq<(Seq<char>, V)>, key: Seq<char>)
    ensures
        lower_bound(entries, key) <= entries.len(),
        forall|i: int|
            0 <= i < lower_bound(entries, key) ==> name_lt(#[trigger] entries[i].0, key),
        lower_bound(entries, key) < entries.len() ==> !name_lt(
            entries[lower_bound(entries, key) as int].0,
            key,
        ),
    decreases entries.len(),
{
    if entries.len() == 0 || !name_lt(entries[0].0, key) {
    } else {
        let rest = entries.drop_first();
        lemma_lower_bound(rest, key);
        assert forall|i: int| 0 <= i < lower_bound(entries, key) implies name_lt(
            #[trigger] entries[i].0,
            key,
        ) by {
            if i > 0 {
                assert(entries[i] == rest[i - 1]);
            }
        }
        if lower_bound(entries, key) < entries.len() {
            assert(entries[lower_bound(entries, key) as int] == rest[lower_bound(rest, key) as int]);
        }
    }
}

/// Among sorted entries a name is found exactly where an entry has it.
pub proof fn lemma_has_key<V>(entries: Seq<(Seq<char>, V)>, key: Seq<char>)
    requires
        sorted(entries),
    ensures
        has_key(entries, key) <==> exists|i: int|
            0 <= i < entries.len() && #[trigger] entries[i].0 == key,
{
    lemma_lower_bound(entries, key);
    let at = lower_bound(entries, key) as int;
    if !has_key(entries, key) {
        assert forall|i: int| 0 <= i < entries.len() implies #[trigger] entries[i].0 != key by {
            if entries[i].0 == key {
                lemma_name_lt_irreflexive(key);
                if i < at {
                    assert(name_lt(entries[i].0, key));
                } else if i > at {
                    assert(name_lt(entries[at].0, entries[i].0));
                }
            }
        }
    }
}

/// Filing an entry keeps the order, keeps every other entry, and leaves the
/// new entry findable under its name.
pub proof fn lemma_insert<V>(entries: Seq<(Seq<char>, V)>, key: Seq<char>, value: V)
    requires
        sorted(entries),
    ensures
        sorted(insert(entries, key, value)),
        has_key(insert(entries, key, value), key),
        insert(entries, key, value)[lower_bound(entries, key) as int] == (key, value),
        insert(entries, key, value).len() == if has_key(entries, key) {
            entries.len()
        } else {
            entries.len() + 1
        },
{
    lemma_lower_bound(entries, key);
    let at = lower_bound(entries, key) as int;
    let after = insert(entries, key, value);
    if has_key(entries, key) {
        assert forall|i: int, j: int| 0 <= i < j < after.len() implies name_lt(
            #[trigger] after[i].0,
            #[trigger] after[j].0,
        ) by {
            assert(after[i].0 == entries[i].0);
            assert(after[j].0 == entries[j].0);
        }
    } else {
        assert forall|i: int, j: int| 0 <= i < j < after.len() implies name_lt(
            #[trigger] after[i].0,
            #[trigger] after[j].0,
        ) by {
            if at < entries.len() {
                lemma_name_lt_total(entries[at].0, key);
            }
            if j < at {
                assert(after[i] == entries[i] && after[j] == entries[j]);
            } else if j == at {
                assert(after[i] == entries[i]);
            } else if i < at {
                assert(after[i] == entries[i] && after[j] == entries[j - 1]);
                assert(name_lt(entries[i].0, key));
                if j - 1 > at {
                    assert(name_lt(entries[at].0, entries[j - 1].0));
                    lemma_name_lt_transitive(key, entries[at].0, entries[j - 1].0);
                }
                lemma_name_lt_transitive(entries[i].0, key, entries[j - 1].0);
            } else if i == at {
                assert(after[j] == entries[j - 1]);
                if j - 1 > at {
                    assert(name_lt(entries[at].0, entries[j - 1].0));
                    lemma_name_lt_transitive(key, entries[at].0, entries[j - 1].0);
                }
            } else {
                assert(after[i] == entries[i - 1] && after[j] == entries[j - 1]);
            }
        }
    }
    lemma_has_key(after, key);
    assert(after[at].0 == key);
}

/// After an entry is filed, every entry is the new one or one that was
/// there before.
pub proof fn lemma_insert_entries<V>(entries: Seq<(Seq<char>, V)>, key: Seq<char>, value: V)
    ensures
        forall|i: int|
            0 <= i < insert(entries, key, value).len() ==> (#[trigger] insert(
                entries,
                key,
                value,
            )[i]) == (key, value) || exists|j: int|
                0 <= j < entries.len() && insert(entries, key, value)[i] == #[trigger] entries[j],
{
    lemma_lower_bound(entries, key);
    let at = lower_bound(entries, key) as int;
    let after = insert(entries, key, value);
    assert forall|i: int| 0 <= i < after.len() implies (#[trigger] after[i]) == (key, value)
        || exists|j: int| 0 <= j < entries.len() && after[i] == #[trigger] entries[j] by {
        if has_key(entries, key) {
            if i != at {
                assert(after[i] == entries[i]);
            }
        } else {
            if i < at {
                assert(after[i] == entries[i]);
            } else if i > at {
                assert(after[i] == entries[i - 1]);
            }
        }
    }
}

/// Filing an entry leaves every name findable that was findable before.
pub proof fn lemma_insert_keeps_keys<V>(
    entries: Seq<(Seq<char>, V)>,
    key: Seq<char>,
    value: V,
    other: Seq<char>,
)
    requires
        sorted(entries),
        has_key(entries, other),
    ensures
        has_key(insert(entries, key, value), other),
{
    let after = insert(entries, key, value);
    let at = lower_bound(entries, key) as int;
    lemma_lower_bound(entries, key);
    lemma_insert(entries, key, value);
    lemma_has_key(entries, other);
    lemma_has_key(after, other);
    let j = choose|j: int| 0 <= j < entries.len() && #[trigger] entries[j].0 == other;
    if has_key(entries, key) {
        assert(after[j].0 == other);
    } else if j < at {
        assert(after[j].0 == other);
    } else {
        assert(after[j + 1].0 == other);
    }
}

} // verus!
