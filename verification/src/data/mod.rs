//! Buff definitions.

pub mod constants;
pub mod defaults;
pub mod impls;
pub mod structs;

use crate::text::{lex_le, str_eq, str_le};
use constants::REINFORCED;
pub use defaults::default_definitions;
use structs::{BuffData, DefData};
use vstd::prelude::*;

verus! {

/// Buff definition kind.
#[derive(Debug)]
pub enum DefinitionKind {
    Food(BuffData),
    Util(BuffData),
    Ignore,
}

impl DefinitionKind {
    /// The name of the definition, empty for ignored buffs.
    pub open spec fn spec_name(self) -> Seq<char> {
        match self {
            DefinitionKind::Food(data) => data.name@,
            DefinitionKind::Util(data) => data.name@,
            DefinitionKind::Ignore => Seq::empty(),
        }
    }

    /// Returns the name of the definition, empty for ignored buffs.
    pub fn name(&self) -> (r: &str)
        ensures
            r@ == self.spec_name(),
    {
        match self {
            DefinitionKind::Food(data) => data.name.as_str(),
            DefinitionKind::Util(data) => data.name.as_str(),
            DefinitionKind::Ignore => {
                proof {
                    reveal_strlit("");
                }
                ""
            },
        }
    }
}

/// Buff definitions entry.
#[derive(Debug)]
pub struct DefinitionEntry {
    pub id: u32,
    pub def: DefinitionKind,
}

impl DefinitionEntry {
    /// Creates a new definitions entry.
    pub fn new(id: u32, def: DefinitionKind) -> (r: Self)
        ensures
            r == (DefinitionEntry { id, def }),
    {
        Self { id, def }
    }

    /// Creates a new definitions entry for a food buff.
    pub fn new_food(data: BuffData) -> (r: Self)
        ensures
            r == food_entry(data),
    {
        Self::new(data.id, DefinitionKind::Food(data))
    }

    /// Creates a new definitions entry for an utility buff.
    pub fn new_util(data: BuffData) -> (r: Self)
        ensures
            r == util_entry(data),
    {
        Self::new(data.id, DefinitionKind::Util(data))
    }
}

/// The definitions entry for a food buff.
pub open spec fn food_entry(data: BuffData) -> DefinitionEntry {
    DefinitionEntry { id: data.id, def: DefinitionKind::Food(data) }
}

/// The definitions entry for an utility buff.
pub open spec fn util_entry(data: BuffData) -> DefinitionEntry {
    DefinitionEntry { id: data.id, def: DefinitionKind::Util(data) }
}

/// The definitions entry for an ignored buff.
pub open spec fn ignore_entry(id: u32) -> DefinitionEntry {
    DefinitionEntry { id, def: DefinitionKind::Ignore }
}

/// The name an entry is sorted by.
pub open spec fn entry_name(entry: DefinitionEntry) -> Seq<char> {
    entry.def.spec_name()
}

/// Whether the entry names of `s` are in ascending order.
pub open spec fn sorted_by_name(s: Seq<DefinitionEntry>) -> bool {
    forall|i: int, j: int| 0 <= i < j < s.len() ==> lex_le(#[trigger] entry_name(s[i]), #[trigger] entry_name(s[j]))
}

/// Whether no two entries of `s` share an id.
pub open spec fn ids_unique(s: Seq<DefinitionEntry>) -> bool {
    forall|i: int, j: int| 0 <= i < s.len() && 0 <= j < s.len() && i != j ==> #[trigger] s[i].id != #[trigger] s[j].id
}

/// The definition of the first entry with the given id.
pub open spec fn definition_of(s: Seq<DefinitionEntry>, id: u32) -> Option<DefinitionKind>
    decreases s.len(),
{
    if s.len() == 0 {
        None
    } else if s[0].id == id {
        Some(s[0].def)
    } else {
        definition_of(s.drop_first(), id)
    }
}

/// The entries after updating the entry with the id of `entry`, or appending `entry` if there is none.
pub open spec fn upsert(s: Seq<DefinitionEntry>, entry: DefinitionEntry) -> Seq<DefinitionEntry> {
    if exists|i: int| 0 <= i < s.len() && s[i].id == entry.id {
        let i = choose|i: int| 0 <= i < s.len() && s[i].id == entry.id;
        s.update(i, entry)
    } else {
        s.push(entry)
    }
}

/// The entries after upserting all given entries in order.
pub open spec fn upsert_all(s: Seq<DefinitionEntry>, entries: Seq<DefinitionEntry>) -> Seq<DefinitionEntry>
    decreases entries.len(),
{
    if entries.len() == 0 {
        s
    } else {
        upsert(upsert_all(s, entries.drop_last()), entries.last())
    }
}

/// Inserts `entry` into entries sorted by name, after all entries with a name not greater than its name.
pub open spec fn insert_by_name(sorted: Seq<DefinitionEntry>, entry: DefinitionEntry) -> Seq<DefinitionEntry>
    decreases sorted.len(),
{
    if sorted.len() == 0 {
        seq![entry]
    } else if !lex_le(entry_name(sorted[0]), entry_name(entry)) {
        seq![entry] + sorted
    } else {
        seq![sorted[0]] + insert_by_name(sorted.drop_first(), entry)
    }
}

/// Stable sort of entries by name.
///
/// Entries are inserted in order, each after all entries with a name not greater than its own,
/// so entries with equal names keep their relative order.
pub open spec fn sort_by_name(s: Seq<DefinitionEntry>) -> Seq<DefinitionEntry>
    decreases s.len(),
{
    if s.len() == 0 {
        s
    } else {
        insert_by_name(sort_by_name(s.drop_last()), s.last())
    }
}

/// The food data of all food entries, in order.
pub open spec fn food_of(s: Seq<DefinitionEntry>) -> Seq<BuffData>
    decreases s.len(),
{
    if s.len() == 0 {
        Seq::empty()
    } else {
        match s.last().def {
            DefinitionKind::Food(data) => food_of(s.drop_last()).push(data),
            _ => food_of(s.drop_last()),
        }
    }
}

/// The utility data of all utility entries, in order.
pub open spec fn util_of(s: Seq<DefinitionEntry>) -> Seq<BuffData>
    decreases s.len(),
{
    if s.len() == 0 {
        Seq::empty()
    } else {
        match s.last().def {
            DefinitionKind::Util(data) => util_of(s.drop_last()).push(data),
            _ => util_of(s.drop_last()),
        }
    }
}



/// The definitions entries for food buffs.
pub open spec fn food_entries(food: Seq<BuffData>) -> Seq<DefinitionEntry> {
    food.map_values(|data: BuffData| food_entry(data))
}

/// The definitions entries for utility buffs.
pub open spec fn util_entries(util: Seq<BuffData>) -> Seq<DefinitionEntry> {
    util.map_values(|data: BuffData| util_entry(data))
}

/// The definitions entries for ignored buffs.
pub open spec fn ignore_entries(ids: Seq<u32>) -> Seq<DefinitionEntry> {
    ids.map_values(|id: u32| ignore_entry(id))
}

/// The definitions after adding food, utility and ignored buffs.
///
/// Entries are upserted in order (food, utility, ignored) and sorted by name afterwards.
pub open spec fn with_added(s: Seq<DefinitionEntry>, food: Seq<BuffData>, util: Seq<BuffData>, ignored: Seq<u32>) -> Seq<DefinitionEntry> {
    sort_by_name(upsert_all(upsert_all(upsert_all(s, food_entries(food)), util_entries(util)), ignore_entries(ignored)))
}

/// Inserting by name adds exactly the inserted entry.
pub proof fn lemma_insert_by_name_contents(sorted: Seq<DefinitionEntry>, entry: DefinitionEntry)
    ensures
        insert_by_name(sorted, entry).len() == sorted.len() + 1,
        insert_by_name(sorted, entry).to_multiset() == sorted.to_multiset().insert(entry),
        forall|x: DefinitionEntry| #[trigger] insert_by_name(sorted, entry).contains(x) <==> (sorted.contains(x) || x == entry),
    decreases sorted.len(),
{
    broadcast use vstd::seq_lib::group_to_multiset_ensures;
    let r = insert_by_name(sorted, entry);
    if sorted.len() == 0 {
        assert(r == seq![entry]);
        assert(seq![entry] == Seq::<DefinitionEntry>::empty().push(entry));
        assert(r.to_multiset() =~= sorted.to_multiset().insert(entry));
        assert forall|x: DefinitionEntry| r.contains(x) <==> (sorted.contains(x) || x == entry) by {
            if x == entry { assert(r[0] == x); }
        }
    } else if !lex_le(entry_name(sorted[0]), entry_name(entry)) {
        assert(r == seq![entry] + sorted);
        vstd::seq_lib::lemma_multiset_commutative(seq![entry], sorted);
        assert(seq![entry] == Seq::<DefinitionEntry>::empty().push(entry));
        assert(r.to_multiset() =~= sorted.to_multiset().insert(entry));
        assert forall|x: DefinitionEntry| r.contains(x) <==> (sorted.contains(x) || x == entry) by {
            if r.contains(x) {
                let i = choose|i: int| 0 <= i < r.len() && r[i] == x;
                if i > 0 { assert(sorted[i - 1] == x); }
            }
            if sorted.contains(x) {
                let i = choose|i: int| 0 <= i < sorted.len() && sorted[i] == x;
                assert(r[i + 1] == x);
            }
            if x == entry { assert(r[0] == x); }
        }
    } else {
        let rest = sorted.drop_first();
        lemma_insert_by_name_contents(rest, entry);
        let tail = insert_by_name(rest, entry);
        assert(r == seq![sorted[0]] + tail);
        vstd::seq_lib::lemma_multiset_commutative(seq![sorted[0]], tail);
        vstd::seq_lib::lemma_multiset_commutative(seq![sorted[0]], rest);
        assert(sorted == seq![sorted[0]] + rest);
        assert(r.to_multiset() =~= sorted.to_multiset().insert(entry));
        assert forall|x: DefinitionEntry| r.contains(x) <==> (sorted.contains(x) || x == entry) by {
            if r.contains(x) {
                let i = choose|i: int| 0 <= i < r.len() && r[i] == x;
                if i > 0 { assert(tail[i - 1] == x); assert(tail.contains(x)); if rest.contains(x) { let j = choose|j: int| 0 <= j < rest.len() && rest[j] == x; assert(sorted[j + 1] == x); } }
                else { assert(sorted[0] == x); }
            }
            if sorted.contains(x) {
                let i = choose|i: int| 0 <= i < sorted.len() && sorted[i] == x;
                if i == 0 { assert(r[0] == x); } else { assert(rest[i - 1] == x); assert(tail.contains(x)); let j = choose|j: int| 0 <= j < tail.len() && tail[j] == x; assert(r[j + 1] == x); }
            }
            if x == entry { assert(tail.contains(x)); let j = choose|j: int| 0 <= j < tail.len() && tail[j] == x; assert(r[j + 1] == x); }
        }
    }
}

/// Inserting by name keeps entries sorted by name.
pub proof fn lemma_insert_by_name_sorted(sorted: Seq<DefinitionEntry>, entry: DefinitionEntry)
    requires
        sorted_by_name(sorted),
    ensures
        sorted_by_name(insert_by_name(sorted, entry)),
    decreases sorted.len(),
{
    let r = insert_by_name(sorted, entry);
    if sorted.len() == 0 {
    } else if !lex_le(entry_name(sorted[0]), entry_name(entry)) {
        crate::text::lemma_lex_le_total(entry_name(sorted[0]), entry_name(entry));
        assert forall|i: int, j: int| 0 <= i < j < r.len() implies lex_le(#[trigger] entry_name(r[i]), #[trigger] entry_name(r[j])) by {
            if i == 0 {
                if j > 1 {
                    assert(lex_le(entry_name(sorted[0]), entry_name(sorted[j - 1])));
                    crate::text::lemma_lex_le_transitive(entry_name(entry), entry_name(sorted[0]), entry_name(sorted[j - 1]));
                }
            } else {
                assert(r[i] == sorted[i - 1] && r[j] == sorted[j - 1]);
            }
        }
    } else {
        let rest = sorted.drop_first();
        assert(sorted_by_name(rest)) by {
            assert forall|i: int, j: int| 0 <= i < j < rest.len() implies lex_le(#[trigger] entry_name(rest[i]), #[trigger] entry_name(rest[j])) by {
                assert(rest[i] == sorted[i + 1] && rest[j] == sorted[j + 1]);
            }
        }
        lemma_insert_by_name_sorted(rest, entry);
        lemma_insert_by_name_contents(rest, entry);
        let tail = insert_by_name(rest, entry);
        assert forall|i: int, j: int| 0 <= i < j < r.len() implies lex_le(#[trigger] entry_name(r[i]), #[trigger] entry_name(r[j])) by {
            if i == 0 {
                assert(r[j] == tail[j - 1]);
                assert(tail.contains(tail[j - 1]));
                if tail[j - 1] == entry {
                } else {
                    assert(rest.contains(tail[j - 1]));
                    let k = choose|k: int| 0 <= k < rest.len() && rest[k] == tail[j - 1];
                    assert(entry_name(sorted[k + 1]) == entry_name(tail[j - 1]));
                }
            } else {
                assert(r[i] == tail[i - 1] && r[j] == tail[j - 1]);
            }
        }
    }
}

/// Inserting an entry with a new id keeps ids unique.
pub proof fn lemma_insert_by_name_unique(sorted: Seq<DefinitionEntry>, entry: DefinitionEntry)
    requires
        ids_unique(sorted),
        forall|i: int| 0 <= i < sorted.len() ==> #[trigger] sorted[i].id != entry.id,
    ensures
        ids_unique(insert_by_name(sorted, entry)),
    decreases sorted.len(),
{
    let r = insert_by_name(sorted, entry);
    if sorted.len() == 0 {
    } else if !lex_le(entry_name(sorted[0]), entry_name(entry)) {
        assert forall|i: int, j: int| 0 <= i < r.len() && 0 <= j < r.len() && i != j implies #[trigger] r[i].id != #[trigger] r[j].id by {
            if i > 0 { assert(r[i] == sorted[i - 1]); }
            if j > 0 { assert(r[j] == sorted[j - 1]); }
        }
    } else {
        let rest = sorted.drop_first();
        assert(ids_unique(rest)) by {
            assert forall|i: int, j: int| 0 <= i < rest.len() && 0 <= j < rest.len() && i != j implies #[trigger] rest[i].id != #[trigger] rest[j].id by {
                assert(rest[i] == sorted[i + 1] && rest[j] == sorted[j + 1]);
            }
        }
        lemma_insert_by_name_unique(rest, entry);
        lemma_insert_by_name_contents(rest, entry);
        let tail = insert_by_name(rest, entry);
        assert forall|i: int, j: int| 0 <= i < r.len() && 0 <= j < r.len() && i != j implies #[trigger] r[i].id != #[trigger] r[j].id by {
            if i > 0 && j > 0 {
                assert(r[i] == tail[i - 1] && r[j] == tail[j - 1]);
            } else {
                let k = if i == 0 { j } else { i };
                assert(r[k] == tail[k - 1]);
                assert(tail.contains(tail[k - 1]));
                if tail[k - 1] != entry {
                    assert(rest.contains(tail[k - 1]));
                    let m = choose|m: int| 0 <= m < rest.len() && rest[m] == tail[k - 1];
                    assert(sorted[m + 1] == tail[k - 1]);
                }
            }
        }
    }
}


/// Inserting by name puts the entry at the first position whose name is greater than its name.
pub proof fn lemma_insert_by_name_at(sorted: Seq<DefinitionEntry>, entry: DefinitionEntry, pos: int)
    requires
        0 <= pos <= sorted.len(),
        forall|q: int| 0 <= q < pos ==> lex_le(entry_name(#[trigger] sorted[q]), entry_name(entry)),
        pos < sorted.len() ==> !lex_le(entry_name(sorted[pos]), entry_name(entry)),
    ensures
        insert_by_name(sorted, entry) == sorted.insert(pos, entry),
    decreases sorted.len(),
{
    if sorted.len() == 0 {
        assert(sorted.insert(pos, entry) =~= seq![entry]);
    } else if pos == 0 {
        assert(sorted.insert(pos, entry) =~= seq![entry] + sorted);
    } else {
        let rest = sorted.drop_first();
        assert(lex_le(entry_name(sorted[0]), entry_name(entry)));
        assert forall|q: int| 0 <= q < pos - 1 implies lex_le(entry_name(#[trigger] rest[q]), entry_name(entry)) by {
            assert(rest[q] == sorted[q + 1]);
        }
        if pos - 1 < rest.len() {
            assert(rest[pos - 1] == sorted[pos]);
        }
        lemma_insert_by_name_at(rest, entry, pos - 1);
        assert(sorted.insert(pos, entry) =~= seq![sorted[0]] + rest.insert(pos - 1, entry));
    }
}

/// Sorting by name keeps the entries, orders them by name and keeps ids unique.
pub proof fn lemma_sort_by_name(s: Seq<DefinitionEntry>)
    ensures
        sort_by_name(s).len() == s.len(),
        sort_by_name(s).to_multiset() == s.to_multiset(),
        forall|x: DefinitionEntry| #[trigger] sort_by_name(s).contains(x) <==> s.contains(x),
        sorted_by_name(sort_by_name(s)),
        ids_unique(s) ==> ids_unique(sort_by_name(s)),
    decreases s.len(),
{
    broadcast use vstd::seq_lib::group_to_multiset_ensures;
    if s.len() > 0 {
        let init = s.drop_last();
        lemma_sort_by_name(init);
        let sorted = sort_by_name(init);
        lemma_insert_by_name_contents(sorted, s.last());
        lemma_insert_by_name_sorted(sorted, s.last());
        assert(s == init.push(s.last()));
        assert(s.to_multiset() =~= init.to_multiset().insert(s.last()));
        assert forall|x: DefinitionEntry| #[trigger] sort_by_name(s).contains(x) <==> s.contains(x) by {
            if s.contains(x) && x != s.last() {
                let i = choose|i: int| 0 <= i < s.len() && s[i] == x;
                assert(init[i] == x);
            }
            if init.contains(x) {
                let i = choose|i: int| 0 <= i < init.len() && init[i] == x;
                assert(s[i] == x);
            }
            if x == s.last() { assert(s[s.len() - 1] == x); }
        }
        if ids_unique(s) {
            assert(ids_unique(init)) by {
                assert forall|i: int, j: int| 0 <= i < init.len() && 0 <= j < init.len() && i != j implies #[trigger] init[i].id != #[trigger] init[j].id by {
                    assert(init[i] == s[i] && init[j] == s[j]);
                }
            }
            assert forall|i: int| 0 <= i < sorted.len() implies #[trigger] sorted[i].id != s.last().id by {
                assert(sorted.contains(sorted[i]));
                let k = choose|k: int| 0 <= k < init.len() && init[k] == sorted[i];
                assert(s[k] == sorted[i]);
            }
            lemma_insert_by_name_unique(sorted, s.last());
        }
    }
}

/// With unique ids, the definition of an id is the one of the entry with that id.
pub proof fn lemma_definition_of_unique(s: Seq<DefinitionEntry>, id: u32)
    requires
        ids_unique(s),
    ensures
        definition_of(s, id) is None <==> (forall|i: int| 0 <= i < s.len() ==> #[trigger] s[i].id != id),
        forall|i: int| 0 <= i < s.len() && #[trigger] s[i].id == id ==> definition_of(s, id) == Some(s[i].def),
    decreases s.len(),
{
    if s.len() > 0 {
        let rest = s.drop_first();
        assert(ids_unique(rest)) by {
            assert forall|i: int, j: int| 0 <= i < rest.len() && 0 <= j < rest.len() && i != j implies #[trigger] rest[i].id != #[trigger] rest[j].id by {
                assert(rest[i] == s[i + 1] && rest[j] == s[j + 1]);
            }
        }
        lemma_definition_of_unique(rest, id);
        assert forall|i: int| 0 <= i < s.len() && #[trigger] s[i].id == id implies definition_of(s, id) == Some(s[i].def) by {
            if i > 0 { assert(rest[i - 1] == s[i]); }
        }
        if s[0].id != id {
            assert((forall|i: int| 0 <= i < s.len() ==> #[trigger] s[i].id != id) <==> (forall|i: int| 0 <= i < rest.len() ==> #[trigger] rest[i].id != id)) by {
                if forall|i: int| 0 <= i < rest.len() ==> #[trigger] rest[i].id != id {
                    assert forall|i: int| 0 <= i < s.len() implies #[trigger] s[i].id != id by {
                        if i > 0 { assert(rest[i - 1] == s[i]); }
                    }
                }
                if forall|i: int| 0 <= i < s.len() ==> #[trigger] s[i].id != id {
                    assert forall|i: int| 0 <= i < rest.len() implies #[trigger] rest[i].id != id by {
                        assert(rest[i] == s[i + 1]);
                    }
                }
            }
        }
    }
}

/// Sorting by name does not change which definition belongs to an id.
pub proof fn law_sort_keeps_definitions(s: Seq<DefinitionEntry>, id: u32)
    requires
        ids_unique(s),
    ensures
        definition_of(sort_by_name(s), id) == definition_of(s, id),
{
    lemma_sort_by_name(s);
    let t = sort_by_name(s);
    lemma_definition_of_unique(s, id);
    lemma_definition_of_unique(t, id);
    if exists|i: int| 0 <= i < s.len() && s[i].id == id {
        let i = choose|i: int| 0 <= i < s.len() && s[i].id == id;
        assert(s.contains(s[i]));
        assert(t.contains(s[i]));
        let j = choose|j: int| 0 <= j < t.len() && t[j] == s[i];
        assert(t[j].id == id);
    } else {
        assert forall|j: int| 0 <= j < t.len() implies #[trigger] t[j].id != id by {
            assert(t.contains(t[j]));
            let i = choose|i: int| 0 <= i < s.len() && s[i] == t[j];
        }
    }
}

/// Upserting keeps ids unique.
pub proof fn lemma_upsert_unique(s: Seq<DefinitionEntry>, entry: DefinitionEntry)
    requires
        ids_unique(s),
    ensures
        ids_unique(upsert(s, entry)),
{
    if exists|i: int| 0 <= i < s.len() && s[i].id == entry.id {
        let i = choose|i: int| 0 <= i < s.len() && s[i].id == entry.id;
        let r = s.update(i, entry);
        assert forall|a: int, b: int| 0 <= a < r.len() && 0 <= b < r.len() && a != b implies #[trigger] r[a].id != #[trigger] r[b].id by {
            if a != i && b != i { assert(r[a] == s[a] && r[b] == s[b]); }
            else if a == i { assert(r[b] == s[b]); } else { assert(r[a] == s[a]); }
        }
    } else {
        let r = s.push(entry);
        assert forall|a: int, b: int| 0 <= a < r.len() && 0 <= b < r.len() && a != b implies #[trigger] r[a].id != #[trigger] r[b].id by {
            if a < s.len() && b < s.len() { assert(r[a] == s[a] && r[b] == s[b]); }
            else if a < s.len() { assert(r[a] == s[a]); } else { assert(r[b] == s[b]); }
        }
    }
}

/// Upserting keeps ids unique, for any number of entries.
pub proof fn lemma_upsert_all_unique(s: Seq<DefinitionEntry>, entries: Seq<DefinitionEntry>)
    requires
        ids_unique(s),
    ensures
        ids_unique(upsert_all(s, entries)),
    decreases entries.len(),
{
    if entries.len() > 0 {
        lemma_upsert_all_unique(s, entries.drop_last());
        lemma_upsert_unique(upsert_all(s, entries.drop_last()), entries.last());
    }
}

/// After an upsert, the id of the upserted entry is defined by it, all other ids keep their definition.
pub proof fn law_upsert_lookup(s: Seq<DefinitionEntry>, entry: DefinitionEntry, id: u32)
    requires
        ids_unique(s),
    ensures
        definition_of(upsert(s, entry), id) == (if id == entry.id { Some(entry.def) } else { definition_of(s, id) }),
{
    lemma_upsert_unique(s, entry);
    let r = upsert(s, entry);
    lemma_definition_of_unique(s, id);
    lemma_definition_of_unique(r, id);
    if exists|i: int| 0 <= i < s.len() && s[i].id == entry.id {
        let i = choose|i: int| 0 <= i < s.len() && s[i].id == entry.id;
        assert(r[i] == entry);
        if id != entry.id {
            if exists|k: int| 0 <= k < s.len() && s[k].id == id {
                let k = choose|k: int| 0 <= k < s.len() && s[k].id == id;
                assert(r[k] == s[k]);
            } else {
                assert forall|k: int| 0 <= k < r.len() implies #[trigger] r[k].id != id by {
                    if k != i { assert(r[k] == s[k]); }
                }
            }
        }
    } else {
        assert(r[s.len() as int] == entry);
        if id != entry.id {
            if exists|k: int| 0 <= k < s.len() && s[k].id == id {
                let k = choose|k: int| 0 <= k < s.len() && s[k].id == id;
                assert(r[k] == s[k]);
            } else {
                assert forall|k: int| 0 <= k < r.len() implies #[trigger] r[k].id != id by {
                    if k < s.len() { assert(r[k] == s[k]); }
                }
            }
        }
    }
}


/// The definition of the last entry with the given id.
pub open spec fn last_definition(entries: Seq<DefinitionEntry>, id: u32) -> Option<DefinitionKind>
    decreases entries.len(),
{
    if entries.len() == 0 {
        None
    } else if entries.last().id == id {
        Some(entries.last().def)
    } else {
        last_definition(entries.drop_last(), id)
    }
}

/// After upserting entries, an id is defined by the last of them with that id,
/// or keeps its definition if none of them has it.
pub proof fn law_upsert_all_lookup(s: Seq<DefinitionEntry>, entries: Seq<DefinitionEntry>, id: u32)
    requires
        ids_unique(s),
    ensures
        definition_of(upsert_all(s, entries), id) == (match last_definition(entries, id) {
            Some(def) => Some(def),
            None => definition_of(s, id),
        }),
    decreases entries.len(),
{
    if entries.len() > 0 {
        law_upsert_all_lookup(s, entries.drop_last(), id);
        lemma_upsert_all_unique(s, entries.drop_last());
        law_upsert_lookup(upsert_all(s, entries.drop_last()), entries.last(), id);
    }
}

/// After adding definitions, a buff id is defined by the last added entry with that id
/// (ignored ids over utility over food), or keeps its previous definition.
pub proof fn law_added_lookup(s: Seq<DefinitionEntry>, food: Seq<BuffData>, util: Seq<BuffData>, ignored: Seq<u32>, id: u32)
    requires
        ids_unique(s),
    ensures
        definition_of(with_added(s, food, util, ignored), id) == (
            match last_definition(ignore_entries(ignored), id) {
                Some(def) => Some(def),
                None => match last_definition(util_entries(util), id) {
                    Some(def) => Some(def),
                    None => match last_definition(food_entries(food), id) {
                        Some(def) => Some(def),
                        None => definition_of(s, id),
                    },
                },
            }),
{
    let a = upsert_all(s, food_entries(food));
    let b = upsert_all(a, util_entries(util));
    let c = upsert_all(b, ignore_entries(ignored));
    law_upsert_all_lookup(s, food_entries(food), id);
    lemma_upsert_all_unique(s, food_entries(food));
    law_upsert_all_lookup(a, util_entries(util), id);
    lemma_upsert_all_unique(a, util_entries(util));
    law_upsert_all_lookup(b, ignore_entries(ignored), id);
    lemma_upsert_all_unique(b, ignore_entries(ignored));
    law_sort_keeps_definitions(c, id);
}

/// Definitions are always sorted by name and never hold two entries for one id.
pub proof fn law_added_well_formed(s: Seq<DefinitionEntry>, food: Seq<BuffData>, util: Seq<BuffData>, ignored: Seq<u32>)
    requires
        ids_unique(s),
    ensures
        ids_unique(with_added(s, food, util, ignored)),
        sorted_by_name(with_added(s, food, util, ignored)),
{
    let a = upsert_all(s, food_entries(food));
    let b = upsert_all(a, util_entries(util));
    lemma_upsert_all_unique(s, food_entries(food));
    lemma_upsert_all_unique(a, util_entries(util));
    lemma_upsert_all_unique(b, ignore_entries(ignored));
    lemma_sort_by_name(upsert_all(b, ignore_entries(ignored)));
}

/// Buff kind.
#[derive(Debug)]
pub enum BuffKind<'a> {
    Unknown,
    Reinforced,
    Food(Option<&'a BuffData>),
    Util(Option<&'a BuffData>),
    Ignore,
}

/// Errors when loading custom definitions.
#[derive(Debug, Clone, Copy, PartialEq, Eq, Structural)]
pub enum LoadError {
    NotFound,
    FailedToRead,
    InvalidJSON,
}

/// Shared buff definitions data.
#[derive(Debug)]
pub struct Definitions {
    /// Buff definitions data.
    ///
    /// Sorted alphabetically for UI usage.
    data: Vec<DefinitionEntry>,
}

impl View for Definitions {
    type V = Seq<DefinitionEntry>;

    closed spec fn view(&self) -> Seq<DefinitionEntry> {
        self.data@
    }
}

impl Definitions {
    #[verifier::type_invariant]
    spec fn well_formed(self) -> bool {
        &&& ids_unique(self.data@)
        &&& sorted_by_name(self.data@)
    }

    /// Creates a new empty set of definitions.
    pub fn empty() -> (r: Self)
        ensures
            r@ == Seq::<DefinitionEntry>::empty(),
    {
        Self { data: Vec::new() }
    }


    /// Updates an old buff entry or inserts it as a new entry.
    fn update_or_insert(data: &mut Vec<DefinitionEntry>, new: DefinitionEntry)
        requires
            ids_unique(old(data)@),
        ensures
            final(data)@ == upsert(old(data)@, new),
            ids_unique(final(data)@),
    {
        proof { lemma_upsert_unique(data@, new); }
        let mut i: usize = 0;
        while i < data.len()
            invariant
                i <= data.len(),
                data@ == old(data)@,
                ids_unique(old(data)@),
                ids_unique(upsert(old(data)@, new)),
                forall|k: int| 0 <= k < i ==> #[trigger] data@[k].id != new.id,
            decreases data.len() - i,
        {
            if data[i].id == new.id {
                let ghost s = data@;
                proof {
                    let c = choose|c: int| 0 <= c < s.len() && s[c].id == new.id;
                    assert(c == i);
                }
                data.set(i, new);
                return;
            }
            i = i + 1;
        }
        data.push(new);
    }

    /// Sorts entries by name, keeping the order of entries with equal names.
    fn sort_by_name(data: Vec<DefinitionEntry>) -> (r: Vec<DefinitionEntry>)
        ensures
            r@ == sort_by_name(data@),
    {
        let mut sorted: Vec<DefinitionEntry> = Vec::new();
        let ghost all = data@;
        for entry in it: data
            invariant
                it.seq() == all,
                sorted@ == sort_by_name(all.take(it.index() as int)),
        {
            let ghost done = all.take(it.index() as int);
            let mut pos: usize = 0;
            while pos < sorted.len() && str_le(sorted[pos].def.name(), entry.def.name())
                invariant
                    pos <= sorted.len(),
                    forall|q: int| 0 <= q < pos ==> lex_le(entry_name(#[trigger] sorted@[q]), entry_name(entry)),
                decreases sorted.len() - pos,
            {
                pos = pos + 1;
            }
            proof {
                lemma_insert_by_name_at(sorted@, entry, pos as int);
                let next = all.take(it.index() + 1);
                assert(next.drop_last() == done);
                assert(next.last() == entry);
            }
            sorted.insert(pos, entry);
        }
        proof {
            assert(all.take(all.len() as int) == all);
        }
        sorted
    }


    /// Upserts all entries built from `items` into `data`.
    fn upsert_food(data: &mut Vec<DefinitionEntry>, items: Vec<BuffData>)
        requires
            ids_unique(old(data)@),
        ensures
            final(data)@ == upsert_all(old(data)@, food_entries(items@)),
            ids_unique(final(data)@),
    {
        let ghost start = data@;
        let ghost all = items@;
        for item in it: items
            invariant
                it.seq() == all,
                data@ == upsert_all(start, food_entries(all.take(it.index() as int))),
                ids_unique(data@),
        {
            proof {
                let next = all.take(it.index() + 1);
                assert(food_entries(next).drop_last() == food_entries(all.take(it.index() as int)));
                assert(food_entries(next).last() == food_entry(item));
            }
            Self::update_or_insert(data, DefinitionEntry::new_food(item));
        }
        proof { assert(all.take(all.len() as int) == all); }
    }

    /// Upserts all entries built from `items` into `data`.
    fn upsert_util(data: &mut Vec<DefinitionEntry>, items: Vec<BuffData>)
        requires
            ids_unique(old(data)@),
        ensures
            final(data)@ == upsert_all(old(data)@, util_entries(items@)),
            ids_unique(final(data)@),
    {
        let ghost start = data@;
        let ghost all = items@;
        for item in it: items
            invariant
                it.seq() == all,
                data@ == upsert_all(start, util_entries(all.take(it.index() as int))),
                ids_unique(data@),
        {
            proof {
                let next = all.take(it.index() + 1);
                assert(util_entries(next).drop_last() == util_entries(all.take(it.index() as int)));
                assert(util_entries(next).last() == util_entry(item));
            }
            Self::update_or_insert(data, DefinitionEntry::new_util(item));
        }
        proof { assert(all.take(all.len() as int) == all); }
    }

    /// Upserts all entries built from `ids` into `data`.
    fn upsert_ignored(data: &mut Vec<DefinitionEntry>, ids: Vec<u32>)
        requires
            ids_unique(old(data)@),
        ensures
            final(data)@ == upsert_all(old(data)@, ignore_entries(ids@)),
            ids_unique(final(data)@),
    {
        let ghost start = data@;
        let ghost all = ids@;
        for id in it: ids
            invariant
                it.seq() == all,
                data@ == upsert_all(start, ignore_entries(all.take(it.index() as int))),
                ids_unique(data@),
        {
            proof {
                let next = all.take(it.index() + 1);
                assert(ignore_entries(next).drop_last() == ignore_entries(all.take(it.index() as int)));
                assert(ignore_entries(next).last() == ignore_entry(id));
            }
            Self::update_or_insert(data, DefinitionEntry::new(id, DefinitionKind::Ignore));
        }
        proof { assert(all.take(all.len() as int) == all); }
    }

    /// Adds new buff definitions.
    ///
    /// Entries replace earlier entries with the same id. Afterwards all entries are sorted by name.
    pub fn add_buffs(&mut self, food: Vec<BuffData>, util: Vec<BuffData>, ignored: Vec<u32>)
        ensures
            final(self)@ == with_added(old(self)@, food@, util@, ignored@),
    {
        proof { use_type_invariant(&*self); }
        let mut data: Vec<DefinitionEntry> = Vec::new();
        std::mem::swap(&mut data, &mut self.data);
        Self::upsert_food(&mut data, food);
        Self::upsert_util(&mut data, util);
        Self::upsert_ignored(&mut data, ignored);
        let sorted = Self::sort_by_name(data);
        proof { lemma_sort_by_name(data@); }
        self.data = sorted;
    }

    /// Add definitions from a [`DefData`] collection.
    ///
    /// Boss ids are not part of these definitions.
    pub fn add_data(&mut self, data: DefData)
        ensures
            final(self)@ == with_added(old(self)@, data.food@, data.utility@, data.ignore@),
    {
        let DefData { food, utility, ignore, .. } = data;
        self.add_buffs(food, utility, ignore);
    }


    /// Returns the kind for the given buff id & name.
    ///
    /// Reinforced Armor is recognized by id, buffs without definition by the name of their category.
    pub fn get_buff(&self, id: u32, name: Option<&str>) -> (r: BuffKind<'_>)
        ensures
            id == REINFORCED ==> r is Reinforced,
            id != REINFORCED ==> match definition_of(self@, id) {
                Some(DefinitionKind::Food(data)) => r matches BuffKind::Food(Some(d)) && *d == data,
                Some(DefinitionKind::Util(data)) => r matches BuffKind::Util(Some(d)) && *d == data,
                Some(DefinitionKind::Ignore) => r is Ignore,
                None => if name matches Some(n) && n@ == "Nourishment"@ {
                    r matches BuffKind::Food(None)
                } else if name matches Some(n) && n@ == "Enhancement"@ {
                    r matches BuffKind::Util(None)
                } else {
                    r is Unknown
                },
            },
    {
        if id == REINFORCED {
            BuffKind::Reinforced
        } else if let Some(def) = self.get_definition(id) {
            match def {
                DefinitionKind::Food(data) => BuffKind::Food(Some(data)),
                DefinitionKind::Util(data) => BuffKind::Util(Some(data)),
                DefinitionKind::Ignore => BuffKind::Ignore,
            }
        } else {
            match name {
                Some(name) => {
                    if str_eq(name, "Nourishment") {
                        BuffKind::Food(None)
                    } else if str_eq(name, "Enhancement") {
                        BuffKind::Util(None)
                    } else {
                        BuffKind::Unknown
                    }
                },
                None => BuffKind::Unknown,
            }
        }
    }

    /// Returns all food definitions, in the order of the definitions.
    pub fn all_food(&self) -> (r: Vec<&BuffData>)
        ensures
            r@.len() == food_of(self@).len(),
            forall|i: int| 0 <= i < r@.len() ==> *#[trigger] r@[i] == food_of(self@)[i],
    {
        let mut r: Vec<&BuffData> = Vec::new();
        let mut i: usize = 0;
        while i < self.data.len()
            invariant
                i <= self.data.len(),
                r@.len() == food_of(self.data@.take(i as int)).len(),
                forall|k: int| 0 <= k < r@.len() ==> *#[trigger] r@[k] == food_of(self.data@.take(i as int))[k],
            decreases self.data.len() - i,
        {
            proof {
                assert(self.data@.take(i + 1).drop_last() == self.data@.take(i as int));
            }
            match &self.data[i].def {
                DefinitionKind::Food(data) => r.push(data),
                _ => {},
            }
            i = i + 1;
        }
        proof { assert(self.data@.take(self.data.len() as int) == self.data@); }
        r
    }

    /// Returns all utility definitions, in the order of the definitions.
    pub fn all_util(&self) -> (r: Vec<&BuffData>)
        ensures
            r@.len() == util_of(self@).len(),
            forall|i: int| 0 <= i < r@.len() ==> *#[trigger] r@[i] == util_of(self@)[i],
    {
        let mut r: Vec<&BuffData> = Vec::new();
        let mut i: usize = 0;
        while i < self.data.len()
            invariant
                i <= self.data.len(),
                r@.len() == util_of(self.data@.take(i as int)).len(),
                forall|k: int| 0 <= k < r@.len() ==> *#[trigger] r@[k] == util_of(self.data@.take(i as int))[k],
            decreases self.data.len() - i,
        {
            proof {
                assert(self.data@.take(i + 1).drop_last() == self.data@.take(i as int));
            }
            match &self.data[i].def {
                DefinitionKind::Util(data) => r.push(data),
                _ => {},
            }
            i = i + 1;
        }
        proof { assert(self.data@.take(self.data.len() as int) == self.data@); }
        r
    }

    /// Creates a new set of definitions with the default definitions.
    pub fn with_defaults() -> (r: Self)
        ensures
            exists|data: DefData| #[trigger] defaults::is_default_data(data)
                && r@ == with_added(Seq::empty(), data.food@, data.utility@, data.ignore@),
    {
        let mut defs = Self::empty();
        let data = default_definitions();
        let ghost d = data;
        defs.add_data(data);
        assert(defaults::is_default_data(d));
        defs
    }

    /// Returns the definition for the buff with the given id.
    pub fn get_definition(&self, buff_id: u32) -> (r: Option<&DefinitionKind>)
        ensures
            match r {
                Some(def) => definition_of(self@, buff_id) == Some(*def),
                None => definition_of(self@, buff_id) is None,
            },
    {
        let mut i: usize = 0;
        assert(self.data@.skip(0) == self.data@);
        while i < self.data.len()
            invariant
                i <= self.data.len(),
                definition_of(self.data@, buff_id) == definition_of(self.data@.skip(i as int), buff_id),
            decreases self.data.len() - i,
        {
            if self.data[i].id == buff_id {
                return Some(&self.data[i].def);
            }
            assert(self.data@.skip(i as int).drop_first() == self.data@.skip(i + 1));
            i = i + 1;
        }
        None
    }
}

/// The default definitions define Malnourished as food and Diminished as utility, ignore
/// Reinforced Armor, and define no other buff.
pub proof fn law_default_lookup(data: DefData, id: u32)
    requires
        defaults::is_default_data(data),
    ensures
        definition_of(with_added(Seq::empty(), data.food@, data.utility@, data.ignore@), id) == (
            if id == REINFORCED {
                Some(DefinitionKind::Ignore)
            } else if id == constants::DIMINISHED {
                Some(DefinitionKind::Util(data.utility@[0]))
            } else if id == constants::MALNOURISHED {
                Some(DefinitionKind::Food(data.food@[0]))
            } else {
                None
            }),
{
    law_added_lookup(Seq::empty(), data.food@, data.utility@, data.ignore@, id);
    let f = food_entries(data.food@);
    let u = util_entries(data.utility@);
    let g = ignore_entries(data.ignore@);
    assert(f.len() == 1 && f[0] == food_entry(data.food@[0]));
    assert(u.len() == 1 && u[0] == util_entry(data.utility@[0]));
    assert(g.len() == 1 && g[0] == ignore_entry(REINFORCED));
    assert(f.drop_last().len() == 0);
    assert(u.drop_last().len() == 0);
    assert(g.drop_last().len() == 0);
    assert(last_definition(f.drop_last(), id) is None);
    assert(last_definition(u.drop_last(), id) is None);
    assert(last_definition(g.drop_last(), id) is None);
    assert(f.last() == food_entry(data.food@[0]));
    assert(u.last() == util_entry(data.utility@[0]));
    assert(g.last() == ignore_entry(REINFORCED));
    assert(last_definition(f, id) == (if id == constants::MALNOURISHED { Some(DefinitionKind::Food(data.food@[0])) } else { None }));
    assert(last_definition(u, id) == (if id == constants::DIMINISHED { Some(DefinitionKind::Util(data.utility@[0])) } else { None }));
    assert(last_definition(g, id) == (if id == REINFORCED { Some(DefinitionKind::Ignore) } else { None }));
    assert(definition_of(Seq::<DefinitionEntry>::empty(), id) is None);
}

/// Whether two definitions define a buff alike: the same kind with equal data, as far as the
/// data's views tell.
pub open spec fn defined_alike(a: Option<DefinitionKind>, b: Option<DefinitionKind>) -> bool {
    match (a, b) {
        (None, None) => true,
        (Some(DefinitionKind::Ignore), Some(DefinitionKind::Ignore)) => true,
        (Some(DefinitionKind::Food(x)), Some(DefinitionKind::Food(y))) => data_alike(x, y),
        (Some(DefinitionKind::Util(x)), Some(DefinitionKind::Util(y))) => data_alike(x, y),
        _ => false,
    }
}

/// Whether two buff data are equal in their views.
pub open spec fn data_alike(x: BuffData, y: BuffData) -> bool {
    &&& x.id == y.id
    &&& x.name@ == y.name@
    &&& x.display@ == y.display@
    &&& x.stats@.len() == y.stats@.len()
    &&& forall|k: int| 0 <= k < x.stats@.len() ==> (#[trigger] x.stats@[k])@ == y.stats@[k]@
    &&& x.rarity == y.rarity
}

/// Any two sets of default definitions define every buff alike; so the definitions from
/// `Definitions::with_defaults` and from adding `default_definitions()` to empty ones agree.
pub proof fn law_defaults_agree(first: DefData, second: DefData, id: u32)
    requires
        defaults::is_default_data(first),
        defaults::is_default_data(second),
    ensures
        defined_alike(
            definition_of(with_added(Seq::empty(), first.food@, first.utility@, first.ignore@), id),
            definition_of(with_added(Seq::empty(), second.food@, second.utility@, second.ignore@), id),
        ),
        food_of(with_added(Seq::empty(), first.food@, first.utility@, first.ignore@)).len() == 1,
        food_of(with_added(Seq::empty(), second.food@, second.utility@, second.ignore@)).len() == 1,
        data_alike(
            food_of(with_added(Seq::empty(), first.food@, first.utility@, first.ignore@))[0],
            food_of(with_added(Seq::empty(), second.food@, second.utility@, second.ignore@))[0],
        ),
        util_of(with_added(Seq::empty(), first.food@, first.utility@, first.ignore@)).len() == 1,
        util_of(with_added(Seq::empty(), second.food@, second.utility@, second.ignore@)).len() == 1,
        data_alike(
            util_of(with_added(Seq::empty(), first.food@, first.utility@, first.ignore@))[0],
            util_of(with_added(Seq::empty(), second.food@, second.utility@, second.ignore@))[0],
        ),
{
    law_default_lookup(first, id);
    law_default_lookup(second, id);
    law_default_lists(first);
    law_default_lists(second);
}

/// Whether some entry is for the buff `id`.
pub open spec fn has_id(s: Seq<DefinitionEntry>, id: u32) -> bool {
    exists|k: int| 0 <= k < s.len() && #[trigger] s[k].id == id
}

/// An id has a definition exactly if some entry is for it.
proof fn lemma_definition_of_has_id(s: Seq<DefinitionEntry>, id: u32)
    ensures
        (definition_of(s, id) is Some) <==> has_id(s, id),
    decreases s.len(),
{
    if s.len() > 0 {
        let rest = s.drop_first();
        lemma_definition_of_has_id(rest, id);
        if has_id(rest, id) {
            let k = choose|k: int| 0 <= k < rest.len() && #[trigger] rest[k].id == id;
            assert(s[k + 1].id == id);
        }
        if has_id(s, id) && s[0].id != id {
            let k = choose|k: int| 0 <= k < s.len() && #[trigger] s[k].id == id;
            assert(rest[k - 1].id == id);
        }
    }
}

/// The last entry for an id exists exactly if some entry is for it.
proof fn lemma_last_definition_has_id(entries: Seq<DefinitionEntry>, id: u32)
    ensures
        (last_definition(entries, id) is Some) <==> has_id(entries, id),
    decreases entries.len(),
{
    if entries.len() > 0 {
        let rest = entries.drop_last();
        lemma_last_definition_has_id(rest, id);
        if has_id(rest, id) {
            let k = choose|k: int| 0 <= k < rest.len() && #[trigger] rest[k].id == id;
            assert(entries[k].id == id);
        }
        if has_id(entries, id) && entries.last().id != id {
            let k = choose|k: int| 0 <= k < entries.len() && #[trigger] entries[k].id == id;
            assert(rest[k].id == id);
        }
    }
}

/// After adding definitions, the buffs defined are exactly those defined before together with
/// the added food, utility and ignored buffs.
pub proof fn law_added_ids(s: Seq<DefinitionEntry>, food: Seq<BuffData>, util: Seq<BuffData>, ignored: Seq<u32>, id: u32)
    requires
        ids_unique(s),
    ensures
        has_id(with_added(s, food, util, ignored), id) <==> (
            has_id(s, id)
            || (exists|k: int| 0 <= k < food.len() && #[trigger] food[k].id == id)
            || (exists|k: int| 0 <= k < util.len() && #[trigger] util[k].id == id)
            || ignored.contains(id)),
{
    law_added_lookup(s, food, util, ignored, id);
    lemma_definition_of_has_id(with_added(s, food, util, ignored), id);
    lemma_definition_of_has_id(s, id);
    let f = food_entries(food);
    let u = util_entries(util);
    let g = ignore_entries(ignored);
    lemma_last_definition_has_id(f, id);
    lemma_last_definition_has_id(u, id);
    lemma_last_definition_has_id(g, id);
    if has_id(f, id) {
        let k = choose|k: int| 0 <= k < f.len() && #[trigger] f[k].id == id;
        assert(food[k].id == id);
    }
    if exists|k: int| 0 <= k < food.len() && #[trigger] food[k].id == id {
        let k = choose|k: int| 0 <= k < food.len() && #[trigger] food[k].id == id;
        assert(f[k].id == id);
    }
    if has_id(u, id) {
        let k = choose|k: int| 0 <= k < u.len() && #[trigger] u[k].id == id;
        assert(util[k].id == id);
    }
    if exists|k: int| 0 <= k < util.len() && #[trigger] util[k].id == id {
        let k = choose|k: int| 0 <= k < util.len() && #[trigger] util[k].id == id;
        assert(u[k].id == id);
    }
    if has_id(g, id) {
        let k = choose|k: int| 0 <= k < g.len() && #[trigger] g[k].id == id;
        assert(ignored[k] == id);
    }
    if ignored.contains(id) {
        let k = choose|k: int| 0 <= k < ignored.len() && ignored[k] == id;
        assert(g[k].id == id);
    }
}

/// Without food entries, no food is listed.
proof fn lemma_food_of_none(s: Seq<DefinitionEntry>)
    requires
        forall|j: int| 0 <= j < s.len() ==> !((#[trigger] s[j]).def is Food),
    ensures
        food_of(s) == Seq::<BuffData>::empty(),
    decreases s.len(),
{
    if s.len() > 0 {
        assert(!(s[s.len() - 1].def is Food));
        lemma_food_of_none(s.drop_last());
    }
}

/// Without utility entries, no utility is listed.
proof fn lemma_util_of_none(s: Seq<DefinitionEntry>)
    requires
        forall|j: int| 0 <= j < s.len() ==> !((#[trigger] s[j]).def is Util),
    ensures
        util_of(s) == Seq::<BuffData>::empty(),
    decreases s.len(),
{
    if s.len() > 0 {
        assert(!(s[s.len() - 1].def is Util));
        lemma_util_of_none(s.drop_last());
    }
}

/// With a single food entry, that food alone is listed.
proof fn lemma_food_of_single(s: Seq<DefinitionEntry>, k: int, data: BuffData)
    requires
        0 <= k < s.len(),
        s[k].def == DefinitionKind::Food(data),
        forall|j: int| 0 <= j < s.len() && j != k ==> !((#[trigger] s[j]).def is Food),
    ensures
        food_of(s) == seq![data],
    decreases s.len(),
{
    let rest = s.drop_last();
    if k == s.len() - 1 {
        assert forall|j: int| 0 <= j < rest.len() implies !((#[trigger] rest[j]).def is Food) by {
            assert(rest[j] == s[j]);
        }
        lemma_food_of_none(rest);
        assert(Seq::<BuffData>::empty().push(data) == seq![data]);
    } else {
        assert(!(s[s.len() - 1].def is Food));
        assert forall|j: int| 0 <= j < rest.len() && j != k implies !((#[trigger] rest[j]).def is Food) by {
            assert(rest[j] == s[j]);
        }
        lemma_food_of_single(rest, k, data);
    }
}

/// With a single utility entry, that utility alone is listed.
proof fn lemma_util_of_single(s: Seq<DefinitionEntry>, k: int, data: BuffData)
    requires
        0 <= k < s.len(),
        s[k].def == DefinitionKind::Util(data),
        forall|j: int| 0 <= j < s.len() && j != k ==> !((#[trigger] s[j]).def is Util),
    ensures
        util_of(s) == seq![data],
    decreases s.len(),
{
    let rest = s.drop_last();
    if k == s.len() - 1 {
        assert forall|j: int| 0 <= j < rest.len() implies !((#[trigger] rest[j]).def is Util) by {
            assert(rest[j] == s[j]);
        }
        lemma_util_of_none(rest);
        assert(Seq::<BuffData>::empty().push(data) == seq![data]);
    } else {
        assert(!(s[s.len() - 1].def is Util));
        assert forall|j: int| 0 <= j < rest.len() && j != k implies !((#[trigger] rest[j]).def is Util) by {
            assert(rest[j] == s[j]);
        }
        lemma_util_of_single(rest, k, data);
    }
}

/// The default definitions list Malnourished as their only food and Diminished as their only
/// utility.
pub proof fn law_default_lists(data: DefData)
    requires
        defaults::is_default_data(data),
    ensures
        food_of(with_added(Seq::empty(), data.food@, data.utility@, data.ignore@)) == seq![data.food@[0]],
        util_of(with_added(Seq::empty(), data.food@, data.utility@, data.ignore@)) == seq![data.utility@[0]],
{
    let res = with_added(Seq::empty(), data.food@, data.utility@, data.ignore@);
    law_added_well_formed(Seq::empty(), data.food@, data.utility@, data.ignore@);
    lemma_definition_of_unique(res, constants::MALNOURISHED);
    lemma_definition_of_unique(res, constants::DIMINISHED);
    law_default_lookup(data, constants::MALNOURISHED);
    law_default_lookup(data, constants::DIMINISHED);
    lemma_definition_of_has_id(res, constants::MALNOURISHED);
    lemma_definition_of_has_id(res, constants::DIMINISHED);
    let kf = choose|k: int| 0 <= k < res.len() && #[trigger] res[k].id == constants::MALNOURISHED;
    let ku = choose|k: int| 0 <= k < res.len() && #[trigger] res[k].id == constants::DIMINISHED;
    assert forall|j: int| 0 <= j < res.len() && j != kf implies !((#[trigger] res[j]).def is Food) by {
        lemma_definition_of_unique(res, res[j].id);
        law_default_lookup(data, res[j].id);
    }
    assert forall|j: int| 0 <= j < res.len() && j != ku implies !((#[trigger] res[j]).def is Util) by {
        lemma_definition_of_unique(res, res[j].id);
        law_default_lookup(data, res[j].id);
    }
    lemma_food_of_single(res, kf, data.food@[0]);
    lemma_util_of_single(res, ku, data.utility@[0]);
}

} // verus!
