//! Sorting of the tracked players.

use super::buff::{custom_or_default, BuffState};
use super::squad::TrackerEntry;
use crate::data::constants::REINFORCED;
use crate::text::{lemma_lex_le_total, lemma_lex_le_transitive, lex_le, str_le};
use vstd::prelude::*;

verus! {

/// Current column sorted by.
#[derive(Debug, Clone, Copy, PartialEq, Eq, Structural)]
pub enum Sorting {
    Sub,
    Name,
    Food,
    Util,
    Reinf,
}

/// Order of buff states: unknown before none before applied buffs, applied buffs by id.
pub open spec fn state_le(a: BuffState<u32>, b: BuffState<u32>) -> bool {
    match (a, b) {
        (BuffState::Unknown, _) => true,
        (BuffState::Empty, BuffState::Unknown) => false,
        (BuffState::Empty, _) => true,
        (BuffState::Applied(x), BuffState::Applied(y)) => x <= y,
        (BuffState::Applied(_), _) => false,
    }
}

/// Order of custom buff states: unknown before none before applied.
pub open spec fn unit_state_le(a: BuffState<()>, b: BuffState<()>) -> bool {
    match (a, b) {
        (BuffState::Unknown, _) => true,
        (BuffState::Empty, BuffState::Unknown) => false,
        (BuffState::Empty, _) => true,
        (BuffState::Applied(_), BuffState::Applied(_)) => true,
        (BuffState::Applied(_), _) => false,
    }
}

/// Whether entry `a` may stand before entry `b` when sorting by the column in ascending order.
pub open spec fn key_le(a: TrackerEntry, b: TrackerEntry, sorting: Sorting) -> bool {
    match sorting {
        Sorting::Sub => a.player.subgroup <= b.player.subgroup,
        Sorting::Name => lex_le(a.player.character@, b.player.character@),
        Sorting::Food => state_le(a.data.food.state, b.data.food.state),
        Sorting::Util => state_le(a.data.util.state, b.data.util.state),
        Sorting::Reinf => unit_state_le(
            custom_or_default(a.data.custom@, REINFORCED).state,
            custom_or_default(b.data.custom@, REINFORCED).state,
        ),
    }
}

/// Whether entry `a` may stand before entry `b` in the sorting, reversed for descending order.
pub open spec fn entry_le(a: TrackerEntry, b: TrackerEntry, sorting: Sorting, reverse: bool) -> bool {
    if reverse {
        key_le(b, a, sorting)
    } else {
        key_le(a, b, sorting)
    }
}

/// Inserts `entry` into sorted entries after all entries that may stand before it.
pub open spec fn insert_player(sorted: Seq<TrackerEntry>, entry: TrackerEntry, sorting: Sorting, reverse: bool) -> Seq<TrackerEntry>
    decreases sorted.len(),
{
    if sorted.len() == 0 {
        seq![entry]
    } else if !entry_le(sorted[0], entry, sorting, reverse) {
        seq![entry] + sorted
    } else {
        seq![sorted[0]] + insert_player(sorted.drop_first(), entry, sorting, reverse)
    }
}

/// Stable sort of entries by the sorting column.
///
/// Entries are inserted in order, each after all entries that may stand before it,
/// so entries with equal keys keep their relative order.
pub open spec fn sort_players(s: Seq<TrackerEntry>, sorting: Sorting, reverse: bool) -> Seq<TrackerEntry>
    decreases s.len(),
{
    if s.len() == 0 {
        s
    } else {
        insert_player(sort_players(s.drop_last(), sorting, reverse), s.last(), sorting, reverse)
    }
}

/// Inserting puts the entry at the first position of an entry that may not stand before it.
pub proof fn lemma_insert_player_at(sorted: Seq<TrackerEntry>, entry: TrackerEntry, sorting: Sorting, reverse: bool, pos: int)
    requires
        0 <= pos <= sorted.len(),
        forall|q: int| 0 <= q < pos ==> entry_le(#[trigger] sorted[q], entry, sorting, reverse),
        pos < sorted.len() ==> !entry_le(sorted[pos], entry, sorting, reverse),
    ensures
        insert_player(sorted, entry, sorting, reverse) == sorted.insert(pos, entry),
    decreases sorted.len(),
{
    if sorted.len() == 0 {
        assert(sorted.insert(pos, entry) =~= seq![entry]);
    } else if pos == 0 {
        assert(sorted.insert(pos, entry) =~= seq![entry] + sorted);
    } else {
        let rest = sorted.drop_first();
        assert(entry_le(sorted[0], entry, sorting, reverse));
        assert forall|q: int| 0 <= q < pos - 1 implies entry_le(#[trigger] rest[q], entry, sorting, reverse) by {
            assert(rest[q] == sorted[q + 1]);
        }
        if pos - 1 < rest.len() {
            assert(rest[pos - 1] == sorted[pos]);
        }
        lemma_insert_player_at(rest, entry, sorting, reverse, pos - 1);
        assert(sorted.insert(pos, entry) =~= seq![sorted[0]] + rest.insert(pos - 1, entry));
    }
}

/// Inserting keeps all entries and adds the inserted one.
pub proof fn lemma_insert_player_contents(sorted: Seq<TrackerEntry>, entry: TrackerEntry, sorting: Sorting, reverse: bool)
    ensures
        insert_player(sorted, entry, sorting, reverse).len() == sorted.len() + 1,
        insert_player(sorted, entry, sorting, reverse).to_multiset() == sorted.to_multiset().insert(entry),
    decreases sorted.len(),
{
    broadcast use vstd::seq_lib::group_to_multiset_ensures;
    let r = insert_player(sorted, entry, sorting, reverse);
    if sorted.len() == 0 {
        assert(r == Seq::<TrackerEntry>::empty().push(entry));
        assert(r.to_multiset() =~= sorted.to_multiset().insert(entry));
    } else if !entry_le(sorted[0], entry, sorting, reverse) {
        vstd::seq_lib::lemma_multiset_commutative(seq![entry], sorted);
        assert(seq![entry] == Seq::<TrackerEntry>::empty().push(entry));
        assert(r.to_multiset() =~= sorted.to_multiset().insert(entry));
    } else {
        let rest = sorted.drop_first();
        lemma_insert_player_contents(rest, entry, sorting, reverse);
        let tail = insert_player(rest, entry, sorting, reverse);
        vstd::seq_lib::lemma_multiset_commutative(seq![sorted[0]], tail);
        vstd::seq_lib::lemma_multiset_commutative(seq![sorted[0]], rest);
        assert(sorted == seq![sorted[0]] + rest);
        assert(r.to_multiset() =~= sorted.to_multiset().insert(entry));
    }
}

/// Sorting players keeps exactly the same entries.
pub proof fn law_sort_players_permutes(s: Seq<TrackerEntry>, sorting: Sorting, reverse: bool)
    ensures
        sort_players(s, sorting, reverse).len() == s.len(),
        sort_players(s, sorting, reverse).to_multiset() == s.to_multiset(),
    decreases s.len(),
{
    broadcast use vstd::seq_lib::group_to_multiset_ensures;
    if s.len() > 0 {
        law_sort_players_permutes(s.drop_last(), sorting, reverse);
        lemma_insert_player_contents(sort_players(s.drop_last(), sorting, reverse), s.last(), sorting, reverse);
        assert(s == s.drop_last().push(s.last()));
        assert(s.to_multiset() =~= s.drop_last().to_multiset().insert(s.last()));
    }
}

/// Whether the entries are sorted: each may stand before every later one.
pub open spec fn players_sorted(s: Seq<TrackerEntry>, sorting: Sorting, reverse: bool) -> bool {
    forall|i: int, j: int| 0 <= i < j < s.len() ==> entry_le(#[trigger] s[i], #[trigger] s[j], sorting, reverse)
}

/// Of two entries, one may always stand before the other.
proof fn lemma_entry_le_total(a: TrackerEntry, b: TrackerEntry, sorting: Sorting, reverse: bool)
    ensures
        entry_le(a, b, sorting, reverse) || entry_le(b, a, sorting, reverse),
{
    if sorting == Sorting::Name {
        lemma_lex_le_total(a.player.character@, b.player.character@);
    }
}

/// The order of entries is transitive.
proof fn lemma_entry_le_transitive(a: TrackerEntry, b: TrackerEntry, c: TrackerEntry, sorting: Sorting, reverse: bool)
    requires
        entry_le(a, b, sorting, reverse),
        entry_le(b, c, sorting, reverse),
    ensures
        entry_le(a, c, sorting, reverse),
{
    if sorting == Sorting::Name {
        if reverse {
            lemma_lex_le_transitive(c.player.character@, b.player.character@, a.player.character@);
        } else {
            lemma_lex_le_transitive(a.player.character@, b.player.character@, c.player.character@);
        }
    }
}

/// Inserting keeps a lower bound of all entries.
proof fn lemma_insert_player_bound(sorted: Seq<TrackerEntry>, entry: TrackerEntry, bound: TrackerEntry, sorting: Sorting, reverse: bool)
    requires
        forall|k: int| 0 <= k < sorted.len() ==> entry_le(bound, #[trigger] sorted[k], sorting, reverse),
        entry_le(bound, entry, sorting, reverse),
    ensures
        forall|k: int| 0 <= k < insert_player(sorted, entry, sorting, reverse).len()
            ==> entry_le(bound, #[trigger] insert_player(sorted, entry, sorting, reverse)[k], sorting, reverse),
    decreases sorted.len(),
{
    lemma_insert_player_contents(sorted, entry, sorting, reverse);
    let r = insert_player(sorted, entry, sorting, reverse);
    if sorted.len() > 0 && entry_le(sorted[0], entry, sorting, reverse) {
        let rest = sorted.drop_first();
        assert forall|k: int| 0 <= k < rest.len() implies entry_le(bound, #[trigger] rest[k], sorting, reverse) by {
            assert(rest[k] == sorted[k + 1]);
        }
        lemma_insert_player_bound(rest, entry, bound, sorting, reverse);
        let tail = insert_player(rest, entry, sorting, reverse);
        assert forall|k: int| 0 <= k < r.len() implies entry_le(bound, #[trigger] r[k], sorting, reverse) by {
            if k > 0 {
                assert(r[k] == tail[k - 1]);
            }
        }
    } else if sorted.len() > 0 {
        assert forall|k: int| 0 <= k < r.len() implies entry_le(bound, #[trigger] r[k], sorting, reverse) by {
            if k > 0 {
                assert(r[k] == sorted[k - 1]);
            }
        }
    }
}

/// Inserting into sorted entries keeps them sorted.
proof fn lemma_insert_player_sorted(sorted: Seq<TrackerEntry>, entry: TrackerEntry, sorting: Sorting, reverse: bool)
    requires
        players_sorted(sorted, sorting, reverse),
    ensures
        players_sorted(insert_player(sorted, entry, sorting, reverse), sorting, reverse),
    decreases sorted.len(),
{
    lemma_insert_player_contents(sorted, entry, sorting, reverse);
    let r = insert_player(sorted, entry, sorting, reverse);
    if sorted.len() == 0 {
    } else if !entry_le(sorted[0], entry, sorting, reverse) {
        lemma_entry_le_total(sorted[0], entry, sorting, reverse);
        assert forall|i: int, j: int| 0 <= i < j < r.len() implies entry_le(#[trigger] r[i], #[trigger] r[j], sorting, reverse) by {
            if i == 0 {
                assert(r[j] == sorted[j - 1]);
                if j > 1 {
                    lemma_entry_le_transitive(entry, sorted[0], sorted[j - 1], sorting, reverse);
                }
            } else {
                assert(r[i] == sorted[i - 1] && r[j] == sorted[j - 1]);
            }
        }
    } else {
        let rest = sorted.drop_first();
        assert forall|i: int, j: int| 0 <= i < j < rest.len() implies entry_le(#[trigger] rest[i], #[trigger] rest[j], sorting, reverse) by {
            assert(rest[i] == sorted[i + 1] && rest[j] == sorted[j + 1]);
        }
        lemma_insert_player_sorted(rest, entry, sorting, reverse);
        assert forall|k: int| 0 <= k < rest.len() implies entry_le(sorted[0], #[trigger] rest[k], sorting, reverse) by {
            assert(rest[k] == sorted[k + 1]);
        }
        lemma_insert_player_bound(rest, entry, sorted[0], sorting, reverse);
        let tail = insert_player(rest, entry, sorting, reverse);
        assert forall|i: int, j: int| 0 <= i < j < r.len() implies entry_le(#[trigger] r[i], #[trigger] r[j], sorting, reverse) by {
            assert(r[j] == tail[j - 1]);
            if i > 0 {
                assert(r[i] == tail[i - 1]);
            }
        }
    }
}

/// Sorting players puts them in order: each may stand before every later one.
pub proof fn law_sort_players_sorted(s: Seq<TrackerEntry>, sorting: Sorting, reverse: bool)
    ensures
        players_sorted(sort_players(s, sorting, reverse), sorting, reverse),
    decreases s.len(),
{
    if s.len() > 0 {
        law_sort_players_sorted(s.drop_last(), sorting, reverse);
        lemma_insert_player_sorted(sort_players(s.drop_last(), sorting, reverse), s.last(), sorting, reverse);
    }
}

/// Whether entries `a` and `b` have equal keys in the sorting: each may stand before the other.
pub open spec fn same_key(a: TrackerEntry, b: TrackerEntry, sorting: Sorting, reverse: bool) -> bool {
    entry_le(a, b, sorting, reverse) && entry_le(b, a, sorting, reverse)
}

/// Inserting into sorted entries puts the entry after all entries with the same key as `key`.
proof fn lemma_insert_player_stable(sorted: Seq<TrackerEntry>, entry: TrackerEntry, key: TrackerEntry, sorting: Sorting, reverse: bool)
    requires
        players_sorted(sorted, sorting, reverse),
    ensures
        insert_player(sorted, entry, sorting, reverse).filter(|q: TrackerEntry| same_key(q, key, sorting, reverse))
            == sorted.push(entry).filter(|q: TrackerEntry| same_key(q, key, sorting, reverse)),
    decreases sorted.len(),
{
    let pred = |q: TrackerEntry| same_key(q, key, sorting, reverse);
    sorted.lemma_filter_push(entry, pred);
    if sorted.len() == 0 {
        assert(insert_player(sorted, entry, sorting, reverse) == sorted.push(entry));
    } else if !entry_le(sorted[0], entry, sorting, reverse) {
        assert(insert_player(sorted, entry, sorting, reverse) == seq![entry] + sorted);
        sorted.lemma_filter_prepend(entry, pred);
        if pred(entry) {
            assert forall|k: int| 0 <= k < sorted.len() implies !pred(#[trigger] sorted[k]) by {
                if pred(sorted[k]) {
                    lemma_entry_le_transitive(sorted[k], key, entry, sorting, reverse);
                    if k > 0 {
                        lemma_entry_le_transitive(sorted[0], sorted[k], entry, sorting, reverse);
                    }
                }
            }
            let neg = |q: TrackerEntry| !pred(q);
            assert(sorted.all(neg)) by {
                assert forall|k: int| 0 <= k < sorted.len() implies #[trigger] neg(sorted[k]) by {}
            }
            sorted.lemma_all_neg_filter_empty(pred);
            assert(sorted.filter(pred) =~= Seq::<TrackerEntry>::empty());
            assert(seq![entry] + Seq::<TrackerEntry>::empty() =~= Seq::<TrackerEntry>::empty().push(entry));
        } else {
            assert(Seq::<TrackerEntry>::empty() + sorted.filter(pred) =~= sorted.filter(pred));
        }
    } else {
        let rest = sorted.drop_first();
        assert forall|i: int, j: int| 0 <= i < j < rest.len() implies entry_le(#[trigger] rest[i], #[trigger] rest[j], sorting, reverse) by {
            assert(rest[i] == sorted[i + 1] && rest[j] == sorted[j + 1]);
        }
        lemma_insert_player_stable(rest, entry, key, sorting, reverse);
        let tail = insert_player(rest, entry, sorting, reverse);
        assert(insert_player(sorted, entry, sorting, reverse) == seq![sorted[0]] + tail);
        tail.lemma_filter_prepend(sorted[0], pred);
        rest.lemma_filter_prepend(sorted[0], pred);
        rest.lemma_filter_push(entry, pred);
        assert(sorted == seq![sorted[0]] + rest);
        let head = if pred(sorted[0]) { seq![sorted[0]] } else { Seq::<TrackerEntry>::empty() };
        if pred(entry) {
            assert(head + rest.filter(pred).push(entry) =~= (head + rest.filter(pred)).push(entry));
        }
    }
}

/// Sorting players is stable: the entries with the same key as `key` keep their relative order.
pub proof fn law_sort_players_stable(s: Seq<TrackerEntry>, key: TrackerEntry, sorting: Sorting, reverse: bool)
    ensures
        sort_players(s, sorting, reverse).filter(|q: TrackerEntry| same_key(q, key, sorting, reverse))
            == s.filter(|q: TrackerEntry| same_key(q, key, sorting, reverse)),
    decreases s.len(),
{
    if s.len() > 0 {
        let pred = |q: TrackerEntry| same_key(q, key, sorting, reverse);
        law_sort_players_stable(s.drop_last(), key, sorting, reverse);
        law_sort_players_sorted(s.drop_last(), sorting, reverse);
        lemma_insert_player_stable(sort_players(s.drop_last(), sorting, reverse), s.last(), key, sorting, reverse);
        sort_players(s.drop_last(), sorting, reverse).lemma_filter_push(s.last(), pred);
        s.drop_last().lemma_filter_push(s.last(), pred);
        assert(s == s.drop_last().push(s.last()));
    }
}

/// Checks whether entry `a` may stand before entry `b` in the sorting.
pub fn entry_before(a: &TrackerEntry, b: &TrackerEntry, sorting: Sorting, reverse: bool) -> (r: bool)
    ensures
        r == entry_le(*a, *b, sorting, reverse),
{
    let (first, second) = if reverse { (b, a) } else { (a, b) };
    match sorting {
        Sorting::Sub => first.player.subgroup <= second.player.subgroup,
        Sorting::Name => str_le(first.player.character.as_str(), second.player.character.as_str()),
        Sorting::Food => state_before(first.data.food.state, second.data.food.state),
        Sorting::Util => state_before(first.data.util.state, second.data.util.state),
        Sorting::Reinf => {
            let x = first.data.custom_state(REINFORCED);
            let y = second.data.custom_state(REINFORCED);
            match (x, y) {
                (BuffState::Unknown, _) => true,
                (BuffState::Empty, BuffState::Unknown) => false,
                (BuffState::Empty, _) => true,
                (BuffState::Applied(_), BuffState::Applied(_)) => true,
                (BuffState::Applied(_), _) => false,
            }
        },
    }
}

/// Checks whether buff state `a` may stand before buff state `b`.
fn state_before(a: BuffState<u32>, b: BuffState<u32>) -> (r: bool)
    ensures
        r == state_le(a, b),
{
    match (a, b) {
        (BuffState::Unknown, _) => true,
        (BuffState::Empty, BuffState::Unknown) => false,
        (BuffState::Empty, _) => true,
        (BuffState::Applied(x), BuffState::Applied(y)) => x <= y,
        (BuffState::Applied(_), _) => false,
    }
}

/// Sorts entries stably by the sorting column.
pub fn sort_entries(entries: Vec<TrackerEntry>, sorting: Sorting, reverse: bool) -> (r: Vec<TrackerEntry>)
    ensures
        r@ == sort_players(entries@, sorting, reverse),
{
    let mut sorted: Vec<TrackerEntry> = Vec::new();
    let ghost all = entries@;
    for entry in it: entries
        invariant
            it.seq() == all,
            sorted@ == sort_players(all.take(it.index() as int), sorting, reverse),
    {
        let ghost done = all.take(it.index() as int);
        let mut pos: usize = 0;
        while pos < sorted.len() && entry_before(&sorted[pos], &entry, sorting, reverse)
            invariant
                pos <= sorted.len(),
                forall|q: int| 0 <= q < pos ==> entry_le(#[trigger] sorted@[q], entry, sorting, reverse),
            decreases sorted.len() - pos,
        {
            pos = pos + 1;
        }
        proof {
            lemma_insert_player_at(sorted@, entry, sorting, reverse, pos as int);
            let next = all.take(it.index() + 1);
            assert(next.drop_last() == done);
            assert(next.last() == entry);
        }
        sorted.insert(pos, entry);
    }
    proof {
        assert(all.take(all.len() as int) == all);
    }
    sorted
}

/// The sorting of a table column, counting the subgroup column.
pub open spec fn column_sorting(index: int) -> Sorting
    recommends
        0 <= index < 4,
{
    if index == 0 {
        Sorting::Sub
    } else if index == 1 {
        Sorting::Name
    } else if index == 2 {
        Sorting::Food
    } else {
        Sorting::Util
    }
}

/// The index of a table column counting the subgroup column, which is shown if `show_sub`.
pub open spec fn column_index(column: usize, show_sub: bool) -> int {
    if show_sub { column as int } else { column + 1 }
}

/// Returns the sorting of a table column, shifted by one without the subgroup column.
///
/// Only the subgroup, name, food and utility columns are sortable.
pub fn sorting_for_column(column: usize, show_sub: bool) -> (r: Sorting)
    requires
        column_index(column, show_sub) < 4,
    ensures
        r == column_sorting(column_index(column, show_sub)),
{
    if show_sub {
        match column {
            0 => Sorting::Sub,
            1 => Sorting::Name,
            2 => Sorting::Food,
            _ => Sorting::Util,
        }
    } else {
        match column {
            0 => Sorting::Name,
            1 => Sorting::Food,
            _ => Sorting::Util,
        }
    }
}

/// The rank of a food or utility state in ascending order: unknown, then none, then applied
/// buffs by id.
pub open spec fn state_rank(state: BuffState<u32>) -> int {
    match state {
        BuffState::Unknown => 0,
        BuffState::Empty => 1,
        BuffState::Applied(id) => 2 + id,
    }
}

/// The rank of a Reinforced Armor state in ascending order: unknown, then none, then applied.
pub open spec fn reinf_rank(state: BuffState<()>) -> int {
    match state {
        BuffState::Unknown => 0,
        BuffState::Empty => 1,
        BuffState::Applied(_) => 2,
    }
}

/// Sorting by a column orders the entries by that column alone: by food state for the food
/// column, by utility state for the utility column, by subgroup for the subgroup column,
/// ascending unless reversed.
pub proof fn law_sort_by_column(s: Seq<TrackerEntry>, reverse: bool, i: int, j: int)
    requires
        0 <= i < j < s.len(),
    ensures
        ({
            let r = sort_players(s, Sorting::Food, reverse);
            let a = state_rank(r[i].data.food.state);
            let b = state_rank(r[j].data.food.state);
            if reverse { b <= a } else { a <= b }
        }),
        ({
            let r = sort_players(s, Sorting::Util, reverse);
            let a = state_rank(r[i].data.util.state);
            let b = state_rank(r[j].data.util.state);
            if reverse { b <= a } else { a <= b }
        }),
        ({
            let r = sort_players(s, Sorting::Sub, reverse);
            let a = r[i].player.subgroup;
            let b = r[j].player.subgroup;
            if reverse { b <= a } else { a <= b }
        }),
        ({
            let r = sort_players(s, Sorting::Name, reverse);
            let a = r[i].player.character@;
            let b = r[j].player.character@;
            if reverse { lex_le(b, a) } else { lex_le(a, b) }
        }),
        ({
            let r = sort_players(s, Sorting::Reinf, reverse);
            let a = reinf_rank(custom_or_default(r[i].data.custom@, REINFORCED).state);
            let b = reinf_rank(custom_or_default(r[j].data.custom@, REINFORCED).state);
            if reverse { b <= a } else { a <= b }
        }),
{
    law_sort_players_sorted(s, Sorting::Name, reverse);
    law_sort_players_sorted(s, Sorting::Reinf, reverse);
    law_sort_players_permutes(s, Sorting::Name, reverse);
    law_sort_players_permutes(s, Sorting::Reinf, reverse);
    let rn = sort_players(s, Sorting::Name, reverse);
    let rr = sort_players(s, Sorting::Reinf, reverse);
    assert(entry_le(rn[i], rn[j], Sorting::Name, reverse));
    assert(entry_le(rr[i], rr[j], Sorting::Reinf, reverse));
    law_sort_players_sorted(s, Sorting::Food, reverse);
    law_sort_players_sorted(s, Sorting::Util, reverse);
    law_sort_players_sorted(s, Sorting::Sub, reverse);
    law_sort_players_permutes(s, Sorting::Food, reverse);
    law_sort_players_permutes(s, Sorting::Util, reverse);
    law_sort_players_permutes(s, Sorting::Sub, reverse);
    let rf = sort_players(s, Sorting::Food, reverse);
    let ru = sort_players(s, Sorting::Util, reverse);
    let rs = sort_players(s, Sorting::Sub, reverse);
    assert(entry_le(rf[i], rf[j], Sorting::Food, reverse));
    assert(entry_le(ru[i], ru[j], Sorting::Util, reverse));
    assert(entry_le(rs[i], rs[j], Sorting::Sub, reverse));
}

} // verus!
