use crate::model::Snippet;
use crate::storage::record_laws::{
    first_with_title, lemma_lookup_is_first_record, lemma_save_stores_the_snippet,
};
use vstd::prelude::*;

verus! {

/// The index of the first record whose title is `title`, if any.
pub open spec fn title_position(all: Seq<Snippet>, title: Seq<char>) -> Option<int>
    decreases all.len(),
{
    if all.len() == 0 {
        None
    } else {
        match title_position(all.drop_last(), title) {
            Some(i) => Some(i),
            None => if all.last().title@ == title {
                Some(all.len() - 1)
            } else {
                None
            },
        }
    }
}

/// Whether some record has the title `title`.
pub open spec fn has_title(all: Seq<Snippet>, title: Seq<char>) -> bool {
    exists|i: int| 0 <= i < all.len() && #[trigger] all[i].title@ == title
}

/// The records after saving `snippet`: it replaces the first record with its
/// title, or is appended when no record has that title.
pub open spec fn saved(all: Seq<Snippet>, snippet: Snippet) -> Seq<Snippet> {
    match title_position(all, snippet.title@) {
        Some(i) => all.update(i, snippet),
        None => all.push(snippet),
    }
}

/// The first record with the title `title`, if any.
pub open spec fn looked_up(all: Seq<Snippet>, title: Seq<char>) -> Option<Snippet> {
    match title_position(all, title) {
        Some(i) => Some(all[i]),
        None => None,
    }
}

/// Keeps the records whose title is not `title`.
pub open spec fn title_differs(title: Seq<char>) -> spec_fn(Snippet) -> bool {
    |s: Snippet| s.title@ != title
}

/// The records after deleting every record with the title `title`, the
/// others kept in their order.
pub open spec fn without_title(all: Seq<Snippet>, title: Seq<char>) -> Seq<Snippet> {
    all.filter(title_differs(title))
}

/// The greatest id among the records, if there is any record.
pub open spec fn greatest_id(all: Seq<Snippet>) -> Option<i64>
    decreases all.len(),
{
    if all.len() == 0 {
        None
    } else {
        match greatest_id(all.drop_last()) {
            None => Some(all.last().id),
            Some(m) => Some(if all.last().id > m { all.last().id } else { m }),
        }
    }
}

/// The id that the next new snippet gets: one more than the greatest id, or
/// 1 when there are no records.
pub open spec fn next_id_after(all: Seq<Snippet>) -> int {
    match greatest_id(all) {
        None => 1,
        Some(m) => m + 1,
    }
}

/// No record holds the greatest `i64`, so that one more than any id fits.
pub open spec fn ids_below_max(all: Seq<Snippet>) -> bool {
    forall|i: int| 0 <= i < all.len() ==> #[trigger] all[i].id < i64::MAX
}

/// Picks the records whose id is `k`.
pub open spec fn id_is(k: i64) -> spec_fn(Snippet) -> bool {
    |s: Snippet| s.id == k
}

/// The records are in ascending order of id.
pub open spec fn sorted_by_id(all: Seq<Snippet>) -> bool {
    forall|i: int, j: int| 0 <= i <= j < all.len() ==> #[trigger] all[i].id <= #[trigger] all[j].id
}

/// For every id, the records with that id come in the same order in `after`
/// as in `before`, and no such record is gained or lost.
pub open spec fn same_records_per_id(before: Seq<Snippet>, after: Seq<Snippet>) -> bool {
    forall|k: i64| #[trigger] after.filter(id_is(k)) == before.filter(id_is(k))
}

/// Inserting `x` in front of the first record with a greater id keeps sorted
/// records sorted.
proof fn lemma_insert_keeps_sorted(p: Seq<Snippet>, j: int, x: Snippet)
    requires
        0 <= j <= p.len(),
        sorted_by_id(p),
        forall|t: int| 0 <= t < j ==> #[trigger] p[t].id <= x.id,
        j < p.len() ==> p[j].id > x.id,
    ensures
        sorted_by_id(p.insert(j, x)),
{
    let q = p.insert(j, x);
    assert forall|a: int, b: int| 0 <= a <= b < q.len() implies #[trigger] q[a].id
        <= #[trigger] q[b].id by {
        if a < j {
            assert(q[a] == p[a]);
            if b < j {
                assert(q[b] == p[b]);
            } else if b > j {
                assert(q[b] == p[b - 1]);
                assert(p[a].id <= p[b - 1].id);
            }
        } else if a == j {
            if b > j {
                assert(q[b] == p[b - 1]);
                assert(p[j].id <= p[b - 1].id);
            }
        } else {
            assert(q[a] == p[a - 1]);
            assert(q[b] == p[b - 1]);
            assert(p[a - 1].id <= p[b - 1].id);
        }
    }
}

/// Inserting `x` in front of the first record with a greater id puts it
/// after every record with the same id, and leaves the other ids alone.
proof fn lemma_insert_keeps_id_order(p: Seq<Snippet>, j: int, x: Snippet, k: i64)
    requires
        0 <= j <= p.len(),
        sorted_by_id(p),
        forall|t: int| 0 <= t < j ==> #[trigger] p[t].id <= x.id,
        j < p.len() ==> p[j].id > x.id,
    ensures
        p.insert(j, x).filter(id_is(k)) == if x.id == k {
            p.filter(id_is(k)).push(x)
        } else {
            p.filter(id_is(k))
        },
{
    let f = id_is(k);
    let front = p.take(j);
    let back = p.skip(j);
    assert(p =~= front + back);
    assert(p.insert(j, x) =~= front.push(x) + back);
    Seq::filter_distributes_over_add(front, back, f);
    Seq::filter_distributes_over_add(front.push(x), back, f);
    front.lemma_filter_push(x, f);
    if x.id == k {
        assert forall|t: int| 0 <= t < back.len() implies !f(#[trigger] back[t]) by {
            assert(back[t] == p[j + t]);
            assert(p[j].id <= p[j + t].id);
        }
        assert(back.all(|y: Snippet| !f(y)));
        back.lemma_all_neg_filter_empty(f);
        assert(back.filter(f) =~= Seq::<Snippet>::empty());
        assert(front.filter(f) + back.filter(f) =~= front.filter(f));
        assert(front.filter(f).push(x) + back.filter(f) =~= front.filter(f).push(x));
    }
}

/// `title_position` is the first index that holds the title.
pub proof fn lemma_title_position(all: Seq<Snippet>, title: Seq<char>)
    ensures
        match title_position(all, title) {
            Some(i) => 0 <= i < all.len() && all[i].title@ == title && forall|j: int|
                0 <= j < i ==> #[trigger] all[j].title@ != title,
            None => forall|j: int| 0 <= j < all.len() ==> #[trigger] all[j].title@ != title,
        },
    decreases all.len(),
{
    if all.len() > 0 {
        let prefix = all.drop_last();
        lemma_title_position(prefix, title);
        assert forall|j: int| 0 <= j < prefix.len() implies #[trigger] prefix[j] == all[j] by {}
        match title_position(prefix, title) {
            Some(i) => {
                assert(prefix[i] == all[i]);
                assert forall|j: int| 0 <= j < i implies #[trigger] all[j].title@ != title by {
                    assert(prefix[j] == all[j]);
                }
            },
            None => {
                assert forall|j: int| 0 <= j < all.len() - 1 implies #[trigger] all[j].title@
                    != title by {
                    assert(prefix[j] == all[j]);
                }
            },
        }
    }
}

/// The index of the first record whose title is `title`.
fn position_of_title(all: &Vec<Snippet>, title: &String) -> (r: Option<usize>)
    ensures
        r matches Some(i) ==> i < all@.len(),
        match r {
            Some(i) => title_position(all@, title@) == Some(i as int),
            None => title_position(all@, title@) is None,
        },
{
    proof {
        lemma_title_position(all@, title@);
    }
    let mut i: usize = 0;
    while i < all.len()
        invariant
            i <= all@.len(),
            forall|j: int| 0 <= j < i ==> #[trigger] all@[j].title@ != title@,
            match title_position(all@, title@) {
                Some(k) => 0 <= k < all@.len() && all@[k].title@ == title@ && forall|j: int|
                    0 <= j < k ==> #[trigger] all@[j].title@ != title@,
                None => forall|j: int| 0 <= j < all@.len() ==> #[trigger] all@[j].title@ != title@,
            },
        decreases all@.len() - i,
    {
        if all[i].title == *title {
            return Some(i);
        }
        i += 1;
    }
    None
}

/// Saves `snippet` into the records: it takes the place of the first record
/// with the same title, or is appended when there is none.
pub fn save_by_title(all: &mut Vec<Snippet>, snippet: Snippet)
    ensures
        final(all)@ == saved(old(all)@, snippet),
        forall|i: int|
            #[trigger] first_with_title(old(all)@, snippet.title@, i) ==> final(all)@ == old(
                all,
            )@.update(i, snippet),
        !has_title(old(all)@, snippet.title@) ==> final(all)@ == old(all)@.push(snippet),
{
    proof {
        lemma_save_stores_the_snippet(all@, snippet);
    }
    match position_of_title(all, &snippet.title) {
        Some(i) => all.set(i, snippet),
        None => all.push(snippet),
    }
}

/// The first record with the title `title`, taken out of the records.
pub fn get_by_title(all: Vec<Snippet>, title: &str) -> (r: Option<Snippet>)
    ensures
        r == looked_up(all@, title@),
        forall|i: int| #[trigger] first_with_title(all@, title@, i) ==> r == Some(all@[i]),
        !has_title(all@, title@) ==> r is None,
{
    proof {
        lemma_lookup_is_first_record(all@, title@);
    }
    let wanted = title.to_owned();
    let mut all = all;
    match position_of_title(&all, &wanted) {
        Some(i) => Some(all.swap_remove(i)),
        None => None,
    }
}

/// Deletes every record with the title `title`, keeping the others in their
/// order; tells whether any record was deleted.
pub fn delete_by_title(all: &mut Vec<Snippet>, title: &str) -> (deleted: bool)
    ensures
        final(all)@ == without_title(old(all)@, title@),
        deleted == has_title(old(all)@, title@),
{
    let wanted = title.to_owned();
    let before = all.len();
    let mut rest: Vec<Snippet> = Vec::new();
    std::mem::swap(all, &mut rest);
    let ghost old_all = rest@;
    for s in it: rest.into_iter()
        invariant
            old_all == old(all)@,
            wanted@ == title@,
            before == old_all.len(),
            it.seq() == old_all,
            all@ == old_all.take(it.index() as int).filter(title_differs(title@)),
            all@.len() <= it.index(),
            (all@.len() == it.index()) <==> forall|j: int|
                0 <= j < it.index() ==> #[trigger] old_all[j].title@ != title@,
    {
        let ghost k = it.index() as int;
        proof {
            assert(old_all.take(k + 1).drop_last() =~= old_all.take(k));
            assert(old_all.take(k + 1) =~= old_all.take(k).push(old_all[k]));
            old_all.take(k).lemma_filter_push(old_all[k], title_differs(title@));
        }
        if s.title != wanted {
            all.push(s);
        }
    }
    proof {
        assert(old_all.take(old_all.len() as int) =~= old_all);
    }
    all.len() != before
}

/// The id for the next new snippet: one more than the greatest id in the
/// records, or 1 when there are none.
pub fn next_id(all: &Vec<Snippet>) -> (id: i64)
    requires
        ids_below_max(all@),
    ensures
        id == next_id_after(all@),
{
    let mut greatest: Option<i64> = None;
    let mut i: usize = 0;
    while i < all.len()
        invariant
            i <= all@.len(),
            ids_below_max(all@),
            greatest == greatest_id(all@.take(i as int)),
            greatest matches Some(m) ==> m < i64::MAX,
        decreases all@.len() - i,
    {
        proof {
            assert(all@.take(i + 1).drop_last() =~= all@.take(i as int));
        }
        let id = all[i].id;
        greatest = match greatest {
            None => Some(id),
            Some(m) => Some(if id > m { id } else { m }),
        };
        i += 1;
    }
    proof {
        assert(all@.take(all@.len() as int) =~= all@);
    }
    match greatest {
        None => 1,
        Some(m) => m + 1,
    }
}

/// Puts the records in ascending order of id. The sort is stable: records
/// with the same id keep their order.
pub fn sort_by_id(all: &mut Vec<Snippet>)
    ensures
        final(all)@.len() == old(all)@.len(),
        sorted_by_id(final(all)@),
        same_records_per_id(old(all)@, final(all)@),
{
    let ghost start = all@;
    let n = all.len();
    let mut i: usize = 0;
    while i < n
        invariant
            n == start.len(),
            i <= n,
            all@.len() == n,
            sorted_by_id(all@.take(i as int)),
            same_records_per_id(start.take(i as int), all@.take(i as int)),
            all@.skip(i as int) == start.skip(i as int),
        decreases n - i,
    {
        let ghost before = all@;
        let ghost p = all@.take(i as int);
        proof {
            assert(before[i as int] == before.skip(i as int)[0]);
        }
        let x = all.remove(i);
        proof {
            assert(x == start[i as int]);
            assert forall|t: int| 0 <= t < i implies #[trigger] all@[t] == p[t] by {}
        }
        let mut j: usize = 0;
        while j < i && all[j].id <= x.id
            invariant
                j <= i,
                i < n,
                all@.len() == n - 1,
                forall|t: int| 0 <= t < i ==> #[trigger] all@[t] == p[t],
                forall|t: int| 0 <= t < j ==> #[trigger] p[t].id <= x.id,
            decreases i - j,
        {
            j += 1;
        }
        let ghost rest = all@;
        all.insert(j, x);
        proof {
            assert(p.len() == i);
            assert(j < i ==> p[j as int].id > x.id);
            lemma_insert_keeps_sorted(p, j as int, x);
            assert(rest =~= p + start.skip(i + 1)) by {
                assert forall|t: int| i <= t < rest.len() implies #[trigger] rest[t]
                    == start.skip(i + 1)[t - i] by {
                    assert(rest[t] == before[t + 1]);
                    assert(before.skip(i as int)[t + 1 - i] == start.skip(i as int)[t + 1 - i]);
                }
            }
            assert(all@ =~= p.insert(j as int, x) + start.skip(i + 1));
            assert(all@.take(i + 1) =~= p.insert(j as int, x));
            assert(all@.skip(i + 1) =~= start.skip(i + 1));
            assert(start.take(i + 1) =~= start.take(i as int).push(x));
            assert forall|k: i64| #[trigger] all@.take(i + 1).filter(id_is(k)) == start.take(
                i + 1,
            ).filter(id_is(k)) by {
                lemma_insert_keeps_id_order(p, j as int, x, k);
                start.take(i as int).lemma_filter_push(x, id_is(k));
            }
        }
        i += 1;
    }
    proof {
        assert(all@.take(n as int) =~= all@);
        assert(start.take(n as int) =~= start);
    }
}

} // verus!
