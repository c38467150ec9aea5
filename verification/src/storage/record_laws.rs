//! What holds of the record operations across calls: a save is read back,
//! a delete leaves nothing to read, other titles are untouched, ids handed
//! out are fresh and grow by one, and distinct titles stay distinct.

use crate::model::Snippet;
use crate::storage::records::{
    greatest_id, has_title, id_is, lemma_title_position, looked_up, next_id_after,
    same_records_per_id, saved, title_differs, title_position, without_title,
};
use vstd::prelude::*;

verus! {

/// No two records share a title.
pub open spec fn titles_distinct(all: Seq<Snippet>) -> bool {
    forall|i: int, j: int|
        0 <= i < j < all.len() ==> #[trigger] all[i].title@ != #[trigger] all[j].title@
}

/// `i` is the first index of a record with the title `title`.
pub open spec fn first_with_title(all: Seq<Snippet>, title: Seq<char>, i: int) -> bool {
    &&& 0 <= i < all.len()
    &&& all[i].title@ == title
    &&& forall|j: int| 0 <= j < i ==> #[trigger] all[j].title@ != title
}

/// Saving stores the snippet itself, exactly as given: in place of the first
/// record with its title, or as a new last record when no record has that
/// title; every other record stays as it was.
pub proof fn lemma_save_stores_the_snippet(all: Seq<Snippet>, snippet: Snippet)
    ensures
        forall|i: int|
            #[trigger] first_with_title(all, snippet.title@, i) ==> saved(all, snippet)
                == all.update(i, snippet),
        !has_title(all, snippet.title@) ==> saved(all, snippet) == all.push(snippet),
{
    let t = snippet.title@;
    lemma_title_position(all, t);
    assert forall|i: int| #[trigger] first_with_title(all, t, i) implies saved(all, snippet)
        == all.update(i, snippet) by {
        match title_position(all, t) {
            Some(k) => {
                if k < i {
                    assert(all[k].title@ != t);
                } else if k > i {
                    assert(all[i].title@ != t);
                }
            },
            None => {
                assert(all[i].title@ != t);
            },
        }
    }
    if !has_title(all, t) {
        match title_position(all, t) {
            Some(k) => {
                assert(all[k].title@ == t);
            },
            None => {},
        }
    }
}

/// A lookup gives the first record with the title, exactly as it is stored,
/// and nothing when no record has the title.
pub proof fn lemma_lookup_is_first_record(all: Seq<Snippet>, title: Seq<char>)
    ensures
        forall|i: int| #[trigger] first_with_title(all, title, i) ==> looked_up(all, title) == Some(
            all[i],
        ),
        !has_title(all, title) ==> looked_up(all, title) is None,
{
    lemma_title_position(all, title);
    assert forall|i: int| #[trigger] first_with_title(all, title, i) implies looked_up(all, title)
        == Some(all[i]) by {
        match title_position(all, title) {
            Some(k) => {
                if k < i {
                    assert(all[k].title@ != title);
                } else if k > i {
                    assert(all[i].title@ != title);
                }
            },
            None => {
                assert(all[i].title@ != title);
            },
        }
    }
    if !has_title(all, title) {
        match title_position(all, title) {
            Some(k) => {
                assert(all[k].title@ == title);
            },
            None => {},
        }
    }
}

/// Looking up the title of a snippet just saved gives that snippet back.
pub proof fn lemma_lookup_after_save(all: Seq<Snippet>, snippet: Snippet)
    ensures
        looked_up(saved(all, snippet), snippet.title@) == Some(snippet),
{
    let t = snippet.title@;
    let after = saved(all, snippet);
    lemma_title_position(all, t);
    lemma_title_position(after, t);
    match title_position(all, t) {
        Some(i) => {
            assert(after[i] == snippet);
            assert forall|j: int| 0 <= j < i implies #[trigger] after[j].title@ != t by {
                assert(after[j] == all[j]);
            }
        },
        None => {
            assert(after[all.len() as int] == snippet);
            assert forall|j: int| 0 <= j < all.len() implies #[trigger] after[j].title@ != t by {
                assert(after[j] == all[j]);
            }
        },
    }
}

/// Saving a snippet leaves what a lookup of any other title gives.
pub proof fn lemma_save_keeps_other_titles(all: Seq<Snippet>, snippet: Snippet, title: Seq<char>)
    requires
        title != snippet.title@,
    ensures
        looked_up(saved(all, snippet), title) == looked_up(all, title),
{
    let after = saved(all, snippet);
    lemma_title_position(all, title);
    lemma_title_position(after, title);
    lemma_title_position(all, snippet.title@);
    assert forall|j: int| 0 <= j < after.len() && #[trigger] after[j].title@ == title implies j
        < all.len() && after[j] == all[j] by {
        if j < all.len() {
            if title_position(all, snippet.title@) == Some(j) {
                assert(after[j] == snippet);
            }
        } else {
            assert(after[j] == snippet);
        }
    }
    assert forall|j: int| 0 <= j < all.len() && #[trigger] all[j].title@ == title implies after[j]
        == all[j] by {
        if title_position(all, snippet.title@) == Some(j) {
            assert(all[j].title@ == snippet.title@);
        }
    }
    match title_position(all, title) {
        Some(i) => {
            assert(after[i] == all[i]);
            match title_position(after, title) {
                Some(k) => {
                    assert(after[k] == all[k]);
                    if k < i {
                        assert(all[k].title@ != title);
                    } else if k > i {
                        assert(after[i].title@ != title);
                    }
                },
                None => {
                    assert(after[i].title@ != title);
                },
            }
        },
        None => {
            match title_position(after, title) {
                Some(k) => {
                    assert(all[k].title@ != title);
                },
                None => {},
            }
        },
    }
}

/// Saving under a title that is already present keeps the number of
/// records; saving under a new title adds one record.
pub proof fn lemma_save_count(all: Seq<Snippet>, snippet: Snippet)
    ensures
        saved(all, snippet).len() == if has_title(all, snippet.title@) {
            all.len()
        } else {
            all.len() + 1
        },
{
    lemma_title_position(all, snippet.title@);
    match title_position(all, snippet.title@) {
        Some(i) => {
            assert(all[i].title@ == snippet.title@);
        },
        None => {},
    }
}

/// After deleting a title no record has it, so a lookup of it gives nothing.
pub proof fn lemma_lookup_after_delete(all: Seq<Snippet>, title: Seq<char>)
    ensures
        !has_title(without_title(all, title), title),
        looked_up(without_title(all, title), title) is None,
{
    let after = without_title(all, title);
    broadcast use vstd::seq_lib::group_filter_ensures;

    assert forall|i: int| 0 <= i < after.len() implies #[trigger] after[i].title@ != title by {
        assert(title_differs(title)(after[i]));
    }
    lemma_title_position(after, title);
}

/// Deleting a title leaves what a lookup of any other title gives.
pub proof fn lemma_delete_keeps_other_titles(
    all: Seq<Snippet>,
    title: Seq<char>,
    other: Seq<char>,
)
    requires
        other != title,
    ensures
        looked_up(without_title(all, title), other) == looked_up(all, other),
    decreases all.len(),
{
    reveal(Seq::filter);
    let f = title_differs(title);
    if all.len() > 0 {
        let rest = all.drop_last();
        let x = all.last();
        lemma_delete_keeps_other_titles(rest, title, other);
        let fr = rest.filter(f);
        lemma_title_position(rest, other);
        lemma_title_position(fr, other);
        if f(x) {
            let fa = fr.push(x);
            assert(all.filter(f) == fa);
            assert(fa.drop_last() =~= fr);
            match title_position(fr, other) {
                Some(i) => {
                    assert(fa[i] == fr[i]);
                },
                None => {},
            }
        } else {
            assert(all.filter(f) == fr);
            assert(x.title@ == title);
        }
        match title_position(rest, other) {
            Some(i) => {
                assert(all[i] == rest[i]);
            },
            None => {},
        }
    }
}

/// Every record's id is below the id handed out next.
pub proof fn lemma_next_id_is_fresh(all: Seq<Snippet>)
    ensures
        forall|i: int| 0 <= i < all.len() ==> #[trigger] all[i].id < next_id_after(all),
{
    lemma_greatest_id(all);
}

/// `greatest_id` is the greatest of the ids.
proof fn lemma_greatest_id(all: Seq<Snippet>)
    ensures
        match greatest_id(all) {
            None => all.len() == 0,
            Some(m) => (exists|i: int| 0 <= i < all.len() && #[trigger] all[i].id == m) && forall|
                i: int,
            | 0 <= i < all.len() ==> #[trigger] all[i].id <= m,
        },
    decreases all.len(),
{
    if all.len() > 0 {
        let rest = all.drop_last();
        lemma_greatest_id(rest);
        assert forall|i: int| 0 <= i < rest.len() implies #[trigger] rest[i] == all[i] by {}
        let last = all.len() - 1;
        assert(all[last] == all.last());
        match greatest_id(rest) {
            None => {
                assert(greatest_id(all) == Some(all[last].id));
                assert forall|i: int| 0 <= i < all.len() implies #[trigger] all[i].id
                    <= all[last].id by {}
            },
            Some(m) => {
                let w = choose|i: int| 0 <= i < rest.len() && #[trigger] rest[i].id == m;
                assert(all[w].id == m);
                if all[last].id > m {
                    assert(greatest_id(all) == Some(all[last].id));
                    assert forall|i: int| 0 <= i < all.len() implies #[trigger] all[i].id
                        <= all[last].id by {
                        if i < last {
                            assert(rest[i].id <= m);
                        }
                    }
                } else {
                    assert(greatest_id(all) == Some(m));
                    assert forall|i: int| 0 <= i < all.len() implies #[trigger] all[i].id <= m by {
                        if i < last {
                            assert(rest[i].id <= m);
                        }
                    }
                }
            },
        }
    }
}

/// The greatest id is the one that is present and bounds all the others.
proof fn lemma_greatest_id_is(all: Seq<Snippet>, w: int)
    requires
        0 <= w < all.len(),
        forall|i: int| 0 <= i < all.len() ==> #[trigger] all[i].id <= all[w].id,
    ensures
        greatest_id(all) == Some(all[w].id),
{
    lemma_greatest_id(all);
    match greatest_id(all) {
        Some(m) => {
            let v = choose|i: int| 0 <= i < all.len() && #[trigger] all[i].id == m;
            assert(all[v].id <= all[w].id);
            assert(all[w].id <= m);
        },
        None => {},
    }
}

/// Saving a snippet that carries the id handed out next makes the next id
/// one greater: ids handed out in turn increase by one.
pub proof fn lemma_next_id_after_save(all: Seq<Snippet>, snippet: Snippet)
    requires
        snippet.id == next_id_after(all),
    ensures
        next_id_after(saved(all, snippet)) == snippet.id + 1,
{
    let after = saved(all, snippet);
    lemma_next_id_is_fresh(all);
    lemma_title_position(all, snippet.title@);
    let w = match title_position(all, snippet.title@) {
        Some(i) => i,
        None => all.len() as int,
    };
    assert(after[w] == snippet);
    assert forall|i: int| 0 <= i < after.len() implies #[trigger] after[i].id <= after[w].id by {
        if i != w {
            assert(after[i] == all[i]);
        }
    }
    lemma_greatest_id_is(after, w);
}

/// Saving keeps distinct titles distinct.
pub proof fn lemma_save_keeps_titles_distinct(all: Seq<Snippet>, snippet: Snippet)
    requires
        titles_distinct(all),
    ensures
        titles_distinct(saved(all, snippet)),
{
    let t = snippet.title@;
    let after = saved(all, snippet);
    lemma_title_position(all, t);
    match title_position(all, t) {
        Some(w) => {
            assert forall|i: int, j: int| 0 <= i < j < after.len() implies #[trigger] after[i].title@
                != #[trigger] after[j].title@ by {
                if i == w {
                    assert(all[j].title@ != all[w].title@);
                } else if j == w {
                    assert(all[i].title@ != all[w].title@);
                } else {
                    assert(all[i].title@ != all[j].title@);
                }
            }
        },
        None => {
            assert forall|i: int, j: int| 0 <= i < j < after.len() implies #[trigger] after[i].title@
                != #[trigger] after[j].title@ by {
                if j == all.len() {
                    assert(after[i] == all[i]);
                } else {
                    assert(all[i].title@ != all[j].title@);
                }
            }
        },
    }
}

/// Deleting keeps distinct titles distinct.
pub proof fn lemma_delete_keeps_titles_distinct(all: Seq<Snippet>, title: Seq<char>)
    requires
        titles_distinct(all),
    ensures
        titles_distinct(without_title(all, title)),
    decreases all.len(),
{
    reveal(Seq::filter);
    let f = title_differs(title);
    if all.len() > 0 {
        let rest = all.drop_last();
        let x = all.last();
        assert forall|i: int, j: int| 0 <= i < j < rest.len() implies #[trigger] rest[i].title@
            != #[trigger] rest[j].title@ by {
            assert(rest[i] == all[i] && rest[j] == all[j]);
        }
        lemma_delete_keeps_titles_distinct(rest, title);
        let fr = rest.filter(f);
        if f(x) {
            let fa = fr.push(x);
            assert forall|i: int, j: int| 0 <= i < j < fa.len() implies #[trigger] fa[i].title@
                != #[trigger] fa[j].title@ by {
                if j == fr.len() {
                    assert(fa[i] == fr[i]);
                    assert(fr.contains(fr[i]));
                    rest.lemma_filter_contains_rev(f, fr[i]);
                    let k = choose|k: int| 0 <= k < rest.len() && rest[k] == fr[i];
                    assert(all[k] == rest[k]);
                    assert(all[k].title@ != all[all.len() - 1].title@);
                } else {
                    assert(fa[i] == fr[i] && fa[j] == fr[j]);
                }
            }
        }
    }
}

/// A record is counted as often among the records that a filter keeps as
/// among all records, when the filter keeps it.
proof fn lemma_count_in_filter(all: Seq<Snippet>, f: spec_fn(Snippet) -> bool, e: Snippet)
    requires
        f(e),
    ensures
        all.filter(f).to_multiset().count(e) == all.to_multiset().count(e),
    decreases all.len(),
{
    reveal(Seq::filter);
    broadcast use vstd::seq_lib::group_to_multiset_ensures;
    broadcast use vstd::multiset::group_multiset_axioms;

    if all.len() > 0 {
        let rest = all.drop_last();
        let x = all.last();
        lemma_count_in_filter(rest, f, e);
        assert(all =~= rest.push(x));
    }
}

/// Records that agree id by id, as a stable sort leaves them, are the same
/// records: none is gained or lost.
pub proof fn lemma_same_records_per_id_same_multiset(before: Seq<Snippet>, after: Seq<Snippet>)
    requires
        same_records_per_id(before, after),
    ensures
        after.to_multiset() == before.to_multiset(),
{
    assert forall|e: Snippet| after.to_multiset().count(e) == before.to_multiset().count(e) by {
        let f = id_is(e.id);
        assert(after.filter(f) == before.filter(f));
        lemma_count_in_filter(after, f, e);
        lemma_count_in_filter(before, f, e);
    }
    assert(after.to_multiset() =~= before.to_multiset());
}

} // verus!
