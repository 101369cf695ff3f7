//! General properties of the store model, stated and proved once over
//! the mathematical values, and used by the executable operations.

use vstd::prelude::*;
use vstd::assert_seqs_equal;
use vstd::assert_sets_equal;
use crate::quote::QuoteView;
use crate::store::{contains_qid, ids, unique_ids, update_all};

verus! {

/// Appending a record with a fresh identifier keeps identifiers unique,
/// grows the store by exactly one record, and adds exactly that
/// identifier to the identifier set.
pub proof fn lemma_create_adds_id(s: Seq<QuoteView>, q: QuoteView)
    requires
        unique_ids(s),
        !contains_qid(s, q.id),
    ensures
        unique_ids(s.push(q)),
        ids(s.push(q)) == ids(s).insert(q.id),
        s.push(q).len() == s.len() + 1,
{
    let t = s.push(q);
    assert forall|i: int, j: int|
        0 <= i < t.len() && 0 <= j < t.len() && t[i].id == t[j].id implies i == j by {
        if i < s.len() && j < s.len() {
            assert(s[i].id == s[j].id);
        } else if i < s.len() && j == s.len() {
            assert(s[i].id == q.id);
            assert(contains_qid(s, q.id));
        } else if j < s.len() && i == s.len() {
            assert(s[j].id == q.id);
            assert(contains_qid(s, q.id));
        }
    }
    assert_sets_equal!(ids(t) == ids(s).insert(q.id), x => {
        if contains_qid(t, x) {
            let i = choose|i: int| 0 <= i < t.len() && t[i].id == x;
            if i < s.len() {
                assert(contains_qid(s, x));
            } else {
                assert(x == q.id);
            }
        }
        if contains_qid(s, x) {
            let i = choose|i: int| 0 <= i < s.len() && s[i].id == x;
            assert(t[i].id == x);
            assert(contains_qid(t, x));
        }
        if x == q.id {
            assert(t[s.len() as int].id == x);
            assert(contains_qid(t, x));
        }
    });
}

/// With unique identifiers, a store of N records has exactly N distinct
/// identifiers: read-all after N successful creates and zero deletes
/// returns exactly N records, equal as a set of identifiers to the N
/// identifiers the creates assigned.
pub proof fn lemma_unique_ids_count(s: Seq<QuoteView>)
    requires
        unique_ids(s),
    ensures
        ids(s).finite(),
        ids(s).len() == s.len(),
    decreases s.len(),
{
    if s.len() == 0 {
        assert_sets_equal!(ids(s) == Set::<u128>::empty(), x => {
            if contains_qid(s, x) {
                let i = choose|i: int| 0 <= i < s.len() && s[i].id == x;
                assert(false);
            }
        });
    } else {
        let prefix = s.drop_last();
        let q = s.last();
        assert forall|i: int, j: int|
            0 <= i < prefix.len() && 0 <= j < prefix.len() && prefix[i].id == prefix[j].id
            implies i == j by {
            assert(s[i].id == s[j].id);
        }
        assert(!contains_qid(prefix, q.id)) by {
            if contains_qid(prefix, q.id) {
                let i = choose|i: int| 0 <= i < prefix.len() && prefix[i].id == q.id;
                assert(s[i].id == s[s.len() - 1].id);
            }
        }
        lemma_unique_ids_count(prefix);
        lemma_create_adds_id(prefix, q);
        assert_seqs_equal!(s == prefix.push(q));
    }
}

/// Updating an identifier that no record carries changes nothing.
pub proof fn lemma_update_missing(
    s: Seq<QuoteView>,
    id: u128,
    author: Seq<char>,
    quote: Seq<char>,
    now: int,
)
    requires
        !contains_qid(s, id),
    ensures
        update_all(s, id, author, quote, now) == s,
{
    assert_seqs_equal!(update_all(s, id, author, quote, now) == s, j => {
        assert(s[j].id != id);
    });
}

/// An update never changes which identifiers the store holds, nor their
/// uniqueness: every record keeps its identifier.
pub proof fn lemma_update_keeps_ids(
    s: Seq<QuoteView>,
    id: u128,
    author: Seq<char>,
    quote: Seq<char>,
    now: int,
)
    requires
        unique_ids(s),
    ensures
        unique_ids(update_all(s, id, author, quote, now)),
        ids(update_all(s, id, author, quote, now)) == ids(s),
        update_all(s, id, author, quote, now).len() == s.len(),
{
    let t = update_all(s, id, author, quote, now);
    assert forall|j: int| 0 <= j < t.len() implies t[j].id == s[j].id by {}
    assert forall|j: int, k: int|
        0 <= j < t.len() && 0 <= k < t.len() && t[j].id == t[k].id implies j == k by {
        assert(s[j].id == s[k].id);
    }
    assert_sets_equal!(ids(t) == ids(s), x => {
        if contains_qid(t, x) {
            let j = choose|j: int| 0 <= j < t.len() && t[j].id == x;
            assert(s[j].id == x);
            assert(contains_qid(s, x));
        }
        if contains_qid(s, x) {
            let j = choose|j: int| 0 <= j < s.len() && s[j].id == x;
            assert(t[j].id == x);
            assert(contains_qid(t, x));
        }
    });
}

/// Updating an existing identifier leaves that record's identifier and
/// `inserted_at` unchanged, sets its author and quote to the new values,
/// and, the new timestamp being no earlier than the previous one, moves
/// `updated_at` forward; every other record is untouched, identifiers
/// stay unique, and the identifier set is unchanged.
pub proof fn lemma_update_existing(
    s: Seq<QuoteView>,
    id: u128,
    author: Seq<char>,
    quote: Seq<char>,
    now: int,
    i: int,
)
    requires
        unique_ids(s),
        0 <= i < s.len(),
        s[i].id == id,
        now >= s[i].updated_at,
    ensures
        update_all(s, id, author, quote, now).len() == s.len(),
        update_all(s, id, author, quote, now)[i].id == id,
        update_all(s, id, author, quote, now)[i].inserted_at == s[i].inserted_at,
        update_all(s, id, author, quote, now)[i].author == author,
        update_all(s, id, author, quote, now)[i].quote == quote,
        update_all(s, id, author, quote, now)[i].updated_at == now,
        update_all(s, id, author, quote, now)[i].updated_at >= s[i].updated_at,
        forall|j: int| 0 <= j < s.len() && j != i ==> update_all(s, id, author, quote, now)[j] == s[j],
        unique_ids(update_all(s, id, author, quote, now)),
        ids(update_all(s, id, author, quote, now)) == ids(s),
{
    let t = update_all(s, id, author, quote, now);
    assert forall|j: int| 0 <= j < s.len() && j != i implies t[j] == s[j] by {
        assert(s[j].id != id);
    }
    lemma_update_keeps_ids(s, id, author, quote, now);
}

/// Removing the record at the position of an existing identifier removes
/// exactly that record: the identifier is then absent (so repeating the
/// same delete finds nothing), every other identifier is kept,
/// identifiers stay unique, and the store shrinks by exactly one record.
pub proof fn lemma_delete_removes(s: Seq<QuoteView>, id: u128, i: int)
    requires
        unique_ids(s),
        0 <= i < s.len(),
        s[i].id == id,
    ensures
        unique_ids(s.remove(i)),
        !contains_qid(s.remove(i), id),
        ids(s.remove(i)) == ids(s).remove(id),
        forall|x: u128| x != id ==> (contains_qid(s.remove(i), x) <==> contains_qid(s, x)),
        s.remove(i).len() == s.len() - 1,
{
    let t = s.remove(i);
    // each position of `t` is a position of `s` other than `i`
    assert forall|j: int| 0 <= j < t.len() implies (t[j] == s[if j < i { j } else { j + 1 }]) by {}
    assert forall|j: int, k: int|
        0 <= j < t.len() && 0 <= k < t.len() && t[j].id == t[k].id implies j == k by {
        let j0 = if j < i { j } else { j + 1 };
        let k0 = if k < i { k } else { k + 1 };
        assert(s[j0].id == s[k0].id);
    }
    assert(!contains_qid(t, id)) by {
        if contains_qid(t, id) {
            let j = choose|j: int| 0 <= j < t.len() && t[j].id == id;
            let j0 = if j < i { j } else { j + 1 };
            assert(s[j0].id == s[i].id);
        }
    }
    assert forall|x: u128| x != id implies (contains_qid(t, x) <==> contains_qid(s, x)) by {
        if contains_qid(t, x) {
            let j = choose|j: int| 0 <= j < t.len() && t[j].id == x;
            let j0 = if j < i { j } else { j + 1 };
            assert(s[j0].id == x);
            assert(contains_qid(s, x));
        }
        if contains_qid(s, x) {
            let j = choose|j: int| 0 <= j < s.len() && s[j].id == x;
            if j < i {
                assert(t[j].id == x);
            } else {
                assert(j != i);
                assert(t[j - 1].id == x);
            }
            assert(contains_qid(t, x));
        }
    }
    assert_sets_equal!(ids(t) == ids(s).remove(id), x => {});
}

} // verus!
