//! The store of records: the model of the persistent table, keyed by
//! unique identifiers.

use vstd::prelude::*;
use vstd::assert_seqs_equal;
use crate::quote::{Quote, QuoteView};
use crate::laws::{lemma_delete_removes, lemma_update_keeps_ids, lemma_update_missing};

verus! {

/// Whether some record in `s` carries the identifier `id`.
pub open spec fn contains_qid(s: Seq<QuoteView>, id: u128) -> bool {
    exists|i: int| 0 <= i < s.len() && s[i].id == id
}

/// The set of identifiers of the records in `s`.
pub open spec fn ids(s: Seq<QuoteView>) -> Set<u128> {
    Set::new(|id: u128| contains_qid(s, id))
}

/// Identifiers are unique: no two records share one.
pub open spec fn unique_ids(s: Seq<QuoteView>) -> bool {
    forall|i: int, j: int|
        0 <= i < s.len() && 0 <= j < s.len() && s[i].id == s[j].id ==> i == j
}

/// What an update writes: every record with identifier `id` gets the new
/// author and quote and the timestamp `now`, keeping its identifier and
/// `inserted_at`; every other record stays whole.
pub open spec fn update_all(
    s: Seq<QuoteView>,
    id: u128,
    author: Seq<char>,
    quote: Seq<char>,
    now: int,
) -> Seq<QuoteView> {
    s.map(
        |i: int, r: QuoteView|
            if r.id == id {
                QuoteView {
                    id: r.id,
                    author: author,
                    quote: quote,
                    inserted_at: r.inserted_at,
                    updated_at: now,
                }
            } else {
                r
            },
    )
}

/// The values of a sequence of records.
pub open spec fn views_of(s: Seq<Quote>) -> Seq<QuoteView> {
    s.map(|i: int, q: Quote| q@)
}

/// The store: the system of record for quotes. Its invariant is that no
/// two records share an identifier.
pub struct QuoteStore {
    records: Vec<Quote>,
}

impl View for QuoteStore {
    type V = Seq<QuoteView>;

    closed spec fn view(&self) -> Seq<QuoteView> {
        views_of(self.records@)
    }
}

impl QuoteStore {
    /// The store's invariant: identifiers are unique.
    pub open spec fn wf(&self) -> bool {
        unique_ids(self@)
    }

    /// An empty store.
    pub fn new() -> (s: QuoteStore)
        ensures
            s@ == Seq::<QuoteView>::empty(),
            s.wf(),
    {
        let s = QuoteStore { records: Vec::new() };
        proof {
            assert_seqs_equal!(s@, Seq::<QuoteView>::empty());
        }
        s
    }

    /// The position of the record with identifier `id`, if any.
    fn find_index(&self, id: u128) -> (r: Option<usize>)
        ensures
            match r {
                Some(i) => i < self@.len() && self@[i as int].id == id,
                None => !contains_qid(self@, id),
            },
    {
        let mut k: usize = 0;
        while k < self.records.len()
            invariant
                k <= self.records.len(),
                self@.len() == self.records.len(),
                forall|j: int| 0 <= j < k ==> self@[j].id != id,
            decreases self.records.len() - k,
        {
            if self.records[k].id == id {
                return Some(k);
            }
            k = k + 1;
        }
        None
    }

    /// Persist a fresh record. The insert succeeds exactly when the
    /// record's identifier is not already taken; a taken identifier is
    /// the constraint violation of the underlying table.
    pub fn insert(&mut self, q: Quote) -> (ok: bool)
        requires
            old(self).wf(),
        ensures
            final(self).wf(),
            ok == !contains_qid(old(self)@, q@.id),
            ok ==> final(self)@ == old(self)@.push(q@),
            !ok ==> final(self)@ == old(self)@,
    {
        let taken = self.find_index(q.id);
        match taken {
            Some(_) => false,
            None => {
                let ghost prior = self@;
                self.records.push(q);
                proof {
                    assert_seqs_equal!(self@, prior.push(q@));
                }
                true
            },
        }
    }

    /// Every stored record, in storage order.
    pub fn read_all(&self) -> (r: Vec<Quote>)
        ensures
            views_of(r@) == self@,
    {
        let mut out: Vec<Quote> = Vec::new();
        let mut k: usize = 0;
        while k < self.records.len()
            invariant
                k <= self.records.len(),
                self@.len() == self.records.len(),
                views_of(out@) == self@.subrange(0, k as int),
            decreases self.records.len() - k,
        {
            let ghost prior_vec = out@;
            let ghost prior_views = views_of(out@);
            out.push(self.records[k].duplicate());
            k = k + 1;
            proof {
                assert(out@ == prior_vec.push(self.records@[k - 1]));
                assert(views_of(out@).len() == out@.len());
                assert(prior_views.len() == prior_vec.len());
                assert(views_of(out@).len() == k as int);
                assert_seqs_equal!(views_of(out@) == self@.subrange(0, k as int), j => {
                    assert(self@[j] == self.records@[j]@);
                    assert(views_of(out@)[j] == out@[j]@);
                    if j < k - 1 {
                        assert(out@[j] == prior_vec[j]);
                        assert(prior_views[j] == prior_vec[j]@);
                        assert(prior_views[j] == self@.subrange(0, k as int - 1)[j]);
                    } else {
                        assert(out@[j] == self.records@[j]);
                    }
                });
            }
        }
        proof {
            assert_seqs_equal!(self@.subrange(0, self@.len() as int), self@);
        }
        out
    }

    /// Overwrite the record with identifier `id`, if any: its author and
    /// quote become the given values and its `updated_at` becomes `now`;
    /// its identifier and `inserted_at` are never modified. Whether a
    /// record was found is reported by the store as the count of
    /// affected rows; no record found leaves the store unchanged.
    pub fn update(&mut self, id: u128, author: &String, quote: &String, now: i64) -> (found: bool)
        requires
            old(self).wf(),
        ensures
            final(self).wf(),
            found == contains_qid(old(self)@, id),
            final(self)@ == update_all(old(self)@, id, author@, quote@, now as int),
            !found ==> final(self)@ == old(self)@,
    {
        let idx = self.find_index(id);
        match idx {
            Some(i) => {
                let ghost prior = self@;
                let ghost prior_recs = self.records@;
                proof {
                    assert(contains_qid(prior, id));
                }
                let old_rec = self.records.remove(i);
                let new_rec = Quote {
                    id: old_rec.id,
                    author: author.clone(),
                    quote: quote.clone(),
                    inserted_at: old_rec.inserted_at,
                    updated_at: now,
                };
                self.records.insert(i, new_rec);
                proof {
                    assert_seqs_equal!(self@ == update_all(prior, id, author@, quote@, now as int), j => {
                        assert(self@[j] == self.records@[j]@);
                        assert(prior[j] == prior_recs[j]@);
                        if j != i {
                            if prior[j].id == id {
                                assert(prior[i as int].id == id);
                            }
                            assert(self.records@[j] == prior_recs[j]);
                        }
                    });
                    lemma_update_keeps_ids(prior, id, author@, quote@, now as int);
                }
                true
            },
            None => {
                proof {
                    lemma_update_missing(self@, id, author@, quote@, now as int);
                }
                false
            },
        }
    }

    /// Remove the record with identifier `id`, if any. Whether a record
    /// was found is reported as the count of affected rows; no record
    /// found leaves the store unchanged.
    pub fn delete(&mut self, id: u128) -> (found: bool)
        requires
            old(self).wf(),
        ensures
            final(self).wf(),
            found == contains_qid(old(self)@, id),
            !found ==> final(self)@ == old(self)@,
            found ==> exists|i: int|
                0 <= i < old(self)@.len() && old(self)@[i].id == id && final(self)@ == old(
                    self,
                )@.remove(i),
            found ==> !contains_qid(final(self)@, id),
            found ==> final(self)@.len() == old(self)@.len() - 1,
            found ==> ids(final(self)@) == ids(old(self)@).remove(id),
            forall|x: u128| x != id ==> (contains_qid(final(self)@, x) <==> contains_qid(old(self)@, x)),
    {
        let idx = self.find_index(id);
        match idx {
            Some(i) => {
                let ghost prior = self@;
                let ghost prior_recs = self.records@;
                proof {
                    assert(contains_qid(prior, id));
                }
                self.records.remove(i);
                proof {
                    assert_seqs_equal!(self@ == prior.remove(i as int), j => {
                        assert(self@[j] == self.records@[j]@);
                        if j < i {
                            assert(self.records@[j] == prior_recs[j]);
                            assert(prior[j] == prior_recs[j]@);
                        } else {
                            assert(self.records@[j] == prior_recs[j + 1]);
                            assert(prior[j + 1] == prior_recs[j + 1]@);
                        }
                    });
                    lemma_delete_removes(prior, id, i as int);
                    assert(0 <= (i as int) < prior.len() && prior[i as int].id == id
                        && self@ == prior.remove(i as int));
                }
                true
            },
            None => false,
        }
    }
}

} // verus!
