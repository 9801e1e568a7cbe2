//! A named, timestamped collection of documents.
use vstd::prelude::*;

use crate::document::{DocView, TFDocument};
use crate::keyed::{
    distinct_named, find_named, keys_unique, lemma_push, lemma_remove, lemma_to_map_len,
    lemma_update, named_pairs, to_map, Named,
};
use crate::outcome::DbOps;
use crate::time::{tai_now, TaiInstant};

verus! {

/// The documents of a list as (identifier, document) pairs.
pub open spec fn doc_pairs(s: Seq<TFDocument>) -> Seq<(Seq<char>, DocView)> {
    named_pairs(s)
}

/// The map of documents that an optional list holds.
pub open spec fn doc_list_view(o: Option<Vec<TFDocument>>) -> Option<Map<Seq<char>, DocView>> {
    match o {
        Some(v) => Some(to_map(doc_pairs(v@))),
        None => None,
    }
}

/// What a database is: its name, when its documents last changed, and its
/// documents by identifier, absent until the first one is added.
pub ghost struct DbView {
    pub identifier: Seq<char>,
    pub datetime: TaiInstant,
    pub documents: Option<Map<Seq<char>, DocView>>,
}

impl DbView {
    /// The documents, with an absent map read as an empty one.
    pub open spec fn document_map(self) -> Map<Seq<char>, DocView> {
        match self.documents {
            Some(m) => m,
            None => Map::empty(),
        }
    }
}

/// Storing document `d` in `v` at `now`: any document under the same
/// identifier is replaced, and the instant moves to `now` unless it is
/// already later.
pub open spec fn add_document_result(v: DbView, d: DocView, now: TaiInstant) -> DbView {
    DbView {
        identifier: v.identifier,
        datetime: v.datetime.latest(now),
        documents: Some(v.document_map().insert(d.identifier, d)),
    }
}

/// Removing document `key` from `v` at `now`: the outcome and the database
/// left.
pub open spec fn rm_document_result(v: DbView, key: Seq<char>, now: TaiInstant) -> (DbOps, DbView) {
    match v.documents {
        None => (DbOps::Empty, v),
        Some(m) => if m.contains_key(key) {
            (
                DbOps::Deleted,
                DbView { datetime: v.datetime.latest(now), documents: Some(m.remove(key)), ..v },
            )
        } else {
            (DbOps::KeyNotFound, v)
        },
    }
}

/// A database: a name, a modification instant and its documents.
#[derive(Debug, PartialEq, Eq)]
pub struct TuringFeedsDB {
    identifier: String,
    datetime: TaiInstant,
    document_list: Option<Vec<TFDocument>>,
}

impl View for TuringFeedsDB {
    type V = DbView;

    closed spec fn view(&self) -> DbView {
        DbView {
            identifier: self.identifier@,
            datetime: self.datetime,
            documents: doc_list_view(self.document_list),
        }
    }
}

/// A copy of each document of the list, in the same order.
fn copy_documents(v: &Vec<TFDocument>) -> (r: Vec<TFDocument>)
    ensures
        doc_pairs(r@) == doc_pairs(v@),
{
    let mut r: Vec<TFDocument> = Vec::new();
    let mut i: usize = 0;
    while i < v.len()
        invariant
            i <= v@.len(),
            doc_pairs(r@) == doc_pairs(v@.subrange(0, i as int)),
        decreases v@.len() - i,
    {
        let d = v[i].clone();
        let ghost r0 = r@;
        r.push(d);
        assert(doc_pairs(r@) =~= doc_pairs(r0).push((v@[i as int]@.identifier, v@[i as int]@)));
        assert(doc_pairs(v@.subrange(0, i + 1)) =~= doc_pairs(v@.subrange(0, i as int)).push(
            (v@[i as int]@.identifier, v@[i as int]@),
        ));
        i = i + 1;
    }
    assert(v@.subrange(0, v@.len() as int) =~= v@);
    r
}

impl Named for TuringFeedsDB {
    open spec fn name_of(&self) -> Seq<char> {
        self@.identifier
    }

    fn key(&self) -> (r: &String) {
        &self.identifier
    }
}

impl Clone for TuringFeedsDB {
    fn clone(&self) -> (r: TuringFeedsDB)
        ensures
            r@ == self@,
    {
        proof {
            use_type_invariant(self);
        }
        let document_list = match &self.document_list {
            Some(v) => Some(copy_documents(v)),
            None => None,
        };
        TuringFeedsDB {
            identifier: self.identifier.clone(),
            datetime: self.datetime,
            document_list,
        }
    }
}

impl TuringFeedsDB {
    #[verifier::type_invariant]
    spec fn inv(self) -> bool {
        &&& self.datetime.valid()
        &&& match self.document_list {
            Some(v) => keys_unique(doc_pairs(v@)),
            None => true,
        }
    }

    /// An unnamed database without documents, stamped `now`.
    pub fn new_at(now: TaiInstant) -> (r: TuringFeedsDB)
        requires
            now.valid(),
        ensures
            r@ == (DbView { identifier: Seq::empty(), datetime: now, documents: None }),
    {
        TuringFeedsDB { identifier: String::new(), datetime: now, document_list: None }
    }

    /// An unnamed database without documents, stamped now.
    pub fn new() -> (r: TuringFeedsDB)
        ensures
            r@.identifier == Seq::<char>::empty(),
            r@.documents.is_none(),
            r@.datetime.valid(),
    {
        TuringFeedsDB::new_at(tai_now())
    }

    /// A database from stored parts; `None` when the instant is invalid or
    /// two documents share an identifier.
    pub fn restore(
        identifier: String,
        datetime: TaiInstant,
        document_list: Option<Vec<TFDocument>>,
    ) -> (r: Option<TuringFeedsDB>)
        ensures
            ({
                let ok = datetime.valid() && match document_list {
                    Some(v) => keys_unique(doc_pairs(v@)),
                    None => true,
                };
                &&& ok ==> r.is_some() && r.unwrap()@ == (DbView {
                    identifier: identifier@,
                    datetime,
                    documents: doc_list_view(document_list),
                })
                &&& !ok ==> r.is_none()
            }),
    {
        if datetime.nanos >= crate::time::NANOS_PER_SECOND {
            return None;
        }
        let distinct = match &document_list {
            Some(v) => distinct_named(v),
            None => true,
        };
        if distinct {
            Some(TuringFeedsDB { identifier, datetime, document_list })
        } else {
            None
        }
    }

    /// The same database under the name `key`; documents and instant stay.
    pub fn identifier(self, key: &str) -> (r: TuringFeedsDB)
        ensures
            r@ == (DbView { identifier: key@, ..self@ }),
    {
        proof {
            use_type_invariant(&self);
        }
        let TuringFeedsDB { identifier: _, datetime, document_list } = self;
        TuringFeedsDB { identifier: key.to_owned(), datetime, document_list }
    }

    /// The same database with `document` stored under its identifier,
    /// replacing any document there, and stamped `now` (never moving the
    /// instant backwards).
    pub fn add_at(self, document: TFDocument, now: TaiInstant) -> (r: TuringFeedsDB)
        requires
            now.valid(),
        ensures
            r@ == add_document_result(self@, document@, now),
    {
        proof {
            use_type_invariant(&self);
        }
        let TuringFeedsDB { identifier, datetime, document_list } = self;
        let stamp = datetime.later_of(now);
        let ghost x = (document@.identifier, document@);
        let list = match document_list {
            Some(v) => {
                let mut v = v;
                let ghost s = doc_pairs(v@);
                match find_named(&v, document.identifier()) {
                    Some(i) => {
                        v.set(i, document);
                        proof {
                            lemma_update(s, i as int, x);
                            assert(doc_pairs(v@) =~= s.update(i as int, x));
                        }
                    },
                    None => {
                        v.push(document);
                        proof {
                            lemma_push(s, x);
                            assert(doc_pairs(v@) =~= s.push(x));
                        }
                    },
                }
                v
            },
            None => {
                let mut v: Vec<TFDocument> = Vec::new();
                v.push(document);
                proof {
                    let s = doc_pairs(Seq::<TFDocument>::empty());
                    assert(s =~= Seq::empty());
                    lemma_push(s, x);
                    assert(doc_pairs(v@) =~= s.push(x));
                }
                v
            },
        };
        TuringFeedsDB { identifier, datetime: stamp, document_list: Some(list) }
    }

    /// The same database with `document` stored under its identifier, stamped
    /// now (never moving the instant backwards).
    pub fn add(self, document: TFDocument) -> (r: TuringFeedsDB)
        ensures
            r@.identifier == self@.identifier,
            r@.documents == Some(self@.document_map().insert(document@.identifier, document@)),
            self@.datetime.not_after(r@.datetime),
    {
        self.add_at(document, tai_now())
    }

    /// Removes the document named `key`. `Empty` when no document was ever
    /// added, `KeyNotFound` when none has that name (both leave the database
    /// as it was), `Deleted` when it was removed and the database stamped
    /// `now` (never moving the instant backwards).
    pub fn rm_at(self, key: &str, now: TaiInstant) -> (r: (DbOps, TuringFeedsDB))
        requires
            now.valid(),
        ensures
            (r.0, r.1@) == rm_document_result(self@, key@, now),
    {
        proof {
            use_type_invariant(&self);
        }
        let TuringFeedsDB { identifier, datetime, document_list } = self;
        match document_list {
            None => (DbOps::Empty, TuringFeedsDB { identifier, datetime, document_list: None }),
            Some(v) => {
                let mut v = v;
                let ghost s = doc_pairs(v@);
                let k = key.to_owned();
                match find_named(&v, &k) {
                    Some(i) => {
                        let _removed = v.remove(i);
                        proof {
                            crate::keyed::lemma_to_map_value(s, i as int);
                            lemma_remove(s, i as int);
                            assert(doc_pairs(v@) =~= s.remove(i as int));
                        }
                        let stamp = datetime.later_of(now);
                        (
                            DbOps::Deleted,
                            TuringFeedsDB { identifier, datetime: stamp, document_list: Some(v) },
                        )
                    },
                    None => {
                        (
                            DbOps::KeyNotFound,
                            TuringFeedsDB { identifier, datetime, document_list: Some(v) },
                        )
                    },
                }
            },
        }
    }

    /// Removes the document named `key`, as `rm_at` does, stamping the
    /// database now when a document goes.
    pub fn rm(self, key: &str) -> (r: (DbOps, TuringFeedsDB))
        ensures
            self@.documents.is_none() ==> r.0 == DbOps::Empty && r.1@ == self@,
            self@.documents.is_some() && !self@.document_map().contains_key(key@) ==> r.0
                == DbOps::KeyNotFound && r.1@ == self@,
            self@.document_map().contains_key(key@) ==> r.0 == DbOps::Deleted && r.1@.identifier
                == self@.identifier && r.1@.documents == Some(self@.document_map().remove(key@))
                && self@.datetime.not_after(r.1@.datetime),
    {
        self.rm_at(key, tai_now())
    }

    /// The database's name.
    pub fn name(&self) -> (r: &String)
        ensures
            r@ == self@.identifier,
    {
        &self.identifier
    }

    /// When the database's documents last changed.
    pub fn datetime(&self) -> (r: TaiInstant)
        ensures
            r == self@.datetime,
            r.valid(),
    {
        proof {
            use_type_invariant(self);
        }
        self.datetime
    }

    /// How many documents the database holds; `None` before the first one is
    /// added.
    pub fn document_count(&self) -> (r: Option<usize>)
        ensures
            match self@.documents {
                Some(m) => r == Some(m.len() as usize),
                None => r.is_none(),
            },
    {
        proof {
            use_type_invariant(self);
        }
        match &self.document_list {
            Some(v) => {
                proof {
                    lemma_to_map_len(doc_pairs(v@));
                }
                Some(v.len())
            },
            None => None,
        }
    }

    /// The document named `key`, if there is one.
    pub fn document(&self, key: &str) -> (r: Option<&TFDocument>)
        ensures
            match r {
                Some(d) => self@.document_map().contains_key(key@) && d@ == self@.document_map()[key@],
                None => !self@.document_map().contains_key(key@),
            },
    {
        proof {
            use_type_invariant(self);
        }
        match &self.document_list {
            Some(v) => {
                let k = key.to_owned();
                match find_named(v, &k) {
                    Some(i) => {
                        proof {
                            crate::keyed::lemma_to_map_value(doc_pairs(v@), i as int);
                        }
                        Some(&v[i])
                    },
                    None => None,
                }
            },
            None => None,
        }
    }

    /// The documents in storage order, each under its own identifier; `None`
    /// before the first one is added.
    pub fn documents(&self) -> (r: Option<&Vec<TFDocument>>)
        ensures
            match r {
                Some(v) => self@.documents == Some(to_map(doc_pairs(v@))) && keys_unique(doc_pairs(v@)),
                None => self@.documents.is_none(),
            },
    {
        proof {
            use_type_invariant(self);
        }
        match &self.document_list {
            Some(v) => Some(v),
            None => None,
        }
    }
}

} // verus!
