//! The registry of databases, keyed by name.
use vstd::prelude::*;

use crate::database::{DbView, TuringFeedsDB};
use crate::keyed::{
    distinct_named, find_named, keys_unique, lemma_push, lemma_remove, lemma_to_map_len,
    lemma_to_map_value, lemma_update, named_pairs, to_map,
};
use crate::outcome::{DbOps, DirFault, FileOps};

verus! {

/// The databases of a list as (name, database) pairs.
pub open spec fn db_pairs(s: Seq<TuringFeedsDB>) -> Seq<(Seq<char>, DbView)> {
    named_pairs(s)
}

/// The database named `key` in `m`, if there is one.
pub open spec fn lookup(m: Map<Seq<char>, DbView>, key: Seq<char>) -> Option<DbView> {
    if m.contains_key(key) {
        Some(m[key])
    } else {
        None
    }
}

/// Adding `d` to `m`: inserted only when its name is new.
pub open spec fn add_result(m: Map<Seq<char>, DbView>, d: DbView) -> (DbOps, Map<Seq<char>, DbView>) {
    if m.contains_key(d.identifier) {
        (DbOps::AlreadyExists, m)
    } else {
        (DbOps::Inserted, m.insert(d.identifier, d))
    }
}

/// Updating `m` with `d`: replaced only when its name is there.
pub open spec fn update_result(m: Map<Seq<char>, DbView>, d: DbView) -> (
    DbOps,
    Map<Seq<char>, DbView>,
) {
    if m.contains_key(d.identifier) {
        (DbOps::Modified, m.insert(d.identifier, d))
    } else {
        (DbOps::KeyNotFound, m)
    }
}

/// Removing `key` from `m`: the outcome, the database removed, the map left.
pub open spec fn rm_result(m: Map<Seq<char>, DbView>, key: Seq<char>) -> (
    DbOps,
    Option<DbView>,
    Map<Seq<char>, DbView>,
) {
    if m.contains_key(key) {
        (DbOps::Deleted, Some(m[key]), m.remove(key))
    } else {
        (DbOps::KeyNotFound, None, m)
    }
}

/// The view of an optional database.
pub open spec fn opt_view(o: Option<TuringFeedsDB>) -> Option<DbView> {
    match o {
        Some(d) => Some(d@),
        None => None,
    }
}

/// What a directory creation comes to: a failure the caller branches on is
/// an outcome, any other failure stays an error.
pub open spec fn create_result(created: Result<(), DirFault>) -> Result<FileOps, DirFault> {
    match created {
        Ok(()) => Ok(FileOps::CreateTrue),
        Err(DirFault::PermissionDenied) => Ok(FileOps::WriteDenied),
        Err(DirFault::AlreadyExists) => Ok(FileOps::AlreadyExists),
        Err(DirFault::Interrupted) => Ok(FileOps::Interrupted),
        Err(DirFault::Other) => Err(DirFault::Other),
    }
}

/// The registry: each database under its own name.
#[derive(Debug)]
pub struct TuringFeeds {
    dbs: Vec<TuringFeedsDB>,
}

impl View for TuringFeeds {
    type V = Map<Seq<char>, DbView>;

    closed spec fn view(&self) -> Map<Seq<char>, DbView> {
        to_map(db_pairs(self.dbs@))
    }
}

impl TuringFeeds {
    #[verifier::type_invariant]
    spec fn inv(self) -> bool {
        keys_unique(db_pairs(self.dbs@))
    }

    /// An empty registry.
    pub fn new() -> (r: TuringFeeds)
        ensures
            r@ == Map::<Seq<char>, DbView>::empty(),
    {
        let r = TuringFeeds { dbs: Vec::new() };
        assert(db_pairs(r.dbs@) =~= Seq::empty());
        r
    }

    /// The outcome of creating the storage directory, from what the file
    /// system reported: success, an already existing directory, a denied
    /// permission and an interruption are distinct outcomes; any other
    /// failure is an error.
    pub fn create_outcome(created: Result<(), DirFault>) -> (r: Result<FileOps, DirFault>)
        ensures
            r == create_result(created),
    {
        match created {
            Ok(()) => Ok(FileOps::CreateTrue),
            Err(DirFault::PermissionDenied) => Ok(FileOps::WriteDenied),
            Err(DirFault::AlreadyExists) => Ok(FileOps::AlreadyExists),
            Err(DirFault::Interrupted) => Ok(FileOps::Interrupted),
            Err(DirFault::Other) => Err(DirFault::Other),
        }
    }

    /// Inserts `values` under its name when no database has that name;
    /// otherwise `AlreadyExists` and nothing changes.
    pub fn memdb_add(&mut self, values: TuringFeedsDB) -> (r: DbOps)
        ensures
            (r, final(self)@) == add_result(old(self)@, values@),
    {
        proof {
            use_type_invariant(&*self);
        }
        let mut dbs: Vec<TuringFeedsDB> = Vec::new();
        std::mem::swap(&mut dbs, &mut self.dbs);
        let ghost s = db_pairs(dbs@);
        let ghost x = (values@.identifier, values@);
        let r = match find_named(&dbs, values.name()) {
            Some(i) => {
                proof {
                    lemma_to_map_value(s, i as int);
                }
                DbOps::AlreadyExists
            },
            None => {
                dbs.push(values);
                proof {
                    lemma_push(s, x);
                    assert(db_pairs(dbs@) =~= s.push(x));
                }
                DbOps::Inserted
            },
        };
        self.dbs = dbs;
        r
    }

    /// Replaces the database under the name of `values` when there is one;
    /// otherwise `KeyNotFound` and nothing changes.
    pub fn memdb_update(&mut self, values: TuringFeedsDB) -> (r: DbOps)
        ensures
            (r, final(self)@) == update_result(old(self)@, values@),
    {
        proof {
            use_type_invariant(&*self);
        }
        let mut dbs: Vec<TuringFeedsDB> = Vec::new();
        std::mem::swap(&mut dbs, &mut self.dbs);
        let ghost s = db_pairs(dbs@);
        let ghost x = (values@.identifier, values@);
        let r = match find_named(&dbs, values.name()) {
            Some(i) => {
                dbs.set(i, values);
                proof {
                    lemma_to_map_value(s, i as int);
                    lemma_update(s, i as int, x);
                    assert(db_pairs(dbs@) =~= s.update(i as int, x));
                }
                DbOps::Modified
            },
            None => DbOps::KeyNotFound,
        };
        self.dbs = dbs;
        r
    }

    /// Removes and hands back the database named `key`; `KeyNotFound` and
    /// nothing changes when there is none.
    pub fn memdb_rm(&mut self, key: &str) -> (r: (DbOps, Option<TuringFeedsDB>))
        ensures
            (r.0, opt_view(r.1), final(self)@) == rm_result(old(self)@, key@),
    {
        proof {
            use_type_invariant(&*self);
        }
        let mut dbs: Vec<TuringFeedsDB> = Vec::new();
        std::mem::swap(&mut dbs, &mut self.dbs);
        let ghost s = db_pairs(dbs@);
        let k = key.to_owned();
        let r = match find_named(&dbs, &k) {
            Some(i) => {
                proof {
                    lemma_to_map_value(s, i as int);
                    lemma_remove(s, i as int);
                }
                let removed = dbs.remove(i);
                proof {
                    assert(db_pairs(dbs@) =~= s.remove(i as int));
                }
                (DbOps::Deleted, Some(removed))
            },
            None => (DbOps::KeyNotFound, None),
        };
        self.dbs = dbs;
        r
    }

    /// The database named `key`, if there is one.
    pub fn memdb_get(&self, key: &str) -> (r: Option<&TuringFeedsDB>)
        ensures
            match r {
                Some(d) => lookup(self@, key@) == Some(d@),
                None => lookup(self@, key@).is_none(),
            },
    {
        proof {
            use_type_invariant(self);
        }
        let k = key.to_owned();
        match find_named(&self.dbs, &k) {
            Some(i) => {
                proof {
                    lemma_to_map_value(db_pairs(self.dbs@), i as int);
                }
                Some(&self.dbs[i])
            },
            None => None,
        }
    }

    /// How many databases the registry holds.
    pub fn database_count(&self) -> (r: usize)
        ensures
            r == self@.len(),
    {
        proof {
            use_type_invariant(self);
            lemma_to_map_len(db_pairs(self.dbs@));
        }
        self.dbs.len()
    }

    /// Every database, each under its own name: what a snapshot holds.
    pub fn databases(&self) -> (r: &Vec<TuringFeedsDB>)
        ensures
            keys_unique(db_pairs(r@)),
            to_map(db_pairs(r@)) == self@,
    {
        proof {
            use_type_invariant(self);
        }
        &self.dbs
    }

    /// Replaces every database at once with those of `dbs`, as a snapshot is
    /// restored; when two of them share a name, `false` and nothing changes.
    pub fn replace_all(&mut self, dbs: Vec<TuringFeedsDB>) -> (r: bool)
        ensures
            r == keys_unique(db_pairs(dbs@)),
            r ==> final(self)@ == to_map(db_pairs(dbs@)),
            !r ==> final(self)@ == old(self)@,
    {
        if distinct_named(&dbs) {
            self.dbs = dbs;
            true
        } else {
            false
        }
    }
}

} // verus!
