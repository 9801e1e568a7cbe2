//! Laws that relate the operations on the registry and on a database.
use vstd::prelude::*;

use crate::database::{add_document_result, rm_document_result, DbView};
use crate::document::DocView;
use crate::outcome::DbOps;
use crate::repository::{add_result, lookup, rm_result, update_result};
use crate::time::TaiInstant;

verus! {

/// Adding a database under a name that is absent, then looking that name up,
/// yields exactly the database added.
pub proof fn lemma_add_then_lookup(m: Map<Seq<char>, DbView>, d: DbView)
    requires
        !m.contains_key(d.identifier),
    ensures
        add_result(m, d).0 == DbOps::Inserted,
        lookup(add_result(m, d).1, d.identifier) == Some(d),
{
}

/// Adding two databases under the same new name: the second add reports
/// `AlreadyExists` and the first database stays stored.
pub proof fn lemma_add_twice(m: Map<Seq<char>, DbView>, d1: DbView, d2: DbView)
    requires
        !m.contains_key(d1.identifier),
        d1.identifier == d2.identifier,
    ensures
        add_result(add_result(m, d1).1, d2).0 == DbOps::AlreadyExists,
        add_result(add_result(m, d1).1, d2).1 == add_result(m, d1).1,
        lookup(add_result(add_result(m, d1).1, d2).1, d1.identifier) == Some(d1),
{
}

/// Updating under an absent name reports `KeyNotFound` and leaves the map as
/// it was.
pub proof fn lemma_update_absent(m: Map<Seq<char>, DbView>, d: DbView)
    requires
        !m.contains_key(d.identifier),
    ensures
        update_result(m, d) == (DbOps::KeyNotFound, m),
{
}

/// Removing a present name takes out exactly that one entry and hands it
/// back; removing it again reports `KeyNotFound`.
pub proof fn lemma_rm_twice(m: Map<Seq<char>, DbView>, key: Seq<char>)
    requires
        m.dom().finite(),
        m.contains_key(key),
    ensures
        rm_result(m, key).0 == DbOps::Deleted,
        rm_result(m, key).1 == Some(m[key]),
        rm_result(m, key).2 == m.remove(key),
        rm_result(m, key).2.len() == m.len() - 1,
        rm_result(rm_result(m, key).2, key).0 == DbOps::KeyNotFound,
        rm_result(rm_result(m, key).2, key).1 == None::<DbView>,
{
}

/// Storing two documents under the same identifier leaves one entry there,
/// the second document; with a clock that moves forward between the calls,
/// the database's instant strictly increases at each call.
pub proof fn lemma_add_document_twice(
    v: DbView,
    d1: DocView,
    d2: DocView,
    t1: TaiInstant,
    t2: TaiInstant,
)
    requires
        d1.identifier == d2.identifier,
        v.datetime.precedes(t1),
        t1.precedes(t2),
    ensures
        ({
            let v1 = add_document_result(v, d1, t1);
            let v2 = add_document_result(v1, d2, t2);
            &&& v2.document_map() == v.document_map().insert(d2.identifier, d2)
            &&& v2.document_map().contains_key(d2.identifier)
            &&& v2.document_map()[d2.identifier] == d2
            &&& v.datetime.precedes(v1.datetime)
            &&& v1.datetime.precedes(v2.datetime)
        }),
{
    let v1 = add_document_result(v, d1, t1);
    let v2 = add_document_result(v1, d2, t2);
    assert(v2.document_map() =~= v.document_map().insert(d2.identifier, d2));
}

/// Adding the first document to a database, at a clock reading later than
/// its instant, leaves exactly that one document and a strictly later
/// instant.
pub proof fn lemma_first_document(v: DbView, d: DocView, now: TaiInstant)
    requires
        v.documents.is_none(),
        v.datetime.precedes(now),
    ensures
        ({
            let r = add_document_result(v, d, now);
            &&& r.document_map().dom() == set![d.identifier]
            &&& r.document_map().len() == 1
            &&& r.document_map()[d.identifier] == d
            &&& v.datetime.precedes(r.datetime)
        }),
{
    let r = add_document_result(v, d, now);
    assert(r.document_map().dom() =~= set![d.identifier]);
}

/// Removing a document from a database to which none was ever added reports
/// `Empty` and leaves the database as it was.
pub proof fn lemma_rm_before_any_add(v: DbView, key: Seq<char>, now: TaiInstant)
    requires
        v.documents.is_none(),
    ensures
        rm_document_result(v, key, now) == (DbOps::Empty, v),
{
}

} // verus!
