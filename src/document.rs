//! The smallest managed unit: an identifier and two instants.
use vstd::prelude::*;

use crate::keyed::Named;
use crate::time::{tai_now, TaiInstant};

verus! {

/// What a document is: its identifier, when it was created and when it was
/// last modified.
pub ghost struct DocView {
    pub identifier: Seq<char>,
    pub create_time: TaiInstant,
    pub modified_time: TaiInstant,
}

impl DocView {
    /// Both instants are valid and the document was not modified before it
    /// was created.
    pub open spec fn well_formed(self) -> bool {
        &&& self.create_time.valid()
        &&& self.modified_time.valid()
        &&& self.create_time.not_after(self.modified_time)
    }
}

/// A document, identified by a random token unless the caller names it.
#[derive(Debug, PartialEq, Eq)]
pub struct TFDocument {
    identifier: String,
    create_time: TaiInstant,
    modified_time: TaiInstant,
}

impl View for TFDocument {
    type V = DocView;

    closed spec fn view(&self) -> DocView {
        DocView {
            identifier: self.identifier@,
            create_time: self.create_time,
            modified_time: self.modified_time,
        }
    }
}

/// A lowercase hexadecimal digit.
pub open spec fn is_lower_hex(c: char) -> bool {
    ('0' <= c && c <= '9') || ('a' <= c && c <= 'f')
}

/// The canonical rendering of a 128-bit identifier: 36 characters, hyphens
/// at positions 8, 13, 18 and 23, lowercase hexadecimal digits elsewhere.
pub open spec fn canonical_uuid(s: Seq<char>) -> bool {
    &&& s.len() == 36
    &&& forall|i: int|
        0 <= i < 36 ==> if i == 8 || i == 13 || i == 18 || i == 23 {
            #[trigger] s[i] == '-'
        } else {
            is_lower_hex(s[i])
        }
}

/// A canonical identifier of a random (version 4, RFC 4122 variant) value:
/// the version digit is `4` and the variant digit one of `8`, `9`, `a`, `b`.
pub open spec fn canonical_random_uuid(s: Seq<char>) -> bool {
    &&& canonical_uuid(s)
    &&& s[14] == '4'
    &&& (s[19] == '8' || s[19] == '9' || s[19] == 'a' || s[19] == 'b')
}

/// Relies on uuid::Uuid::new_v4 and its hyphenated rendering: a fresh random
/// 128-bit value with the version and variant bits set, written in lowercase
/// 8-4-4-4-12 form.
#[verifier::external_body]
fn fresh_identifier() -> (r: String)
    ensures
        canonical_random_uuid(r@),
{
    uuid::Uuid::new_v4().hyphenated().to_string()
}

impl Named for TFDocument {
    open spec fn name_of(&self) -> Seq<char> {
        self@.identifier
    }

    fn key(&self) -> (r: &String) {
        &self.identifier
    }
}

impl Clone for TFDocument {
    fn clone(&self) -> (r: TFDocument)
        ensures
            r@ == self@,
    {
        proof {
            use_type_invariant(self);
        }
        TFDocument {
            identifier: self.identifier.clone(),
            create_time: self.create_time,
            modified_time: self.modified_time,
        }
    }
}

impl TFDocument {
    #[verifier::type_invariant]
    spec fn inv(self) -> bool {
        self@.well_formed()
    }

    /// A document named `identifier`, created and modified at `now`.
    pub fn new_at(identifier: String, now: TaiInstant) -> (r: TFDocument)
        requires
            now.valid(),
        ensures
            r@ == (DocView { identifier: identifier@, create_time: now, modified_time: now }),
            r@.well_formed(),
    {
        TFDocument { identifier, create_time: now, modified_time: now }
    }

    /// A document with a fresh random identifier, created and modified now.
    pub fn new() -> (r: TFDocument)
        ensures
            canonical_random_uuid(r@.identifier),
            r@.create_time == r@.modified_time,
            r@.well_formed(),
    {
        let now = tai_now();
        TFDocument::new_at(fresh_identifier(), now)
    }

    /// A document from stored parts; `None` when an instant is invalid or the
    /// document would be modified before it was created.
    pub fn restore(identifier: String, create_time: TaiInstant, modified_time: TaiInstant) -> (r:
        Option<TFDocument>)
        ensures
            ({
                let v = DocView { identifier: identifier@, create_time, modified_time };
                &&& v.well_formed() ==> r.is_some() && r.unwrap()@ == v
                &&& !v.well_formed() ==> r.is_none()
            }),
    {
        if create_time.nanos < crate::time::NANOS_PER_SECOND && modified_time.nanos
            < crate::time::NANOS_PER_SECOND && !modified_time.is_before(&create_time) {
            Some(TFDocument { identifier, create_time, modified_time })
        } else {
            None
        }
    }

    /// The same document under the identifier `value`.
    pub fn id(self, value: &str) -> (r: TFDocument)
        ensures
            r@ == (DocView { identifier: value@, ..self@ }),
            r@.well_formed(),
    {
        proof {
            use_type_invariant(&self);
        }
        let TFDocument { identifier: _, create_time, modified_time } = self;
        TFDocument { identifier: value.to_owned(), create_time, modified_time }
    }

    /// The same document, modified at `now`; a clock that went back never
    /// moves the modification instant backwards.
    pub fn modified_time_at(self, now: TaiInstant) -> (r: TFDocument)
        requires
            now.valid(),
        ensures
            r@ == (DocView { modified_time: self@.modified_time.latest(now), ..self@ }),
            r@.well_formed(),
    {
        proof {
            use_type_invariant(&self);
        }
        let TFDocument { identifier, create_time, modified_time } = self;
        let stamp = modified_time.later_of(now);
        TFDocument { identifier, create_time, modified_time: stamp }
    }

    /// The same document, modified now.
    pub fn modified_time(self) -> (r: TFDocument)
        ensures
            r@.identifier == self@.identifier,
            r@.create_time == self@.create_time,
            self@.modified_time.not_after(r@.modified_time),
            r@.well_formed(),
    {
        let now = tai_now();
        self.modified_time_at(now)
    }

    /// The document's identifier.
    pub fn identifier(&self) -> (r: &String)
        ensures
            r@ == self@.identifier,
    {
        &self.identifier
    }

    /// When the document was created; never after its last modification.
    pub fn create_time(&self) -> (r: TaiInstant)
        ensures
            r == self@.create_time,
            self@.well_formed(),
    {
        proof {
            use_type_invariant(self);
        }
        self.create_time
    }

    /// When the document was last modified.
    pub fn modified_at(&self) -> (r: TaiInstant)
        ensures
            r == self@.modified_time,
    {
        self.modified_time
    }
}

} // verus!
