//! A plain representation of one row returned by the data service: a
//! list of named fields, each holding one of the value shapes the
//! entity parsers read. Transport and JSON decoding happen outside
//! the crate and hand rows over in this form.

use vstd::prelude::*;

use crate::text::{clone_strings, str_eq};

verus! {

/// One field value of a returned row.
#[derive(Debug, PartialEq, Eq)]
pub enum FieldValue {
    /// An explicit null.
    Null,
    Bool(bool),
    Int(i64),
    Text(String),
    /// An array of strings (tags, technologies).
    TextList(Vec<String>),
}

/// One row: named fields in the order the service sent them.
#[derive(Debug, PartialEq, Eq)]
pub struct Record {
    pub fields: Vec<(String, FieldValue)>,
}

/// The value of the first field with the given name, if any.
pub open spec fn lookup_field(fields: Seq<(String, FieldValue)>, name: Seq<char>) -> Option<
    FieldValue,
>
    decreases fields.len(),
{
    if fields.len() == 0 {
        None
    } else if fields[0].0@ == name {
        Some(fields[0].1)
    } else {
        lookup_field(fields.drop_first(), name)
    }
}

impl Record {
    /// The value stored under `name`, if any.
    pub open spec fn spec_get(&self, name: Seq<char>) -> Option<FieldValue> {
        lookup_field(self.fields@, name)
    }

    /// Look a field up by name.
    pub fn get<'a>(&'a self, name: &str) -> (r: Option<&'a FieldValue>)
        ensures
            match r {
                Some(v) => self.spec_get(name@) == Some(*v),
                None => self.spec_get(name@) is None,
            },
    {
        let mut i: usize = 0;
        proof {
            assert(self.fields@.skip(0) =~= self.fields@);
        }
        while i < self.fields.len()
            invariant
                i <= self.fields@.len(),
                lookup_field(self.fields@, name@) == lookup_field(
                    self.fields@.skip(i as int),
                    name@,
                ),
            decreases self.fields@.len() - i,
        {
            if str_eq(self.fields[i].0.as_str(), name) {
                proof {
                    assert(self.fields@.skip(i as int)[0] == self.fields@[i as int]);
                }
                return Some(&self.fields[i].1);
            }
            proof {
                assert(self.fields@.skip(i as int).drop_first() =~= self.fields@.skip(
                    i as int + 1,
                ));
            }
            i += 1;
        }
        proof {
            assert(self.fields@.skip(self.fields@.len() as int) =~= Seq::<
                (String, FieldValue),
            >::empty());
        }
        None
    }

    /// A required text field: its characters, or nothing when the
    /// field is missing or has another shape.
    pub open spec fn spec_text_field(&self, name: Seq<char>) -> Option<Seq<char>> {
        match self.spec_get(name) {
            Some(FieldValue::Text(s)) => Some(s@),
            _ => None,
        }
    }

    /// An optional text field: absent or null is tolerated as "no
    /// value"; any shape other than text is a fault (outer `None`).
    pub open spec fn spec_opt_text_field(&self, name: Seq<char>) -> Option<Option<Seq<char>>> {
        match self.spec_get(name) {
            None => Some(None),
            Some(FieldValue::Null) => Some(None),
            Some(FieldValue::Text(s)) => Some(Some(s@)),
            _ => None,
        }
    }

    /// A required integer field.
    pub open spec fn spec_int_field(&self, name: Seq<char>) -> Option<i64> {
        match self.spec_get(name) {
            Some(FieldValue::Int(v)) => Some(v),
            _ => None,
        }
    }

    /// A required boolean field.
    pub open spec fn spec_bool_field(&self, name: Seq<char>) -> Option<bool> {
        match self.spec_get(name) {
            Some(FieldValue::Bool(b)) => Some(b),
            _ => None,
        }
    }

    /// An optional boolean field: absent or null is "no value", any
    /// other non-boolean shape is a fault.
    pub open spec fn spec_opt_bool_field(&self, name: Seq<char>) -> Option<Option<bool>> {
        match self.spec_get(name) {
            None => Some(None),
            Some(FieldValue::Null) => Some(None),
            Some(FieldValue::Bool(b)) => Some(Some(b)),
            _ => None,
        }
    }

    /// A required list-of-text field.
    pub open spec fn spec_list_field(&self, name: Seq<char>) -> Option<Seq<Seq<char>>> {
        match self.spec_get(name) {
            Some(FieldValue::TextList(v)) => Some(v.deep_view()),
            _ => None,
        }
    }

    /// A tolerated list field: absent or null means no list at all,
    /// a list is taken as given, and any other shape collapses to the
    /// empty list rather than a fault.
    pub open spec fn spec_lenient_list_field(&self, name: Seq<char>) -> Option<Seq<Seq<char>>> {
        match self.spec_get(name) {
            None => None,
            Some(FieldValue::Null) => None,
            Some(FieldValue::TextList(v)) => Some(v.deep_view()),
            Some(_) => Some(Seq::empty()),
        }
    }

    /// Read a required text field.
    pub fn text_field(&self, name: &str) -> (r: Option<String>)
        ensures
            match r {
                Some(s) => self.spec_text_field(name@) == Some(s@),
                None => self.spec_text_field(name@) is None,
            },
    {
        match self.get(name) {
            Some(FieldValue::Text(s)) => Some(s.clone()),
            _ => None,
        }
    }

    /// Read an optional text field; the outer `None` reports a field
    /// of the wrong shape.
    pub fn opt_text_field(&self, name: &str) -> (r: Option<Option<String>>)
        ensures
            match r {
                Some(Some(s)) => self.spec_opt_text_field(name@) == Some(Some(s@)),
                Some(None) => self.spec_opt_text_field(name@) == Some(None::<Seq<char>>),
                None => self.spec_opt_text_field(name@) is None,
            },
    {
        match self.get(name) {
            None => Some(None),
            Some(FieldValue::Null) => Some(None),
            Some(FieldValue::Text(s)) => Some(Some(s.clone())),
            Some(_) => None,
        }
    }

    /// Read a required integer field.
    pub fn int_field(&self, name: &str) -> (r: Option<i64>)
        ensures
            r == self.spec_int_field(name@),
    {
        match self.get(name) {
            Some(FieldValue::Int(v)) => Some(*v),
            _ => None,
        }
    }

    /// Read a required boolean field.
    pub fn bool_field(&self, name: &str) -> (r: Option<bool>)
        ensures
            r == self.spec_bool_field(name@),
    {
        match self.get(name) {
            Some(FieldValue::Bool(b)) => Some(*b),
            _ => None,
        }
    }

    /// Read an optional boolean field; the outer `None` reports a
    /// field of the wrong shape.
    pub fn opt_bool_field(&self, name: &str) -> (r: Option<Option<bool>>)
        ensures
            r == self.spec_opt_bool_field(name@),
    {
        match self.get(name) {
            None => Some(None),
            Some(FieldValue::Null) => Some(None),
            Some(FieldValue::Bool(b)) => Some(Some(*b)),
            Some(_) => None,
        }
    }

    /// Read a required list-of-text field.
    pub fn list_field(&self, name: &str) -> (r: Option<Vec<String>>)
        ensures
            match r {
                Some(v) => self.spec_list_field(name@) == Some(v.deep_view()),
                None => self.spec_list_field(name@) is None,
            },
    {
        match self.get(name) {
            Some(FieldValue::TextList(v)) => {
                let copy = clone_strings(v);
                proof {
                    assert(copy.deep_view() =~= v.deep_view());
                }
                Some(copy)
            },
            _ => None,
        }
    }

    /// Read a tolerated list field (see `spec_lenient_list_field`).
    pub fn lenient_list_field(&self, name: &str) -> (r: Option<Vec<String>>)
        ensures
            match r {
                Some(v) => self.spec_lenient_list_field(name@) == Some(v.deep_view()),
                None => self.spec_lenient_list_field(name@) is None,
            },
    {
        match self.get(name) {
            None => None,
            Some(FieldValue::Null) => None,
            Some(FieldValue::TextList(v)) => {
                let copy = clone_strings(v);
                proof {
                    assert(copy.deep_view() =~= v.deep_view());
                }
                Some(copy)
            },
            Some(_) => {
                let empty: Vec<String> = Vec::new();
                proof {
                    assert(empty.deep_view() =~= Seq::<Seq<char>>::empty());
                }
                Some(empty)
            },
        }
    }
}

/// How a request against the data service ended: either the service
/// answered (with a status, and with rows when the body was a
/// well-formed array of objects), or the transport failed first.
#[derive(Debug, PartialEq, Eq)]
pub enum FetchOutcome {
    Response { status: u16, rows: Option<Vec<Record>> },
    TransportFailure(String),
}

} // verus!
