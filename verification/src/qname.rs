//! Qualified names: an optional prefix, an optional namespace URI, and a local part.

use vstd::prelude::*;
use vstd::string::*;
use crate::repr::Repr;
use crate::text::{same_optional_text, same_text};

verus! {

/// What a `QualifiedName` stands for.
pub struct QNameView {
    pub nsuri: Option<Seq<char>>,
    pub prefix: Option<Seq<char>>,
    pub localname: Seq<char>,
}

impl QNameView {
    /// The name as written: the prefix and a colon, where there is a prefix,
    /// then the local part.
    pub open spec fn text(self) -> Seq<char> {
        match self.prefix {
            Some(p) => p + seq![':'] + self.localname,
            None => self.localname,
        }
    }
}

/// A qualified name.
#[derive(Debug, PartialEq)]
pub struct QualifiedName {
    pub nsuri: Option<String>,
    pub prefix: Option<String>,
    pub localname: String,
}

impl Repr for QualifiedName {
    type V = QNameView;

    open spec fn repr(&self) -> QNameView {
        QNameView {
            nsuri: self.nsuri.repr(),
            prefix: self.prefix.repr(),
            localname: self.localname@,
        }
    }
}

impl Clone for QualifiedName {
    fn clone(&self) -> (q: QualifiedName)
        ensures
            q.repr() == self.repr(),
    {
        self.duplicate()
    }
}

impl QualifiedName {
    /// The name with these parts.
    pub fn new(nsuri: Option<String>, prefix: Option<String>, localname: String) -> (q:
        QualifiedName)
        ensures
            q.nsuri == nsuri,
            q.prefix == prefix,
            q.localname == localname,
    {
        QualifiedName { nsuri, prefix, localname }
    }

    /// The namespace URI, if the name has one.
    pub fn get_nsuri(&self) -> (r: Option<String>)
        ensures
            r.repr() == self.repr().nsuri,
    {
        match &self.nsuri {
            Some(u) => Some(u.clone()),
            None => None,
        }
    }

    /// The prefix, if the name has one.
    pub fn get_prefix(&self) -> (r: Option<String>)
        ensures
            r.repr() == self.repr().prefix,
    {
        match &self.prefix {
            Some(p) => Some(p.clone()),
            None => None,
        }
    }

    /// The local part.
    pub fn get_localname(&self) -> (r: String)
        ensures
            r@ == self.repr().localname,
    {
        self.localname.clone()
    }

    /// The name as written.
    pub fn to_string(&self) -> (r: String)
        ensures
            r@ == self.repr().text(),
    {
        match &self.prefix {
            Some(p) => {
                let mut r = p.clone();
                proof {
                    reveal_strlit(":");
                    assert(":"@ =~= seq![':']);
                }
                r.append(":");
                r.append(self.localname.as_str());
                r
            },
            None => self.localname.clone(),
        }
    }

    /// Whether `self` and `other` stand for the same name.
    pub fn same_as(&self, other: &QualifiedName) -> (r: bool)
        ensures
            r == (self.repr() == other.repr()),
    {
        same_optional_text(&self.nsuri, &other.nsuri) && same_optional_text(
            &self.prefix,
            &other.prefix,
        ) && same_text(&self.localname, &other.localname)
    }

    /// A copy that stands for the same name.
    pub fn duplicate(&self) -> (q: QualifiedName)
        ensures
            q.repr() == self.repr(),
    {
        QualifiedName {
            nsuri: self.get_nsuri(),
            prefix: self.get_prefix(),
            localname: self.localname.clone(),
        }
    }
}

} // verus!
