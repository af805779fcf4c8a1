//! The parser: its configuration, the combinators, and the document grammar.

use vstd::prelude::*;
use crate::repr::Repr;
use crate::parser::xml::{DTD, DTDDecl, DtdView, declared, entity_text};

pub mod xml;
pub mod table;
pub mod combinators;
pub mod common;
pub mod chardata;
pub mod element;
pub mod doctype;
pub mod order;
pub mod wellformed;

verus! {

/// What a `ParserConfig` stands for.
pub struct ConfigView {
    pub dtd: DtdView,
    pub max_depth: nat,
    pub depth: nat,
    pub entity_index: nat,
}

/// The declarations collected so far, and the bookkeeping that bounds the
/// expansion of entities.
#[derive(Debug, PartialEq)]
pub struct ParserConfig {
    dtd: DTD,
    maxentitydepth: usize,
    currententitydepth: usize,
    entityindex: usize,
}

impl Repr for ParserConfig {
    type V = ConfigView;

    closed spec fn repr(&self) -> ConfigView {
        ConfigView {
            dtd: self.dtd.repr(),
            max_depth: self.maxentitydepth as nat,
            depth: self.currententitydepth as nat,
            entity_index: self.entityindex as nat,
        }
    }
}

/// The configuration `c` after an entity whose replacement text has `len`
/// characters was expanded at position `at`.
///
/// An expansion beyond the last recorded site starts a new site: the depth
/// goes back to 0 and the site moves behind the inserted text. Any other
/// expansion counts as one more at the same site.
pub open spec fn expanded(c: ConfigView, at: int, len: int) -> ConfigView {
    if at > c.entity_index {
        ConfigView { depth: 0, entity_index: (at + len) as nat, ..c }
    } else {
        ConfigView { depth: c.depth + 1, ..c }
    }
}

/// The configuration that a parse starts with: no declarations, a depth
/// limit of 4, no expansion yet.
pub open spec fn initial_config() -> ConfigView {
    ConfigView {
        dtd: DtdView {
            elements: Map::empty(),
            attlists: Map::empty(),
            notations: Map::empty(),
            generalentities: Map::empty(),
            paramentities: Map::empty(),
            publicid: None,
            systemid: None,
            name: None,
        },
        max_depth: 4,
        depth: 0,
        entity_index: 0,
    }
}

impl Clone for ParserConfig {
    fn clone(&self) -> (c: ParserConfig)
        ensures
            c.repr() == self.repr(),
    {
        self.duplicate()
    }
}

impl ParserConfig {
    /// The depth is within its limit.
    #[verifier::type_invariant]
    pub closed spec fn wf(&self) -> bool {
        self.currententitydepth <= self.maxentitydepth
    }

    /// The configuration that a parse starts with.
    pub fn new() -> (c: ParserConfig)
        ensures
            c.repr() == initial_config(),
    {
        ParserConfig { dtd: DTD::new(), maxentitydepth: 4, currententitydepth: 0, entityindex: 0 }
    }

    /// A well-formed configuration stands for one whose depth is within its
    /// limit and whose site is a machine integer.
    pub proof fn lemma_wf(&self)
        requires
            self.wf(),
        ensures
            self.repr().depth <= self.repr().max_depth,
            self.repr().entity_index <= usize::MAX,
    {
    }

    /// A copy that stands for the same configuration.
    pub fn duplicate(&self) -> (c: ParserConfig)
        ensures
            c.repr() == self.repr(),
    {
        proof {
            use_type_invariant(self);
        }
        ParserConfig {
            dtd: self.dtd.duplicate(),
            maxentitydepth: self.maxentitydepth,
            currententitydepth: self.currententitydepth,
            entityindex: self.entityindex,
        }
    }

    /// The highest position at which an expansion was recorded.
    pub fn entity_index(&self) -> (r: usize)
        ensures
            r == self.repr().entity_index,
    {
        self.entityindex
    }

    /// How many more expansions the current site admits.
    pub fn depth_left(&self) -> (r: usize)
        ensures
            r == self.repr().max_depth - self.repr().depth,
    {
        proof {
            use_type_invariant(self);
        }
        self.maxentitydepth - self.currententitydepth
    }

    /// The replacement text of the general entity `name`, if one is declared.
    pub fn general_entity(&self, name: &String) -> (r: Option<String>)
        ensures
            r.repr() == entity_text(self.repr().dtd.generalentities, name@, true),
    {
        self.dtd.general_entity(name)
    }

    /// The replacement text of the parameter entity `name`, if one is declared.
    pub fn param_entity(&self, name: &String) -> (r: Option<String>)
        ensures
            r.repr() == entity_text(self.repr().dtd.paramentities, name@, false),
    {
        self.dtd.param_entity(name)
    }

    /// The configuration with `decl` recorded under `name`.
    pub fn declare(self, name: String, decl: DTDDecl) -> (c: ParserConfig)
        ensures
            c.repr() == (ConfigView {
                dtd: declared(self.repr().dtd, name@, decl.repr()),
                ..self.repr()
            }),
    {
        proof {
            use_type_invariant(&self);
        }
        ParserConfig {
            dtd: self.dtd.declare(name, decl),
            maxentitydepth: self.maxentitydepth,
            currententitydepth: self.currententitydepth,
            entityindex: self.entityindex,
        }
    }

    /// Records the expansion, at position `at`, of an entity whose
    /// replacement text has `len` characters.
    pub(crate) fn record_expansion(&mut self, at: usize, len: usize)
        requires
            old(self).repr().depth < old(self).repr().max_depth,
            at + len <= usize::MAX,
        ensures
            final(self).repr() == expanded(old(self).repr(), at as int, len as int),
    {
        if at > self.entityindex {
            self.currententitydepth = 0;
            self.entityindex = at + len;
        } else {
            self.currententitydepth = self.currententitydepth + 1;
        }
    }
}

} // verus!
