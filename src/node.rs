//! Nodes of the syntax tree and the references that link them.

use vstd::prelude::*;

verus! {

/// A reference to one slot of a node store (`Handle`).
///
/// Only a store hands these out: the slot is where the node was put, `store`
/// is the identity of the store that issued it, and the epoch is that store's
/// epoch at that moment. The reference counts as live only in that store, and
/// only until the store is reset, which starts a later epoch.
#[derive(Clone, Copy, Debug, PartialEq, Eq, Structural)]
pub struct Bin {
    pub(crate) slot: u16,
    pub(crate) store: u64,
    pub(crate) epoch: u64,
}

impl Bin {
    /// The identity of the store that issued this reference.
    pub open(crate) spec fn store(&self) -> nat {
        self.store as nat
    }

    /// The slot this reference points at.
    pub open(crate) spec fn slot(&self) -> nat {
        self.slot as nat
    }

    /// The epoch of the store at the time this reference was issued.
    pub open(crate) spec fn epoch(&self) -> nat {
        self.epoch as nat
    }
}

/// Errors reported to the caller.
#[derive(Clone, Copy, Debug, PartialEq, Eq, Structural)]
pub enum Error {
    /// The store is full.
    NoSpace,
    /// The node kind cannot be rendered.
    NotImplemented,
}

/// One construct of the syntax tree. Child nodes are referred to by `Bin`.
#[derive(Clone, Copy, Debug, PartialEq, Eq, Structural)]
pub enum ByteCode {
    Nil,
    Cons(Bin, Bin),
    List(Bin),
    Dict(Bin),
    Call(Bin, Bin),
    Lambda(Bin, Bin),
    Verb(u16, Bin, Bin),
    Adverb(u16, Bin, Bin),
    Ioverb(Bin),
    NameInt(Bin),
    SymbolInt(Bin),
    SequenceInt(Bin),
    Name(Bin),
    Number(i64),
    Hexlit(i64),
    Bool(bool),
    Symbol(u16),
    Sequence(Bin),
    Cell(Bin),
    Assign(Bin, Bin),
    Cond(Bin, Bin, Bin),
}

/// The references a node holds to its children, in order.
pub open spec fn children(n: ByteCode) -> Seq<Bin> {
    match n {
        ByteCode::Nil | ByteCode::Number(_) | ByteCode::Hexlit(_) | ByteCode::Bool(_)
        | ByteCode::Symbol(_) => seq![],
        ByteCode::List(a) | ByteCode::Dict(a) | ByteCode::Ioverb(a) | ByteCode::NameInt(a)
        | ByteCode::SymbolInt(a) | ByteCode::SequenceInt(a) | ByteCode::Name(a)
        | ByteCode::Sequence(a) | ByteCode::Cell(a) => seq![a],
        ByteCode::Cons(a, b) | ByteCode::Call(a, b) | ByteCode::Lambda(a, b)
        | ByteCode::Verb(_, a, b) | ByteCode::Adverb(_, a, b) | ByteCode::Assign(a, b) => seq![
            a,
            b,
        ],
        ByteCode::Cond(a, b, c) => seq![a, b, c],
    }
}

} // verus!
