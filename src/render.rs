//! Rendering a stored tree back into source-like text.

use vstd::prelude::*;

use crate::decimal::{append_int, append_nat, int_text, nat_text};
use crate::node::{children, Bin, ByteCode, Error};
use crate::pool::{linked_below, Handle};

verus! {

/// Joins two pieces of text; no text when either has none.
pub open spec fn cat(x: Option<Seq<char>>, y: Option<Seq<char>>) -> Option<Seq<char>> {
    match (x, y) {
        (Some(a), Some(b)) => Some(a + b),
        _ => None,
    }
}

/// What joins the two halves of a `Cons` or `Call`: a space, and `;` inside
/// the parameter list of a lambda.
pub open spec fn sep(in_params: bool) -> Seq<char> {
    if in_params {
        ";"@
    } else {
        " "@
    }
}

/// The text of child `b` of the node at slot `parent`.
pub open spec fn child_text(nodes: Seq<ByteCode>, parent: int, b: Bin, in_params: bool) -> Option<
    Seq<char>,
>
    decreases parent, 0int,
{
    if b.slot() < parent {
        node_text(nodes, b.slot() as int, in_params)
    } else {
        None
    }
}

/// The text of the tree rooted at slot `i`, or none where it holds a node
/// kind that has no text (`Sequence`, `SequenceInt`).
pub open spec fn node_text(nodes: Seq<ByteCode>, i: int, in_params: bool) -> Option<Seq<char>>
    decreases i, 1int,
{
    if 0 <= i < nodes.len() {
        match nodes[i] {
            ByteCode::Nil => Some(Seq::empty()),
            ByteCode::Cons(a, b) | ByteCode::Call(a, b) => cat(
                cat(child_text(nodes, i, a, in_params), Some(sep(in_params))),
                child_text(nodes, i, b, in_params),
            ),
            ByteCode::List(a) | ByteCode::Ioverb(a) | ByteCode::Name(a) | ByteCode::NameInt(a)
            | ByteCode::SymbolInt(a) | ByteCode::Cell(a) => child_text(nodes, i, a, in_params),
            ByteCode::Dict(d) => cat(
                cat(Some("["@), child_text(nodes, i, d, in_params)),
                Some(";]"@),
            ),
            ByteCode::Lambda(a, b) => if a.slot() < i && nodes[a.slot() as int] is Nil {
                cat(cat(Some("{[x]"@), child_text(nodes, i, b, in_params)), Some("}"@))
            } else {
                cat(
                    cat(
                        cat(cat(Some("{["@), child_text(nodes, i, a, true)), Some("]"@)),
                        child_text(nodes, i, b, in_params),
                    ),
                    Some("}"@),
                )
            },
            ByteCode::Verb(op, l, r) | ByteCode::Adverb(op, l, r) => cat(
                cat(child_text(nodes, i, l, in_params), Some(nat_text(op as nat))),
                child_text(nodes, i, r, in_params),
            ),
            ByteCode::Number(n) => Some(int_text(n as int)),
            ByteCode::Hexlit(n) => Some("0x"@ + int_text(n as int)),
            ByteCode::Bool(b) => Some(
                if b {
                    "true"@
                } else {
                    "false"@
                },
            ),
            ByteCode::Symbol(id) => Some(nat_text(id as nat)),
            ByteCode::Sequence(_) | ByteCode::SequenceInt(_) => None,
            ByteCode::Assign(t, v) => cat(
                cat(child_text(nodes, i, t, in_params), Some(":"@)),
                child_text(nodes, i, v, in_params),
            ),
            ByteCode::Cond(c, a, b) => cat(
                cat(
                    cat(
                        cat(cat(Some("$["@), child_text(nodes, i, c, in_params)), Some(";"@)),
                        child_text(nodes, i, a, in_params),
                    ),
                    Some(";"@),
                ),
                cat(child_text(nodes, i, b, in_params), Some("]"@)),
            ),
        }
    } else {
        None
    }
}

/// Rendering into a buffer that held `before` left `after` and returned `r`:
/// on success the text `t` was appended, else there is no text.
pub open spec fn rendered_into(
    before: Seq<char>,
    after: Seq<char>,
    t: Option<Seq<char>>,
    r: Result<(), Error>,
) -> bool {
    match r {
        Ok(_) => t matches Some(s) && after == before + s,
        Err(e) => e == Error::NotImplemented && t is None,
    }
}

/// What `render` of `b` in `h` returns: the text of the tree, or
/// `NotImplemented` exactly when it has none.
pub open spec fn render_post(h: Handle, b: Bin, r: Result<String, Error>) -> bool {
    match r {
        Ok(s) => h.text(b) == Some(s@),
        Err(e) => e == Error::NotImplemented && h.text(b) is None,
    }
}

impl Handle {
    /// The text of the tree that `b` points at.
    pub open spec fn text(&self, b: Bin) -> Option<Seq<char>> {
        node_text(self.nodes(), b.slot() as int, false)
    }

    /// Appends the text of the tree that `b` points at to `out`; `b` is a
    /// child of the node at slot `parent`.
    fn render_link(&self, parent: u16, b: Bin, in_params: bool, out: &mut String) -> (r: Result<
        (),
        Error,
    >)
        requires
            self.wf(),
            b.slot() < parent < self.nodes().len(),
        ensures
            rendered_into(old(out)@, final(out)@, child_text(self.nodes(), parent as int, b, in_params), r),
        decreases parent, 0int,
    {
        self.render_slot(b.slot, in_params, out)
    }

    /// Appends the text of `a`, then `mid`, then the text of `b`; both are
    /// children of the node at slot `i`.
    fn render_pair(&self, i: u16, a: Bin, mid: &str, b: Bin, in_params: bool, out: &mut String) -> (r:
        Result<(), Error>)
        requires
            self.wf(),
            a.slot() < i < self.nodes().len(),
            b.slot() < i,
        ensures
            rendered_into(
                old(out)@,
                final(out)@,
                cat(
                    cat(child_text(self.nodes(), i as int, a, in_params), Some(mid@)),
                    child_text(self.nodes(), i as int, b, in_params),
                ),
                r,
            ),
        decreases i, 1int,
    {
        let ghost start = out@;
        self.render_link(i, a, in_params, out)?;
        out.append(mid);
        self.render_link(i, b, in_params, out)?;
        assert(out@ =~= start + (cat(
            cat(child_text(self.nodes(), i as int, a, in_params), Some(mid@)),
            child_text(self.nodes(), i as int, b, in_params),
        ))->0);
        Ok(())
    }

    /// Appends `pre`, then the text of `a`, then `post`; `a` is a child of
    /// the node at slot `i`.
    fn render_wrapped(
        &self,
        i: u16,
        pre: &str,
        a: Bin,
        a_params: bool,
        post: &str,
        out: &mut String,
    ) -> (r: Result<(), Error>)
        requires
            self.wf(),
            a.slot() < i < self.nodes().len(),
        ensures
            rendered_into(
                old(out)@,
                final(out)@,
                cat(cat(Some(pre@), child_text(self.nodes(), i as int, a, a_params)), Some(post@)),
                r,
            ),
        decreases i, 1int,
    {
        let ghost start = out@;
        out.append(pre);
        self.render_link(i, a, a_params, out)?;
        out.append(post);
        assert(out@ =~= start + (cat(
            cat(Some(pre@), child_text(self.nodes(), i as int, a, a_params)),
            Some(post@),
        ))->0);
        Ok(())
    }

    /// Appends the text of an operator application: left operand, code, right operand.
    fn render_verb(&self, i: u16, op: u16, l: Bin, r: Bin, in_params: bool, out: &mut String) -> (res:
        Result<(), Error>)
        requires
            self.wf(),
            l.slot() < i < self.nodes().len(),
            r.slot() < i,
        ensures
            rendered_into(
                old(out)@,
                final(out)@,
                cat(
                    cat(child_text(self.nodes(), i as int, l, in_params), Some(nat_text(op as nat))),
                    child_text(self.nodes(), i as int, r, in_params),
                ),
                res,
            ),
        decreases i, 1int,
    {
        let ghost start = out@;
        self.render_link(i, l, in_params, out)?;
        append_nat(out, op as u64);
        self.render_link(i, r, in_params, out)?;
        assert(out@ =~= start + (cat(
            cat(child_text(self.nodes(), i as int, l, in_params), Some(nat_text(op as nat))),
            child_text(self.nodes(), i as int, r, in_params),
        ))->0);
        Ok(())
    }

    /// Appends the text of a lambda with parameters `a` and body `b`, both
    /// children of the node at slot `i`.
    fn render_lambda(&self, i: u16, a: Bin, b: Bin, in_params: bool, out: &mut String) -> (r: Result<
        (),
        Error,
    >)
        requires
            self.wf(),
            a.slot() < i < self.nodes().len(),
            b.slot() < i,
            self.nodes()[i as int] == ByteCode::Lambda(a, b),
        ensures
            rendered_into(old(out)@, final(out)@, node_text(self.nodes(), i as int, in_params), r),
        decreases i, 2int,
    {
        let ghost nodes = self.nodes();
        let ghost start = out@;
        if let ByteCode::Nil = self.nodes[a.slot as usize] {
            self.render_wrapped(i, "{[x]", b, in_params, "}", out)
        } else {
            let ghost head = cat(cat(Some("{["@), child_text(nodes, i as int, a, true)), Some("]"@));
            self.render_wrapped(i, "{[", a, true, "]", out)?;
            self.render_link(i, b, in_params, out)?;
            out.append("}");
            assert(out@ =~= start + (cat(
                cat(head, child_text(nodes, i as int, b, in_params)),
                Some("}"@),
            ))->0);
            Ok(())
        }
    }

    /// Appends the text of a conditional with parts `c`, `a` and `b`, all
    /// children of the node at slot `i`.
    fn render_cond(&self, i: u16, c: Bin, a: Bin, b: Bin, in_params: bool, out: &mut String) -> (r:
        Result<(), Error>)
        requires
            self.wf(),
            c.slot() < i < self.nodes().len(),
            a.slot() < i,
            b.slot() < i,
            self.nodes()[i as int] == ByteCode::Cond(c, a, b),
        ensures
            rendered_into(old(out)@, final(out)@, node_text(self.nodes(), i as int, in_params), r),
        decreases i, 2int,
    {
        let ghost nodes = self.nodes();
        let ghost start = out@;
        self.render_wrapped(i, "$[", c, in_params, ";", out)?;
        self.render_link(i, a, in_params, out)?;
        out.append(";");
        self.render_wrapped(i, "", b, in_params, "]", out)?;
        proof {
            reveal_strlit("");
        }
        assert(out@ =~= start + node_text(nodes, i as int, in_params)->0);
        Ok(())
    }

    /// Appends the text of the tree rooted at slot `i` to `out`.
    fn render_slot(&self, i: u16, in_params: bool, out: &mut String) -> (r: Result<(), Error>)
        requires
            self.wf(),
            i < self.nodes().len(),
        ensures
            rendered_into(old(out)@, final(out)@, node_text(self.nodes(), i as int, in_params), r),
        decreases i, 3int,
    {
        let ghost nodes = self.nodes();
        let ghost start = out@;
        proof {
            assert(linked_below(nodes[i as int], i as int, self.id(), self.epoch()));
        }
        match self.nodes[i as usize] {
            ByteCode::Nil => {
                assert(start + Seq::<char>::empty() =~= start);
                Ok(())
            },
            ByteCode::Cons(a, b) | ByteCode::Call(a, b) => {
                assert(children(nodes[i as int])[0] == a && children(nodes[i as int])[1] == b);
                if in_params {
                    self.render_pair(i, a, ";", b, in_params, out)
                } else {
                    self.render_pair(i, a, " ", b, in_params, out)
                }
            },
            ByteCode::List(a) | ByteCode::Ioverb(a) | ByteCode::Name(a) | ByteCode::NameInt(a)
            | ByteCode::SymbolInt(a) | ByteCode::Cell(a) => {
                assert(children(nodes[i as int])[0] == a);
                self.render_link(i, a, in_params, out)
            },
            ByteCode::Dict(d) => {
                assert(children(nodes[i as int])[0] == d);
                self.render_wrapped(i, "[", d, in_params, ";]", out)
            },
            ByteCode::Lambda(a, b) => {
                assert(children(nodes[i as int])[0] == a && children(nodes[i as int])[1] == b);
                self.render_lambda(i, a, b, in_params, out)
            },
            ByteCode::Verb(op, l, r) | ByteCode::Adverb(op, l, r) => {
                assert(children(nodes[i as int])[0] == l && children(nodes[i as int])[1] == r);
                self.render_verb(i, op, l, r, in_params, out)
            },
            ByteCode::Number(n) => {
                append_int(out, n);
                Ok(())
            },
            ByteCode::Hexlit(n) => {
                out.append("0x");
                append_int(out, n);
                assert(out@ =~= start + ("0x"@ + int_text(n as int)));
                Ok(())
            },
            ByteCode::Bool(b) => {
                if b {
                    out.append("true");
                } else {
                    out.append("false");
                }
                Ok(())
            },
            ByteCode::Symbol(id) => {
                append_nat(out, id as u64);
                Ok(())
            },
            ByteCode::Sequence(_) | ByteCode::SequenceInt(_) => Err(Error::NotImplemented),
            ByteCode::Assign(a, v) => {
                assert(children(nodes[i as int])[0] == a && children(nodes[i as int])[1] == v);
                self.render_pair(i, a, ":", v, in_params, out)
            },
            ByteCode::Cond(c, a, b) => {
                assert(children(nodes[i as int])[0] == c && children(nodes[i as int])[1] == a
                    && children(nodes[i as int])[2] == b);
                self.render_cond(i, c, a, b, in_params, out)
            },
        }
    }

    /// The text of the tree that `b` points at; `NotImplemented` when the
    /// tree holds a node kind that has no text.
    pub fn render(&self, b: Bin) -> (r: Result<String, Error>)
        requires
            self.wf(),
            self.live(b),
        ensures
            render_post(*self, b, r),
    {
        let mut out = String::new();
        match self.render_slot(b.slot, false, &mut out) {
            Ok(()) => {
                assert(out@ =~= Seq::<char>::empty() + out@);
                Ok(out)
            },
            Err(e) => Err(e),
        }
    }
}

} // verus!
