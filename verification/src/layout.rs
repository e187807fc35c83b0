//! Seam to the `pretty` layout engine.
//!
//! Verified code builds `pretty::RcDoc` values only through the wrappers in
//! this module. Each wrapper's contract describes the document it returns
//! through three names:
//!
//! - `doc_lines(d)`: the lines of text that `d` lays out, in order. Every
//!   document lays out at least one (possibly empty) line; a mandatory line
//!   break ends the current line and opens the next one.
//! - `doc_closed(d)`: `d` holds no primitive token, or its last primitive
//!   token (in layout order) is a piece of text rather than a line break.
//! - `doc_flat(d)`: if the last primitive token of `d` is a line break, that
//!   break stands under no indentation scope of `d`. (The engine draws the
//!   indentation of a line from the token that opens it, so a document whose
//!   trailing break sits under an indentation scope lays that trailing line
//!   out differently alone than followed by more text. The wrappers below
//!   only promise compositional layout where that ambiguity cannot arise.)
//!
//! None of the wrappers creates a collapsible line break (`pretty`'s `line`,
//! `softline`, `flat_alt` or `union`), so every document built here lays out
//! the same way at every width budget: groups collapse nothing, and the
//! rendered text is exactly the joined `doc_lines`.

use vstd::prelude::*;

verus! {

#[verifier::external_type_specification]
#[verifier::external_body]
#[verifier::reject_recursive_types(A)]
pub struct ExRcDoc<'a, A>(pretty::RcDoc<'a, A>);

/// The lines of text that a document lays out, in order.
pub uninterp spec fn doc_lines(d: pretty::RcDoc<'static, ()>) -> Seq<Seq<char>>;

/// The document holds no primitive token, or ends (in layout order) with text.
pub uninterp spec fn doc_closed(d: pretty::RcDoc<'static, ()>) -> bool;

/// If the document ends with a line break, that break is under no indentation scope.
pub uninterp spec fn doc_flat(d: pretty::RcDoc<'static, ()>) -> bool;

/// `n` spaces.
pub open spec fn spaces(n: nat) -> Seq<char>
    decreases n,
{
    if n == 0 {
        Seq::empty()
    } else {
        spaces((n - 1) as nat) + seq![' ']
    }
}

/// The lines of two documents laid out one after the other: the first
/// document's last line and the second one's first line share a line.
pub open spec fn lines_append(a: Seq<Seq<char>>, b: Seq<Seq<char>>) -> Seq<Seq<char>> {
    if a.len() == 0 {
        b
    } else if b.len() == 0 {
        a
    } else {
        a.drop_last() + seq![a.last() + b.first()] + b.drop_first()
    }
}

/// Lines under an indentation scope of `n`: every line after the first is
/// opened by a line break inside the scope, so it gains `n` leading spaces.
pub open spec fn nest_lines(n: nat, ls: Seq<Seq<char>>) -> Seq<Seq<char>> {
    ls.map(|i: int, l: Seq<char>| if i == 0 { l } else { spaces(n) + l })
}

/// Lines joined by newline characters into one text.
pub open spec fn join_lines(ls: Seq<Seq<char>>) -> Seq<char>
    decreases ls.len(),
{
    if ls.len() == 0 {
        Seq::empty()
    } else if ls.len() == 1 {
        ls[0]
    } else {
        ls[0] + seq!['\n'] + join_lines(ls.drop_first())
    }
}

/// Text free of line breaks, fit to stand inside one layout line.
pub open spec fn line_free(s: Seq<char>) -> bool {
    forall|i: int| 0 <= i < s.len() ==> s[i] != '\n'
}

/// Relies on pretty's `RcDoc::nil`: the empty document.
#[verifier::external_body]
pub(crate) fn d_nil() -> (d: pretty::RcDoc<'static, ()>)
    ensures
        doc_lines(d) == seq![Seq::<char>::empty()],
        doc_closed(d),
        doc_flat(d),
{
    pretty::RcDoc::nil()
}

/// Relies on pretty's `RcDoc::text`: one piece of text, on one line.
#[verifier::external_body]
pub(crate) fn d_text(s: &str) -> (d: pretty::RcDoc<'static, ()>)
    requires
        line_free(s@),
    ensures
        doc_lines(d) == seq![s@],
        doc_closed(d),
        doc_flat(d),
{
    pretty::RcDoc::text(s.to_string())
}

/// Relies on pretty's `RcDoc::space`: a single-space text.
#[verifier::external_body]
pub(crate) fn d_space() -> (d: pretty::RcDoc<'static, ()>)
    ensures
        doc_lines(d) == seq![" "@],
        doc_closed(d),
        doc_flat(d),
{
    pretty::RcDoc::space()
}

/// Relies on pretty's `RcDoc::hardline`: a mandatory line break.
#[verifier::external_body]
pub(crate) fn d_hardline() -> (d: pretty::RcDoc<'static, ()>)
    ensures
        doc_lines(d) == seq![Seq::<char>::empty(), Seq::<char>::empty()],
        doc_flat(d),
{
    pretty::RcDoc::hardline()
}

/// Relies on pretty's `RcDoc::append`: the two documents laid out in order.
#[verifier::external_body]
pub(crate) fn d_append(
    a: pretty::RcDoc<'static, ()>,
    b: pretty::RcDoc<'static, ()>,
) -> (d: pretty::RcDoc<'static, ()>)
    requires
        doc_flat(a),
    ensures
        doc_lines(d) == lines_append(doc_lines(a), doc_lines(b)),
        doc_flat(b) ==> doc_flat(d),
        doc_closed(a) && doc_closed(b) ==> doc_closed(d),
        doc_closed(b) && doc_lines(b).first().len() > 0 ==> doc_closed(d),
{
    a.append(b)
}

/// Relies on pretty's `RcDoc::nest`: the document under an indentation scope.
/// The engine takes the offset as a signed number, so the bound keeps the
/// cast below from turning the indentation negative.
#[verifier::external_body]
pub(crate) fn d_nest(d: pretty::RcDoc<'static, ()>, n: usize) -> (r: pretty::RcDoc<'static, ()>)
    requires
        doc_closed(d),
        n <= isize::MAX as usize,
    ensures
        doc_lines(r) == nest_lines(n as nat, doc_lines(d)),
        doc_closed(r),
        doc_flat(r),
{
    d.nest(n as isize)
}

/// Relies on pretty's `RcDoc::group`: grouping changes only how collapsible
/// breaks lay out, and no wrapper of this module creates one.
#[verifier::external_body]
pub(crate) fn d_group(d: pretty::RcDoc<'static, ()>) -> (r: pretty::RcDoc<'static, ()>)
    ensures
        doc_lines(r) == doc_lines(d),
        doc_closed(r) == doc_closed(d),
        doc_flat(r) == doc_flat(d),
{
    d.group()
}

/// Relies on pretty's `Doc::pretty` rendering: with only mandatory breaks in
/// the document, the text is its lines joined by newlines, at any width.
#[verifier::external_body]
pub(crate) fn d_render(d: &pretty::RcDoc<'static, ()>) -> (s: String)
    ensures
        s@ == join_lines(doc_lines(*d)),
{
    format!("{}", d.pretty(PRETTY_WIDTH))
}

/// The column budget the engine lays documents out against.
pub const PRETTY_WIDTH: usize = 100;

/// The indentation unit of one nesting scope.
pub const PRETTY_INDENT: usize = 2;

} // verus!
