//! The constant-declaration node of the syntax tree, and the tokens it is
//! made of.  The node is a plain data holder; its one operation computes the
//! span the whole declaration covers.

use vstd::prelude::*;
use crate::span::Span;

verus! {

/// The `pub` keyword token.
#[derive(Debug)]
pub struct PubToken {
    pub span: Span,
}

/// The `const` keyword token.
#[derive(Debug)]
pub struct ConstToken {
    pub span: Span,
}

/// The `=` token.
#[derive(Debug)]
pub struct EqToken {
    pub span: Span,
}

/// The `;` token.
#[derive(Debug)]
pub struct SemicolonToken {
    pub span: Span,
}

/// A name in the source text.
#[derive(Debug)]
pub struct Ident {
    pub name: String,
    pub span: Span,
}

/// A type annotation, reduced to the span it covers.
#[derive(Debug)]
pub struct Ty {
    pub span: Span,
}

/// An expression, reduced to the span it covers.
#[derive(Debug)]
pub struct Expr {
    pub span: Span,
}

/// A constant declaration.
#[derive(Debug)]
pub struct ItemConst {
    pub visibility: Option<PubToken>,
    pub const_token: ConstToken,
    pub name: Ident,
    pub ty: Ty,
    pub eq_token_opt: Option<EqToken>,
    pub expr_opt: Option<Expr>,
    pub semicolon_token: SemicolonToken,
}

impl ItemConst {
    /// The span the declaration starts at: its `pub` keyword when it has
    /// one, its `const` keyword otherwise.
    pub open spec fn start_span(self) -> Span {
        match self.visibility {
            Some(p) => p.span,
            None => self.const_token.span,
        }
    }

    /// The span the declaration ends at: its initializer expression when it
    /// has one, its type annotation otherwise.
    pub open spec fn end_span(self) -> Span {
        match self.expr_opt {
            Some(e) => e.span,
            None => self.ty.span,
        }
    }

    /// All tokens of the declaration lie in one source file.
    pub open spec fn wf(self) -> bool {
        self.start_span().path@ == self.end_span().path@
    }

    /// The span the whole declaration covers: from the `pub` keyword (or the
    /// `const` keyword, without a visibility) to the initializer expression
    /// (or the type annotation, without an initializer).
    pub fn span(&self) -> (r: Span)
        requires
            self.wf(),
        ensures
            r.path@ == self.start_span().path@,
            r.start == if self.start_span().start <= self.end_span().start {
                self.start_span().start
            } else {
                self.end_span().start
            },
            r.end == if self.start_span().end >= self.end_span().end {
                self.start_span().end
            } else {
                self.end_span().end
            },
    {
        let start = match &self.visibility {
            Some(pub_token) => &pub_token.span,
            None => &self.const_token.span,
        };
        let end = match &self.expr_opt {
            Some(expr) => &expr.span,
            None => &self.ty.span,
        };
        Span::join(start, end)
    }
}

} // verus!
