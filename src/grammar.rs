//! The grammar of assignment expressions, as spec functions over the pending
//! token stream. Each function gives the tree built and the stream left over,
//! or the error; the executable parsers are proved to agree with them.
use vstd::prelude::*;
use crate::cursor::{after_next, peek_at, starts_with_lt, ParseError};
use crate::node::{Expr, Node, ParamView};
use crate::token::{assign_op_of, BinOp, KindView, Keyword, NumOp, Punctuator, TokenView};

verus! {

/// The three grammar parameters, forwarded unchanged to every sub-parser.
#[derive(Debug, Clone, Copy, PartialEq, Eq)]
pub struct GrammarFlags {
    /// Whether `in` is a binary operator here (not in a `for` head).
    pub allow_in: bool,
    /// Whether `yield` starts a yield expression (inside a generator).
    pub allow_yield: bool,
    /// Whether `await` is a unary operator (inside an async body).
    pub allow_await: bool,
}

pub type SpecResult = Result<(Expr, Seq<TokenView>), ParseError>;

pub type ParamsResult = Result<(Seq<ParamView>, Seq<TokenView>), ParseError>;

/// The kind of the next token, with or without skipping line terminators.
pub open spec fn peek_kind(s: Seq<TokenView>, skip: bool) -> Option<KindView> {
    match peek_at(s, skip) {
        Some(t) => Some(t.kind),
        None => None,
    }
}

/// Whether an executable parse result, with the stream `after` it left,
/// is the one that the grammar gives.
pub open spec fn parsed(res: Result<Node, ParseError>, after: Seq<TokenView>, expected: SpecResult) -> bool {
    match res {
        Ok(n) => expected == Ok::<(Expr, Seq<TokenView>), ParseError>((n.view(), after)),
        Err(e) => expected == Err::<(Expr, Seq<TokenView>), ParseError>(e),
    }
}

/// Whether a parse that went from `before` to `after` consumed a token.
///
/// A successful operand always does; the grammar tests it before going on
/// from an operand's leftover stream, which keeps its recursion well founded.
pub open spec fn consumed(after: Seq<TokenView>, before: Seq<TokenView>) -> bool {
    after.len() < before.len()
}

/// The name that a keyword has where it stands for an identifier.
pub open spec fn keyword_name(k: Keyword) -> Seq<char> {
    match k {
        Keyword::Yield => "yield"@,
        Keyword::Await => "await"@,
    }
}

/// The arrow-function test: an identifier (or `yield` / `await`) directly
/// followed by `=>`, or `(` followed by `)`, `...` or an identifier.
pub open spec fn arrow_ahead(s: Seq<TokenView>) -> bool {
    match peek_kind(s, true) {
        Some(KindView::Ident(_)) | Some(KindView::Kw(_)) => s.len() > 1 && s[1].kind == KindView::Punct(
            Punctuator::Arrow,
        ),
        Some(KindView::Punct(Punctuator::OpenParen)) => s.len() > 1 && (s[1].kind == KindView::Punct(
            Punctuator::CloseParen,
        ) || s[1].kind == KindView::Punct(Punctuator::Spread) || s[1].kind is Ident),
        _ => false,
    }
}

/// A node may be the target of an assignment unless it is a literal
/// constant or an array literal.
pub open spec fn assignable(e: Expr) -> bool {
    !(e is Num || e is Str || e is Bool || e is Array)
}

/// `s` with the remembered line terminator `lt`, if any, in front.
pub open spec fn restore(lt: Option<TokenView>, s: Seq<TokenView>) -> Seq<TokenView> {
    match lt {
        Some(t) => seq![t] + s,
        None => s,
    }
}

/// After a right operand: the remembered line terminator is put in front
/// unless the stream already starts with one (the right operand's own, which
/// holds the one push-back slot and is kept).
pub open spec fn restore_after_operand(lt: Option<TokenView>, s: Seq<TokenView>) -> Seq<TokenView> {
    if starts_with_lt(s) {
        s
    } else {
        restore(lt, s)
    }
}

/// AssignmentExpression: an arrow function, or an operand followed by at
/// most one (right-associative) assignment operator.
pub open spec fn assignment(s: Seq<TokenView>, f: GrammarFlags) -> SpecResult
    decreases s.len(), 4int,
{
    if peek_at(s, true) is None {
        Err(ParseError::AbruptEnd)
    } else if arrow_ahead(s) {
        arrow_function(s, f)
    } else {
        match conditional(s, f) {
            Err(e) => Err(e),
            Ok((lhs, r)) => if consumed(r, s) {
                assignment_tail(lhs, None, r, f)
            } else {
                Err(ParseError::AbruptEnd)
            },
        }
    }
}

/// What follows the left operand: line terminators are passed over and the
/// last of them, `lt`, is remembered. With no operator next it is restored
/// in front of the stream. An operator takes the rest of the expression as
/// its right operand, after which `lt` is restored as well, unless the
/// stream left then already starts with a line terminator.
pub open spec fn assignment_tail(
    lhs: Expr,
    lt: Option<TokenView>,
    r: Seq<TokenView>,
    f: GrammarFlags,
) -> SpecResult
    decreases r.len(), 1int,
{
    if r.len() == 0 {
        Ok((lhs, restore(lt, r)))
    } else {
        match r[0].kind {
            KindView::Punct(Punctuator::Assign) => if !assignable(lhs) {
                Err(ParseError::InvalidLeftHandSide(r[0].position))
            } else {
                match assignment(r.drop_first(), f) {
                    Err(e) => Err(e),
                    Ok((rhs, r2)) => Ok(
                        (
                            Expr::Assign(Box::new(lhs), Box::new(rhs)),
                            restore_after_operand(lt, r2),
                        ),
                    ),
                }
            },
            KindView::Punct(p) => match assign_op_of(p) {
                Some(op) => if !assignable(lhs) {
                    Err(ParseError::InvalidLeftHandSide(r[0].position))
                } else {
                    match assignment(r.drop_first(), f) {
                        Err(e) => Err(e),
                        Ok((rhs, r2)) => Ok(
                            (
                                Expr::Bin(BinOp::Assign(op), Box::new(lhs), Box::new(rhs)),
                                restore_after_operand(lt, r2),
                            ),
                        ),
                    }
                },
                None => Ok((lhs, restore(lt, r))),
            },
            KindView::LineTerminator => assignment_tail(lhs, Some(r[0]), r.drop_first(), f),
            _ => Ok((lhs, restore(lt, r))),
        }
    }
}

/// The operand grammar below assignment: primary expressions joined by
/// left-associative `+` and `-`.
pub open spec fn conditional(s: Seq<TokenView>, f: GrammarFlags) -> SpecResult
    decreases s.len(), 3int,
{
    match primary(s, f) {
        Err(e) => Err(e),
        Ok((e, r)) => if consumed(r, s) {
            additive_tail(e, r, f)
        } else {
            Err(ParseError::AbruptEnd)
        },
    }
}

pub open spec fn additive_op(t: Option<KindView>) -> Option<NumOp> {
    match t {
        Some(KindView::Punct(Punctuator::Add)) => Some(NumOp::Add),
        Some(KindView::Punct(Punctuator::Sub)) => Some(NumOp::Sub),
        _ => None,
    }
}

pub open spec fn additive_tail(left: Expr, r: Seq<TokenView>, f: GrammarFlags) -> SpecResult
    decreases r.len(), 1int,
{
    match additive_op(peek_kind(r, false)) {
        Some(op) => {
            let r1 = after_next(r, false);
            match primary(r1, f) {
                Err(e) => Err(e),
                Ok((right, r2)) => if consumed(r2, r1) {
                    additive_tail(Expr::Bin(BinOp::Num(op), Box::new(left), Box::new(right)), r2, f)
                } else {
                    Err(ParseError::AbruptEnd)
                },
            }
        },
        None => Ok((left, r)),
    }
}

/// Primary expressions: identifiers, literals, `yield`, `await`, array
/// literals and parenthesised expressions.
pub open spec fn primary(s: Seq<TokenView>, f: GrammarFlags) -> SpecResult
    decreases s.len(), 2int,
{
    match peek_kind(s, true) {
        None => Err(ParseError::AbruptEnd),
        Some(t) => {
            let r = after_next(s, true);
            match t {
                KindView::Ident(n) => Ok((Expr::Ident(n), r)),
                KindView::Num(v) => Ok((Expr::Num(v), r)),
                KindView::Str(v) => Ok((Expr::Str(v), r)),
                KindView::Bool(v) => Ok((Expr::Bool(v), r)),
                KindView::Kw(Keyword::Yield) => if f.allow_yield {
                    Ok((Expr::Yield, r))
                } else {
                    Ok((Expr::Ident(keyword_name(Keyword::Yield)), r))
                },
                KindView::Kw(Keyword::Await) => if f.allow_await {
                    match primary(r, f) {
                        Err(e) => Err(e),
                        Ok((e, r2)) => Ok((Expr::Await(Box::new(e)), r2)),
                    }
                } else {
                    Ok((Expr::Ident(keyword_name(Keyword::Await)), r))
                },
                KindView::Punct(Punctuator::OpenParen) => match assignment(r, f) {
                    Err(e) => Err(e),
                    Ok((e, r2)) => match peek_kind(r2, true) {
                        None => Err(ParseError::AbruptEnd),
                        Some(KindView::Punct(Punctuator::CloseParen)) => Ok(
                            (e, after_next(r2, true)),
                        ),
                        Some(_) => Err(ParseError::Unexpected),
                    },
                },
                KindView::Punct(Punctuator::OpenBracket) => elements(Seq::empty(), r, f),
                _ => Err(ParseError::Unexpected),
            }
        },
    }
}

/// The elements of an array literal after `[`, `acc` holding those read.
pub open spec fn elements(acc: Seq<Expr>, r: Seq<TokenView>, f: GrammarFlags) -> SpecResult
    decreases r.len(), 5int,
{
    match peek_kind(r, true) {
        None => Err(ParseError::AbruptEnd),
        Some(KindView::Punct(Punctuator::CloseBracket)) => Ok(
            (Expr::Array(acc), after_next(r, true)),
        ),
        Some(_) => match assignment(r, f) {
            Err(e) => Err(e),
            Ok((e, r2)) => if consumed(r2, r) {
                match peek_kind(r2, true) {
                    None => Err(ParseError::AbruptEnd),
                    Some(KindView::Punct(Punctuator::Comma)) => elements(
                        acc.push(e),
                        after_next(r2, true),
                        f,
                    ),
                    Some(KindView::Punct(Punctuator::CloseBracket)) => Ok(
                        (Expr::Array(acc.push(e)), after_next(r2, true)),
                    ),
                    Some(_) => Err(ParseError::Unexpected),
                }
            } else {
                Err(ParseError::AbruptEnd)
            },
        },
    }
}

/// A parenthesised parameter list after `(`, `acc` holding those read:
/// identifiers separated by commas, the last one possibly `...name`.
pub open spec fn param_list(acc: Seq<ParamView>, r: Seq<TokenView>) -> ParamsResult
    decreases r.len(),
{
    match peek_kind(r, true) {
        None => Err(ParseError::AbruptEnd),
        Some(KindView::Punct(Punctuator::CloseParen)) => Ok((acc, after_next(r, true))),
        Some(KindView::Punct(Punctuator::Spread)) => {
            let r1 = after_next(r, true);
            match peek_kind(r1, true) {
                None => Err(ParseError::AbruptEnd),
                Some(KindView::Ident(n)) => {
                    let r2 = after_next(r1, true);
                    match peek_kind(r2, true) {
                        None => Err(ParseError::AbruptEnd),
                        Some(KindView::Punct(Punctuator::CloseParen)) => Ok(
                            (acc.push(ParamView { name: n, rest: true }), after_next(r2, true)),
                        ),
                        Some(_) => Err(ParseError::Unexpected),
                    }
                },
                Some(_) => Err(ParseError::Unexpected),
            }
        },
        Some(KindView::Ident(n)) => {
            let r1 = after_next(r, true);
            let acc1 = acc.push(ParamView { name: n, rest: false });
            match peek_kind(r1, true) {
                None => Err(ParseError::AbruptEnd),
                Some(KindView::Punct(Punctuator::Comma)) => param_list(acc1, after_next(r1, true)),
                Some(KindView::Punct(Punctuator::CloseParen)) => Ok((acc1, after_next(r1, true))),
                Some(_) => Err(ParseError::Unexpected),
            }
        },
        Some(_) => Err(ParseError::Unexpected),
    }
}

/// The parameters of an arrow function: a single name or a parenthesised list.
pub open spec fn arrow_params(s: Seq<TokenView>) -> ParamsResult {
    match peek_kind(s, true) {
        None => Err(ParseError::AbruptEnd),
        Some(KindView::Ident(n)) => Ok(
            (seq![ParamView { name: n, rest: false }], after_next(s, true)),
        ),
        Some(KindView::Kw(k)) => Ok(
            (seq![ParamView { name: keyword_name(k), rest: false }], after_next(s, true)),
        ),
        Some(KindView::Punct(Punctuator::OpenParen)) => param_list(
            Seq::empty(),
            after_next(s, true),
        ),
        Some(_) => Err(ParseError::Unexpected),
    }
}

/// ArrowFunction: parameters, `=>` with no line break before it, and an
/// assignment expression as its body.
pub open spec fn arrow_function(s: Seq<TokenView>, f: GrammarFlags) -> SpecResult
    decreases s.len(), 3int,
{
    match arrow_params(s) {
        Err(e) => Err(e),
        Ok((ps, r)) => if r.len() == 0 {
            Err(ParseError::AbruptEnd)
        } else if r[0].kind != KindView::Punct(Punctuator::Arrow) {
            Err(ParseError::Unexpected)
        } else if consumed(r, s) {
            match assignment(r.drop_first(), f) {
                Err(e) => Err(e),
                Ok((body, r2)) => Ok((Expr::Arrow(ps, Box::new(body)), r2)),
            }
        } else {
            Err(ParseError::AbruptEnd)
        },
    }
}

} // verus!
