//! Printing an expression back to tokens.
use vstd::prelude::*;
use crate::node::{params_view, Const, Expr, FormalParameter, Node, ParamView};
use crate::token::{AssignOp, BinOp, KindView, Keyword, NumOp, Position, Punctuator, Token, TokenKind};

verus! {

/// The punctuator of a compound-assignment operator.
pub open spec fn assign_punctuator(op: AssignOp) -> Punctuator {
    match op {
        AssignOp::Add => Punctuator::AssignAdd,
        AssignOp::Sub => Punctuator::AssignSub,
        AssignOp::Mul => Punctuator::AssignMul,
        AssignOp::Div => Punctuator::AssignDiv,
        AssignOp::Mod => Punctuator::AssignMod,
        AssignOp::Exp => Punctuator::AssignPow,
        AssignOp::And => Punctuator::AssignAnd,
        AssignOp::Or => Punctuator::AssignOr,
        AssignOp::Xor => Punctuator::AssignXor,
        AssignOp::Shl => Punctuator::AssignLeftSh,
        AssignOp::Shr => Punctuator::AssignRightSh,
        AssignOp::Ushr => Punctuator::AssignURightSh,
        AssignOp::BoolAnd => Punctuator::AssignBoolAnd,
        AssignOp::BoolOr => Punctuator::AssignBoolOr,
        AssignOp::Coalesce => Punctuator::AssignCoalesce,
    }
}

/// The punctuator of a binary operator.
pub open spec fn binop_punctuator(op: BinOp) -> Punctuator {
    match op {
        BinOp::Num(NumOp::Add) => Punctuator::Add,
        BinOp::Num(NumOp::Sub) => Punctuator::Sub,
        BinOp::Assign(a) => assign_punctuator(a),
    }
}

/// Tokens of a parameter list, without its parentheses.
pub open spec fn params_tokens(ps: Seq<ParamView>) -> Seq<KindView>
    decreases ps.len(),
{
    if ps.len() == 0 {
        Seq::empty()
    } else {
        let first = if ps[0].rest {
            seq![KindView::Punct(Punctuator::Spread), KindView::Ident(ps[0].name)]
        } else {
            seq![KindView::Ident(ps[0].name)]
        };
        if ps.len() == 1 {
            first
        } else {
            first + seq![KindView::Punct(Punctuator::Comma)] + params_tokens(ps.drop_first())
        }
    }
}

/// Tokens that spell an expression, operators written in full and no
/// parentheses added; `None` for array literals, which this printer does
/// not spell.
pub open spec fn tokens_of(e: Expr) -> Option<Seq<KindView>>
    decreases e,
{
    match e {
        Expr::Ident(n) => Some(seq![KindView::Ident(n)]),
        Expr::Num(v) => Some(seq![KindView::Num(v)]),
        Expr::Str(v) => Some(seq![KindView::Str(v)]),
        Expr::Bool(v) => Some(seq![KindView::Bool(v)]),
        Expr::Yield => Some(seq![KindView::Kw(Keyword::Yield)]),
        Expr::Await(x) => match tokens_of(*x) {
            Some(t) => Some(seq![KindView::Kw(Keyword::Await)] + t),
            None => None,
        },
        Expr::Array(_) => None,
        Expr::Assign(l, r) => match (tokens_of(*l), tokens_of(*r)) {
            (Some(a), Some(b)) => Some(a + seq![KindView::Punct(Punctuator::Assign)] + b),
            _ => None,
        },
        Expr::Bin(op, l, r) => match (tokens_of(*l), tokens_of(*r)) {
            (Some(a), Some(b)) => Some(a + seq![KindView::Punct(binop_punctuator(op))] + b),
            _ => None,
        },
        Expr::Arrow(ps, body) => match tokens_of(*body) {
            Some(b) => Some(
                seq![KindView::Punct(Punctuator::OpenParen)] + params_tokens(ps) + seq![
                    KindView::Punct(Punctuator::CloseParen),
                    KindView::Punct(Punctuator::Arrow),
                ] + b,
            ),
            None => None,
        },
    }
}

/// The kinds of a list of tokens.
pub open spec fn kinds_of(v: Seq<Token>) -> Seq<KindView> {
    v.map_values(|t: Token| t@.kind)
}

/// The punctuator of a binary operator.
pub fn binop_to_punctuator(op: BinOp) -> (r: Punctuator)
    ensures
        r == binop_punctuator(op),
{
    match op {
        BinOp::Num(NumOp::Add) => Punctuator::Add,
        BinOp::Num(NumOp::Sub) => Punctuator::Sub,
        BinOp::Assign(a) => match a {
            AssignOp::Add => Punctuator::AssignAdd,
            AssignOp::Sub => Punctuator::AssignSub,
            AssignOp::Mul => Punctuator::AssignMul,
            AssignOp::Div => Punctuator::AssignDiv,
            AssignOp::Mod => Punctuator::AssignMod,
            AssignOp::Exp => Punctuator::AssignPow,
            AssignOp::And => Punctuator::AssignAnd,
            AssignOp::Or => Punctuator::AssignOr,
            AssignOp::Xor => Punctuator::AssignXor,
            AssignOp::Shl => Punctuator::AssignLeftSh,
            AssignOp::Shr => Punctuator::AssignRightSh,
            AssignOp::Ushr => Punctuator::AssignURightSh,
            AssignOp::BoolAnd => Punctuator::AssignBoolAnd,
            AssignOp::BoolOr => Punctuator::AssignBoolOr,
            AssignOp::Coalesce => Punctuator::AssignCoalesce,
        },
    }
}

fn single(kind: TokenKind) -> (r: Vec<Token>)
    ensures
        kinds_of(r@) == seq![crate::token::kind_view(kind)],
{
    let mut v: Vec<Token> = Vec::new();
    v.push(Token::new(kind, Position::new(0, 0)));
    assert(kinds_of(v@) =~= seq![crate::token::kind_view(kind)]);
    v
}

/// `a` followed by `b`.
fn concat(a: Vec<Token>, b: Vec<Token>) -> (r: Vec<Token>)
    ensures
        kinds_of(r@) == kinds_of(a@) + kinds_of(b@),
{
    let mut a = a;
    let mut b = b;
    let ghost a0 = a@;
    let ghost b0 = b@;
    a.append(&mut b);
    assert(kinds_of(a@) =~= kinds_of(a0) + kinds_of(b0));
    a
}

/// Tokens of the parameters from index `i` on.
fn params_to_tokens(ps: &Vec<FormalParameter>, i: usize) -> (r: Vec<Token>)
    requires
        i <= ps@.len(),
    ensures
        kinds_of(r@) == params_tokens(params_view(ps@).subrange(i as int, ps@.len() as int)),
    decreases ps@.len() - i,
{
    let ghost rest = params_view(ps@).subrange(i as int, ps@.len() as int);
    if i == ps.len() {
        let v: Vec<Token> = Vec::new();
        assert(kinds_of(v@) =~= Seq::empty());
        return v;
    }
    let name = single(TokenKind::Identifier(ps[i].name.clone()));
    let first = if ps[i].is_rest {
        concat(single(TokenKind::Punctuator(Punctuator::Spread)), name)
    } else {
        name
    };
    assert(rest[0] == ps@[i as int]@);
    if i + 1 == ps.len() {
        return first;
    }
    let tail = params_to_tokens(ps, i + 1);
    assert(rest.drop_first() =~= params_view(ps@).subrange(i + 1, ps@.len() as int));
    concat(concat(first, single(TokenKind::Punctuator(Punctuator::Comma))), tail)
}

impl Node {
    /// The tokens that spell this expression; `None` when it holds an array
    /// literal. The tokens come from no source text: each is at line 0,
    /// column 0.
    pub fn to_tokens(&self) -> (r: Option<Vec<Token>>)
        ensures
            match r {
                Some(v) => tokens_of(self.view()) == Some(kinds_of(v@)),
                None => tokens_of(self.view()) is None,
            },
        decreases self,
    {
        match self {
            Node::Identifier(n) => Some(single(TokenKind::Identifier(n.clone()))),
            Node::Const(Const::Num(v)) => Some(single(TokenKind::NumericLiteral(*v))),
            Node::Const(Const::String(v)) => Some(single(TokenKind::StringLiteral(v.clone()))),
            Node::Const(Const::Bool(v)) => Some(single(TokenKind::BooleanLiteral(*v))),
            Node::Yield => Some(single(TokenKind::Keyword(Keyword::Yield))),
            Node::Await(x) => match x.to_tokens() {
                Some(t) => Some(concat(single(TokenKind::Keyword(Keyword::Await)), t)),
                None => None,
            },
            Node::ArrayDecl(_) => None,
            Node::Assign { target, value } => match (target.to_tokens(), value.to_tokens()) {
                (Some(a), Some(b)) => Some(
                    concat(concat(a, single(TokenKind::Punctuator(Punctuator::Assign))), b),
                ),
                _ => None,
            },
            Node::BinOp { op, left, right } => match (left.to_tokens(), right.to_tokens()) {
                (Some(a), Some(b)) => Some(
                    concat(
                        concat(a, single(TokenKind::Punctuator(binop_to_punctuator(*op)))),
                        b,
                    ),
                ),
                _ => None,
            },
            Node::ArrowFunctionDecl { params, body } => match body.to_tokens() {
                Some(b) => {
                    let ps = params_to_tokens(params, 0);
                    assert(params_view(params@).subrange(0, params@.len() as int) =~= params_view(
                        params@,
                    ));
                    let open = single(TokenKind::Punctuator(Punctuator::OpenParen));
                    let close = concat(
                        single(TokenKind::Punctuator(Punctuator::CloseParen)),
                        single(TokenKind::Punctuator(Punctuator::Arrow)),
                    );
                    Some(concat(concat(concat(open, ps), close), b))
                },
                None => None,
            },
        }
    }
}

} // verus!
