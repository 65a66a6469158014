//! Laws of the assignment grammar, proved over the spec functions that the
//! parsers' contracts use. Token positions are arbitrary throughout: the
//! laws speak of token kinds.
use vstd::prelude::*;
use crate::cursor::{after_next, is_lt, leading_lts, peek_at, ParseError};
use crate::grammar::{
    additive_op, additive_tail, arrow_ahead, arrow_function, arrow_params, assignable, assignment,
    assignment_tail, conditional, consumed, elements, param_list, peek_kind, primary, GrammarFlags,
    SpecResult,
};
use crate::node::{Expr, ParamView};
use crate::printer::{params_tokens, tokens_of};
use crate::token::{assign_op_of, BinOp, KindView, Punctuator, TokenView};

verus! {

/// The kinds of a token sequence.
pub open spec fn kinds(s: Seq<TokenView>) -> Seq<KindView> {
    s.map_values(|t: TokenView| t.kind)
}

/// Whether a parse result is an arrow function.
pub open spec fn is_arrow_result(r: SpecResult) -> bool {
    r is Ok ==> r->Ok_0.0 is Arrow
}

/// Whether `t` is `=` or a compound-assignment operator.
pub open spec fn is_assignment_operator(t: TokenView) -> bool {
    t.kind == KindView::Punct(Punctuator::Assign) || (t.kind is Punct && assign_op_of(
        t.kind->Punct_0,
    ) is Some)
}

proof fn lemma_first_not_lt(s: Seq<TokenView>)
    requires
        s.len() > 0,
        !is_lt(s[0]),
    ensures
        leading_lts(s) == 0,
        peek_at(s, true) == Some(s[0]),
        after_next(s, true) == s.drop_first(),
{
    assert(s.subrange(1, s.len() as int) =~= s.drop_first());
}

proof fn lemma_arrow_function_result(s: Seq<TokenView>, f: GrammarFlags)
    ensures
        is_arrow_result(arrow_function(s, f)),
{
}

/// An identifier directly followed by `=>` always starts an arrow function:
/// the whole parse is the arrow-function parse, and a success is an arrow
/// function node.
pub proof fn lemma_identifier_arrow(s: Seq<TokenView>, f: GrammarFlags)
    requires
        s.len() >= 2,
        s[0].kind is Ident,
        s[1].kind == KindView::Punct(Punctuator::Arrow),
    ensures
        assignment(s, f) == arrow_function(s, f),
        is_arrow_result(assignment(s, f)),
{
    lemma_first_not_lt(s);
    lemma_arrow_function_result(s, f);
}

/// A line break between an identifier and `=>` stops the arrow-function
/// reading: the identifier alone is the expression, and the line break and
/// `=>` are left for the caller.
pub proof fn lemma_line_break_before_arrow(s: Seq<TokenView>, f: GrammarFlags)
    requires
        s.len() >= 3,
        s[0].kind is Ident,
        is_lt(s[1]),
        s[2].kind == KindView::Punct(Punctuator::Arrow),
    ensures
        assignment(s, f) == Ok::<(Expr, Seq<TokenView>), ParseError>(
            (Expr::Ident(s[0].kind->Ident_0), s.drop_first()),
        ),
{
    lemma_first_not_lt(s);
    let a = Expr::Ident(s[0].kind->Ident_0);
    let s1 = s.drop_first();
    let s2 = s1.drop_first();
    assert(!arrow_ahead(s));
    assert(primary(s, f) == Ok::<(Expr, Seq<TokenView>), ParseError>((a, s1)));
    assert(additive_op(peek_kind(s1, false)) is None);
    assert(conditional(s, f) == Ok::<(Expr, Seq<TokenView>), ParseError>((a, s1)));
    assert(s2[0].kind == KindView::Punct(Punctuator::Arrow));
    assert(assign_op_of(Punctuator::Arrow) is None);
    assert(seq![s1[0]] + s2 =~= s1);
    assert(assignment_tail(a, Some(s1[0]), s2, f) == Ok::<(Expr, Seq<TokenView>), ParseError>(
        (a, s1),
    ));
}

/// `(` followed by `)`, `...` or an identifier always starts an arrow
/// function: the whole parse is the arrow-function parse, and a success is
/// an arrow function node.
pub proof fn lemma_paren_arrow(s: Seq<TokenView>, f: GrammarFlags)
    requires
        s.len() >= 2,
        s[0].kind == KindView::Punct(Punctuator::OpenParen),
        s[1].kind == KindView::Punct(Punctuator::CloseParen) || s[1].kind == KindView::Punct(
            Punctuator::Spread,
        ) || s[1].kind is Ident,
    ensures
        assignment(s, f) == arrow_function(s, f),
        is_arrow_result(assignment(s, f)),
{
    lemma_first_not_lt(s);
    lemma_arrow_function_result(s, f);
}

/// The lookahead that chooses between an arrow function and an operand
/// consumes nothing: when it does not commit, the operand is parsed from the
/// very stream the lookahead saw.
pub proof fn lemma_lookahead_consumes_nothing(s: Seq<TokenView>, f: GrammarFlags)
    requires
        peek_at(s, true) is Some,
        !arrow_ahead(s),
    ensures
        assignment(s, f) == match conditional(s, f) {
            Err(e) => Err(e),
            Ok((lhs, r)) => if consumed(r, s) {
                assignment_tail(lhs, None, r, f)
            } else {
                Err(ParseError::AbruptEnd)
            },
        },
{
}

/// A stream that starts with an identifier not followed by `=>`, `+` or `-`
/// parses as that identifier followed by the assignment tail.
proof fn lemma_identifier_operand(s: Seq<TokenView>, f: GrammarFlags)
    requires
        s.len() >= 1,
        s[0].kind is Ident,
        s.len() >= 2 ==> s[1].kind != KindView::Punct(Punctuator::Arrow),
        s.len() >= 2 ==> s[1].kind != KindView::Punct(Punctuator::Add),
        s.len() >= 2 ==> s[1].kind != KindView::Punct(Punctuator::Sub),
    ensures
        assignment(s, f) == assignment_tail(Expr::Ident(s[0].kind->Ident_0), None, s.drop_first(), f),
{
    lemma_first_not_lt(s);
    let a = Expr::Ident(s[0].kind->Ident_0);
    let s1 = s.drop_first();
    assert(!arrow_ahead(s));
    assert(primary(s, f) == Ok::<(Expr, Seq<TokenView>), ParseError>((a, s1)));
    if s1.len() > 0 {
        assert(s1[0] == s[1]);
    }
    assert(additive_tail(a, s1, f) == Ok::<(Expr, Seq<TokenView>), ParseError>((a, s1)));
}

/// A lone identifier parses as itself, with nothing left over.
proof fn lemma_lone_identifier(s: Seq<TokenView>, f: GrammarFlags)
    requires
        s.len() == 1,
        s[0].kind is Ident,
    ensures
        assignment(s, f) == Ok::<(Expr, Seq<TokenView>), ParseError>(
            (Expr::Ident(s[0].kind->Ident_0), Seq::empty()),
        ),
{
    lemma_identifier_operand(s, f);
    assert(s.drop_first() =~= Seq::<TokenView>::empty());
}

/// Assignment is right-associative: `a = b = c` is `a = (b = c)`.
pub proof fn lemma_assignment_right_associative(s: Seq<TokenView>, f: GrammarFlags)
    requires
        s.len() == 5,
        s[0].kind is Ident,
        s[1].kind == KindView::Punct(Punctuator::Assign),
        s[2].kind is Ident,
        s[3].kind == KindView::Punct(Punctuator::Assign),
        s[4].kind is Ident,
    ensures
        assignment(s, f) == Ok::<(Expr, Seq<TokenView>), ParseError>(
            (
                Expr::Assign(
                    Box::new(Expr::Ident(s[0].kind->Ident_0)),
                    Box::new(
                        Expr::Assign(
                            Box::new(Expr::Ident(s[2].kind->Ident_0)),
                            Box::new(Expr::Ident(s[4].kind->Ident_0)),
                        ),
                    ),
                ),
                Seq::empty(),
            ),
        ),
{
    let t = s.drop_first().drop_first();
    lemma_identifier_operand(s, f);
    assert(t =~= s.subrange(2, 5));
    lemma_identifier_operand(t, f);
    let u = t.drop_first().drop_first();
    assert(u =~= s.subrange(4, 5));
    lemma_lone_identifier(u, f);
}

/// `a op= b` is a binary-operation node with the operator that `op=`
/// denotes, `a` on the left and `b` on the right.
pub proof fn lemma_compound_assignment(s: Seq<TokenView>, f: GrammarFlags)
    requires
        s.len() == 3,
        s[0].kind is Ident,
        s[1].kind is Punct,
        assign_op_of(s[1].kind->Punct_0) is Some,
        s[2].kind is Ident,
    ensures
        assignment(s, f) == Ok::<(Expr, Seq<TokenView>), ParseError>(
            (
                Expr::Bin(
                    BinOp::Assign(assign_op_of(s[1].kind->Punct_0)->Some_0),
                    Box::new(Expr::Ident(s[0].kind->Ident_0)),
                    Box::new(Expr::Ident(s[2].kind->Ident_0)),
                ),
                Seq::empty(),
            ),
        ),
{
    lemma_identifier_operand(s, f);
    let u = s.drop_first().drop_first();
    assert(u =~= s.subrange(2, 3));
    lemma_lone_identifier(u, f);
}

/// `a = b`, with identifiers `a` and `b`, is an assignment node.
proof fn lemma_simple_assignment(s: Seq<TokenView>, f: GrammarFlags)
    requires
        s.len() == 3,
        s[0].kind is Ident,
        s[1].kind == KindView::Punct(Punctuator::Assign),
        s[2].kind is Ident,
    ensures
        assignment(s, f) == Ok::<(Expr, Seq<TokenView>), ParseError>(
            (
                Expr::Assign(
                    Box::new(Expr::Ident(s[0].kind->Ident_0)),
                    Box::new(Expr::Ident(s[2].kind->Ident_0)),
                ),
                Seq::empty(),
            ),
        ),
{
    lemma_identifier_operand(s, f);
    let u = s.drop_first().drop_first();
    assert(u =~= s.subrange(2, 3));
    lemma_lone_identifier(u, f);
}

/// A line break between an operand and `=` is not lost: the assignment is
/// parsed, and the line break is left in front of the stream after the
/// right operand.
pub proof fn lemma_line_break_before_operator_restored(s: Seq<TokenView>, f: GrammarFlags)
    requires
        s.len() == 4,
        s[0].kind is Ident,
        is_lt(s[1]),
        s[2].kind == KindView::Punct(Punctuator::Assign),
        s[3].kind is Ident,
    ensures
        assignment(s, f) == Ok::<(Expr, Seq<TokenView>), ParseError>(
            (
                Expr::Assign(
                    Box::new(Expr::Ident(s[0].kind->Ident_0)),
                    Box::new(Expr::Ident(s[3].kind->Ident_0)),
                ),
                seq![s[1]],
            ),
        ),
{
    lemma_identifier_operand(s, f);
    let a = Expr::Ident(s[0].kind->Ident_0);
    let b = Expr::Ident(s[3].kind->Ident_0);
    let s1 = s.drop_first();
    let s2 = s1.drop_first();
    let u = s2.drop_first();
    assert(u =~= s.subrange(3, 4));
    lemma_lone_identifier(u, f);
    assert(s1[0] == s[1]);
    assert(s2[0] == s[2]);
    assert(seq![s[1]] + Seq::<TokenView>::empty() =~= seq![s[1]]);
    assert(assignment_tail(a, Some(s[1]), s2, f) == Ok::<(Expr, Seq<TokenView>), ParseError>(
        (Expr::Assign(Box::new(a), Box::new(b)), seq![s[1]]),
    ));
    assert(assignment_tail(a, None, s1, f) == assignment_tail(a, Some(s[1]), s2, f));
}

/// An assignment operator after an operand that cannot be assigned (a
/// literal or an array literal) is always the invalid-left-hand-side error,
/// at the operator's position.
pub proof fn lemma_unassignable_operand_rejected(s: Seq<TokenView>, f: GrammarFlags)
    requires
        peek_at(s, true) is Some,
        !arrow_ahead(s),
        conditional(s, f) is Ok,
        !assignable(conditional(s, f)->Ok_0.0),
        conditional(s, f)->Ok_0.1.len() > 0,
        is_assignment_operator(conditional(s, f)->Ok_0.1[0]),
    ensures
        assignment(s, f) == Err::<(Expr, Seq<TokenView>), ParseError>(
            ParseError::InvalidLeftHandSide(conditional(s, f)->Ok_0.1[0].position),
        ),
{
    lemma_conditional_consumes(s, f);
}

/// A literal constant before an assignment operator is always the
/// invalid-left-hand-side error, at the operator's position.
pub proof fn lemma_literal_target_rejected(s: Seq<TokenView>, f: GrammarFlags)
    requires
        s.len() >= 2,
        s[0].kind is Num || s[0].kind is Str || s[0].kind is Bool,
        is_assignment_operator(s[1]),
    ensures
        assignment(s, f) == Err::<(Expr, Seq<TokenView>), ParseError>(
            ParseError::InvalidLeftHandSide(s[1].position),
        ),
{
    lemma_first_not_lt(s);
    let s1 = s.drop_first();
    assert(s1[0] == s[1]);
    assert(!arrow_ahead(s));
    assert(additive_op(peek_kind(s1, false)) is None);
    lemma_unassignable_operand_rejected(s, f);
}

/// An array literal of one identifier before an assignment operator
/// (`[a] = b`) is always the invalid-left-hand-side error, at the
/// operator's position.
pub proof fn lemma_array_target_rejected(s: Seq<TokenView>, f: GrammarFlags)
    requires
        s.len() >= 4,
        s[0].kind == KindView::Punct(Punctuator::OpenBracket),
        s[1].kind is Ident,
        s[2].kind == KindView::Punct(Punctuator::CloseBracket),
        is_assignment_operator(s[3]),
    ensures
        assignment(s, f) == Err::<(Expr, Seq<TokenView>), ParseError>(
            ParseError::InvalidLeftHandSide(s[3].position),
        ),
{
    let a = Expr::Ident(s[1].kind->Ident_0);
    let s1 = s.drop_first();
    let s2 = s1.drop_first();
    let s3 = s2.drop_first();
    lemma_first_not_lt(s);
    lemma_first_not_lt(s1);
    lemma_first_not_lt(s2);
    assert(!arrow_ahead(s));
    lemma_identifier_operand(s1, f);
    assert(assign_op_of(Punctuator::CloseBracket) is None);
    assert(assignment(s1, f) == Ok::<(Expr, Seq<TokenView>), ParseError>((a, s2)));
    assert(Seq::<Expr>::empty().push(a) =~= seq![a]);
    assert(elements(Seq::empty(), s1, f) == Ok::<(Expr, Seq<TokenView>), ParseError>(
        (Expr::Array(seq![a]), s3),
    ));
    assert(primary(s, f) == Ok::<(Expr, Seq<TokenView>), ParseError>(
        (Expr::Array(seq![a]), s3),
    ));
    assert(s3[0] == s[3]);
    assert(additive_op(peek_kind(s3, false)) is None);
    lemma_unassignable_operand_rejected(s, f);
}

/// Whether parsing `s` succeeds with nothing left over, and parsing any
/// token sequence that spells the printed tree, wherever its tokens stand,
/// gives the same tree back.
pub open spec fn round_trips(s: Seq<TokenView>, f: GrammarFlags) -> bool {
    let r = assignment(s, f);
    &&& r is Ok
    &&& r->Ok_0.1.len() == 0
    &&& tokens_of(r->Ok_0.0) is Some
    &&& forall|t: Seq<TokenView>|
        #![trigger kinds(t)]
        kinds(t) == tokens_of(r->Ok_0.0)->Some_0 ==> assignment(t, f) == r
}

/// `a = b` survives printing and parsing again.
pub proof fn lemma_round_trip_assign(s: Seq<TokenView>, f: GrammarFlags)
    requires
        s.len() == 3,
        s[0].kind is Ident,
        s[1].kind == KindView::Punct(Punctuator::Assign),
        s[2].kind is Ident,
    ensures
        round_trips(s, f),
{
    lemma_simple_assignment(s, f);
    let e = assignment(s, f)->Ok_0.0;
    reveal_with_fuel(tokens_of, 2);
    assert(tokens_of(e)->Some_0 =~= kinds(s));
    assert forall|t: Seq<TokenView>| #[trigger] kinds(t) == tokens_of(e)->Some_0 implies assignment(
        t,
        f,
    ) == assignment(s, f) by {
        assert(kinds(t).len() == 3);
        assert(kinds(t)[0] == t[0].kind && kinds(t)[1] == t[1].kind && kinds(t)[2] == t[2].kind);
        assert(kinds(s)[0] == s[0].kind && kinds(s)[2] == s[2].kind);
        lemma_simple_assignment(t, f);
    }
}

/// `a op= b`, for every compound-assignment operator, survives printing and
/// parsing again.
pub proof fn lemma_round_trip_compound(s: Seq<TokenView>, f: GrammarFlags)
    requires
        s.len() == 3,
        s[0].kind is Ident,
        s[1].kind is Punct,
        assign_op_of(s[1].kind->Punct_0) is Some,
        s[2].kind is Ident,
    ensures
        round_trips(s, f),
{
    lemma_compound_assignment(s, f);
    let e = assignment(s, f)->Ok_0.0;
    reveal_with_fuel(tokens_of, 2);
    assert(tokens_of(e)->Some_0 =~= kinds(s));
    assert forall|t: Seq<TokenView>| #[trigger] kinds(t) == tokens_of(e)->Some_0 implies assignment(
        t,
        f,
    ) == assignment(s, f) by {
        assert(kinds(t).len() == 3);
        assert(kinds(t)[0] == t[0].kind && kinds(t)[1] == t[1].kind && kinds(t)[2] == t[2].kind);
        assert(kinds(s)[0] == s[0].kind && kinds(s)[1] == s[1].kind && kinds(s)[2] == s[2].kind);
        lemma_compound_assignment(t, f);
    }
}

/// Whether `s` spells `(a, b) => c` with identifiers `a`, `b` and `c`.
pub open spec fn is_two_parameter_arrow(s: Seq<TokenView>) -> bool {
    &&& s.len() == 7
    &&& s[0].kind == KindView::Punct(Punctuator::OpenParen)
    &&& s[1].kind is Ident
    &&& s[2].kind == KindView::Punct(Punctuator::Comma)
    &&& s[3].kind is Ident
    &&& s[4].kind == KindView::Punct(Punctuator::CloseParen)
    &&& s[5].kind == KindView::Punct(Punctuator::Arrow)
    &&& s[6].kind is Ident
}

/// `(a, b) => c` parses as an arrow function with parameters `a` and `b`
/// and body `c`.
pub proof fn lemma_two_parameter_arrow(s: Seq<TokenView>, f: GrammarFlags)
    requires
        is_two_parameter_arrow(s),
    ensures
        assignment(s, f) == Ok::<(Expr, Seq<TokenView>), ParseError>(
            (
                Expr::Arrow(
                    seq![
                        ParamView { name: s[1].kind->Ident_0, rest: false },
                        ParamView { name: s[3].kind->Ident_0, rest: false },
                    ],
                    Box::new(Expr::Ident(s[6].kind->Ident_0)),
                ),
                Seq::empty(),
            ),
        ),
{
    let pa = ParamView { name: s[1].kind->Ident_0, rest: false };
    let pb = ParamView { name: s[3].kind->Ident_0, rest: false };
    lemma_paren_arrow(s, f);
    let s1 = s.drop_first();
    let s2 = s1.drop_first();
    let s3 = s2.drop_first();
    let s4 = s3.drop_first();
    let s5 = s4.drop_first();
    let s6 = s5.drop_first();
    lemma_first_not_lt(s);
    lemma_first_not_lt(s1);
    lemma_first_not_lt(s2);
    lemma_first_not_lt(s3);
    lemma_first_not_lt(s4);
    assert(param_list(seq![pa], s3) == Ok::<(Seq<ParamView>, Seq<TokenView>), ParseError>(
        (seq![pa].push(pb), s5),
    ));
    assert(param_list(Seq::empty(), s1) == param_list(seq![pa], s3)) by {
        assert(Seq::<ParamView>::empty().push(pa) =~= seq![pa]);
    }
    assert(seq![pa].push(pb) =~= seq![pa, pb]);
    assert(arrow_params(s) == Ok::<(Seq<ParamView>, Seq<TokenView>), ParseError>(
        (seq![pa, pb], s5),
    ));
    assert(s6 =~= s.subrange(6, 7));
    lemma_lone_identifier(s6, f);
}

/// `(a, b) => a`, and every two-parameter arrow function whose body is an
/// identifier, survives printing and parsing again.
pub proof fn lemma_round_trip_arrow(s: Seq<TokenView>, f: GrammarFlags)
    requires
        is_two_parameter_arrow(s),
    ensures
        round_trips(s, f),
{
    lemma_two_parameter_arrow(s, f);
    let ps = seq![
        ParamView { name: s[1].kind->Ident_0, rest: false },
        ParamView { name: s[3].kind->Ident_0, rest: false },
    ];
    let e = assignment(s, f)->Ok_0.0;
    assert(ps.drop_first() =~= seq![ParamView { name: s[3].kind->Ident_0, rest: false }]);
    reveal_with_fuel(params_tokens, 2);
    assert(params_tokens(ps) =~= seq![s[1].kind, s[2].kind, s[3].kind]);
    reveal_with_fuel(tokens_of, 2);
    assert(tokens_of(e)->Some_0 =~= kinds(s));
    assert forall|t: Seq<TokenView>| #[trigger] kinds(t) == tokens_of(e)->Some_0 implies assignment(
        t,
        f,
    ) == assignment(s, f) by {
        assert(kinds(t).len() == 7);
        assert forall|i: int| 0 <= i < 7 implies t[i].kind == s[i].kind by {
            assert(kinds(t)[i] == t[i].kind);
            assert(kinds(s)[i] == s[i].kind);
        }
        lemma_two_parameter_arrow(t, f);
    }
}

proof fn lemma_additive_tail_keeps_length(left: Expr, r: Seq<TokenView>, f: GrammarFlags)
    ensures
        additive_tail(left, r, f) is Ok ==> additive_tail(left, r, f)->Ok_0.1.len() <= r.len(),
    decreases r.len(),
{
    if let Some(op) = additive_op(peek_kind(r, false)) {
        let r1 = after_next(r, false);
        if let Ok((right, r2)) = primary(r1, f) {
            if consumed(r2, r1) {
                lemma_additive_tail_keeps_length(
                    Expr::Bin(BinOp::Num(op), Box::new(left), Box::new(right)),
                    r2,
                    f,
                );
            }
        }
    }
}

proof fn lemma_conditional_consumes(s: Seq<TokenView>, f: GrammarFlags)
    requires
        conditional(s, f) is Ok,
    ensures
        consumed(conditional(s, f)->Ok_0.1, s),
{
    if let Ok((e, r)) = primary(s, f) {
        lemma_additive_tail_keeps_length(e, r, f);
    }
}

} // verus!
