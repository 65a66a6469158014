//! A peekable token stream with a one-token push-back slot.
use vstd::prelude::*;
use crate::token::{Position, Token, TokenView};

verus! {

/// Lexer goal: how a `/` at the current position is to be read.
#[derive(Debug, Clone, Copy, PartialEq, Eq)]
pub enum InputElement {
    Div,
    RegExp,
}

/// Errors of the parsing layer.
#[derive(Debug, Clone, Copy, PartialEq, Eq)]
pub enum ParseError {
    /// The token stream ended where a token was required.
    AbruptEnd,
    /// A token that the grammar does not allow at its position.
    Unexpected,
    /// An assignment operator follows an operand that cannot be assigned;
    /// the position is the operator's.
    InvalidLeftHandSide(Position),
}

impl ParseError {
    /// A fixed human-readable message for the error.
    pub fn message(&self) -> (r: &'static str)
        ensures
            *self is InvalidLeftHandSide ==> r@ == "Invalid left-hand side in assignment"@,
            *self == ParseError::AbruptEnd ==> r@ == "Abrupt end"@,
            *self == ParseError::Unexpected ==> r@ == "Unexpected token"@,
    {
        match self {
            ParseError::AbruptEnd => "Abrupt end",
            ParseError::Unexpected => "Unexpected token",
            ParseError::InvalidLeftHandSide(_) => "Invalid left-hand side in assignment",
        }
    }
}

/// Whether a token is a line terminator.
pub open spec fn is_lt(t: TokenView) -> bool {
    t.kind is LineTerminator
}

/// Whether `s` starts with a line terminator.
pub open spec fn starts_with_lt(s: Seq<TokenView>) -> bool {
    s.len() > 0 && is_lt(s[0])
}

/// Number of line terminators at the front of `s`.
pub open spec fn leading_lts(s: Seq<TokenView>) -> nat
    decreases s.len(),
{
    if s.len() > 0 && is_lt(s[0]) {
        1 + leading_lts(s.drop_first())
    } else {
        0
    }
}

/// The next token, with or without skipping line terminators.
pub open spec fn peek_at(s: Seq<TokenView>, skip: bool) -> Option<TokenView> {
    let k = if skip { leading_lts(s) as int } else { 0 };
    if k < s.len() {
        Some(s[k])
    } else {
        None
    }
}

/// The stream once the next token (skipping line terminators or not) is consumed.
pub open spec fn after_next(s: Seq<TokenView>, skip: bool) -> Seq<TokenView> {
    let k = if skip { leading_lts(s) as int } else { 0 };
    if k < s.len() {
        s.subrange(k + 1, s.len() as int)
    } else {
        Seq::empty()
    }
}

/// The token after the next one.
pub open spec fn peek_second(s: Seq<TokenView>, skip: bool) -> Option<TokenView> {
    let k = if skip { leading_lts(s) as int } else { 0 };
    if k < s.len() {
        peek_at(s.subrange(k + 1, s.len() as int), skip)
    } else {
        None
    }
}

proof fn lemma_leading_lts(s: Seq<TokenView>, j: int)
    requires
        0 <= j <= s.len(),
        forall|i: int| 0 <= i < j ==> is_lt(#[trigger] s[i]),
    ensures
        leading_lts(s) == j + leading_lts(s.subrange(j, s.len() as int)),
        leading_lts(s) <= s.len(),
    decreases j,
{
    if j > 0 {
        assert(is_lt(s[0]));
        let t = s.drop_first();
        assert forall|i: int| 0 <= i < j - 1 implies is_lt(#[trigger] t[i]) by {
            assert(t[i] == s[i + 1]);
        }
        lemma_leading_lts(t, j - 1);
        assert(t.subrange(j - 1, t.len() as int) =~= s.subrange(j, s.len() as int));
    } else {
        assert(s.subrange(0, s.len() as int) =~= s);
    }
    lemma_leading_lts_bound(s);
}

proof fn lemma_leading_lts_bound(s: Seq<TokenView>)
    ensures
        leading_lts(s) <= s.len(),
    decreases s.len(),
{
    if s.len() > 0 && is_lt(s[0]) {
        lemma_leading_lts_bound(s.drop_first());
    }
}

/// A token stream over the lexer's output.
///
/// Peeking never moves the stream; `next` consumes and `push_back` returns one
/// token to the front. At most one pushed-back token may be outstanding.
pub struct Cursor {
    /// Pending tokens, the next one last.
    stack: Vec<Token>,
    pushed_back: bool,
    goal: InputElement,
}

impl Cursor {
    /// The pending tokens, in stream order.
    pub closed spec fn view(&self) -> Seq<TokenView> {
        Seq::new(self.stack.len() as nat, |i: int| self.stack[self.stack.len() - 1 - i]@)
    }

    /// Whether the push-back slot is occupied.
    pub closed spec fn has_pushed_back(&self) -> bool {
        self.pushed_back
    }

    pub closed spec fn spec_goal(&self) -> InputElement {
        self.goal
    }

    /// A cursor at the start of `tokens`, with the regular-expression goal.
    pub fn new(tokens: Vec<Token>) -> (r: Cursor)
        ensures
            r.view() == tokens@.map_values(|t: Token| t@),
            !r.has_pushed_back(),
            r.spec_goal() == InputElement::RegExp,
    {
        let mut tokens = tokens;
        let ghost orig = tokens@;
        let mut stack: Vec<Token> = Vec::new();
        while tokens.len() > 0
            invariant
                tokens@.len() + stack@.len() == orig.len(),
                forall|i: int| 0 <= i < tokens@.len() ==> tokens@[i] == orig[i],
                forall|i: int|
                    0 <= i < stack@.len() ==> #[trigger] stack@[i] == orig[orig.len() - 1 - i],
            decreases tokens.len(),
        {
            let t = tokens.pop().unwrap();
            stack.push(t);
        }
        let r = Cursor { stack, pushed_back: false, goal: InputElement::RegExp };
        assert(r.view() =~= orig.map_values(|t: Token| t@));
        r
    }

    /// The current lexer goal.
    pub fn goal(&self) -> (r: InputElement)
        ensures
            r == self.spec_goal(),
    {
        self.goal
    }

    /// Switches the lexer goal; the pending tokens stay as they are.
    pub fn set_goal(&mut self, goal: InputElement)
        ensures
            final(self).view() == old(self).view(),
            final(self).has_pushed_back() == old(self).has_pushed_back(),
            final(self).spec_goal() == goal,
    {
        self.goal = goal;
    }

    /// Index in stream order of the first token at or after `start` that is
    /// not a line terminator (the number of pending tokens if there is none).
    fn skip_from(&self, start: usize) -> (k: usize)
        requires
            start <= self.view().len(),
        ensures
            k == start + leading_lts(self.view().subrange(start as int, self.view().len() as int)),
            k <= self.view().len(),
    {
        let n = self.stack.len();
        let mut k = start;
        let ghost s = self.view();
        while k < n && self.stack[n - 1 - k].is_line_terminator()
            invariant
                n == s.len(),
                start <= k <= n,
                s == self.view(),
                forall|i: int| start <= i < k ==> is_lt(#[trigger] s[i]),
            decreases n - k,
        {
            k = k + 1;
        }
        let ghost t = s.subrange(start as int, n as int);
        proof {
            assert forall|i: int| 0 <= i < k - start implies is_lt(#[trigger] t[i]) by {
                assert(t[i] == s[start + i]);
            }
            lemma_leading_lts(t, k - start);
            if k < n {
                assert(t.subrange(k - start, t.len() as int)[0] == s[k as int]);
            } else {
                assert(t.subrange(k - start, t.len() as int).len() == 0);
            }
        }
        k
    }

    /// The next token without consuming it; with `skip_line_terminators`,
    /// line terminators in front of it are looked past (and not consumed).
    pub fn peek(&self, skip_line_terminators: bool) -> (r: Option<&Token>)
        ensures
            match r {
                Some(t) => peek_at(self.view(), skip_line_terminators) == Some(t@),
                None => peek_at(self.view(), skip_line_terminators) is None,
            },
    {
        let n = self.stack.len();
        let k = if skip_line_terminators { self.skip_from(0) } else { 0 };
        proof {
            assert(self.view().subrange(0, self.view().len() as int) =~= self.view());
        }
        if k < n {
            Some(&self.stack[n - 1 - k])
        } else {
            None
        }
    }

    /// The token after the next one, without consuming anything.
    pub fn peek_skip(&self, skip_line_terminators: bool) -> (r: Option<&Token>)
        ensures
            match r {
                Some(t) => peek_second(self.view(), skip_line_terminators) == Some(t@),
                None => peek_second(self.view(), skip_line_terminators) is None,
            },
    {
        let n = self.stack.len();
        let ghost s = self.view();
        let k = if skip_line_terminators { self.skip_from(0) } else { 0 };
        proof {
            assert(s.subrange(0, s.len() as int) =~= s);
        }
        if k >= n {
            return None;
        }
        let k2 = if skip_line_terminators { self.skip_from(k + 1) } else { k + 1 };
        proof {
            let t = s.subrange(k + 1, n as int);
            if k2 < n {
                assert(t[k2 - k - 1] == s[k2 as int]);
            }
        }
        if k2 < n {
            Some(&self.stack[n - 1 - k2])
        } else {
            None
        }
    }

    /// Succeeds when the token `skip` places ahead (none or one) exists and
    /// is not a line terminator.
    pub fn peek_expect_no_line_terminator(&self, skip: bool) -> (r: Result<(), ParseError>)
        ensures
            ({
                let k: int = if skip { 1 } else { 0 };
                &&& k >= self.view().len() ==> r == Err::<(), ParseError>(ParseError::AbruptEnd)
                &&& k < self.view().len() && is_lt(self.view()[k]) ==> r == Err::<(), ParseError>(
                    ParseError::Unexpected,
                )
                &&& k < self.view().len() && !is_lt(self.view()[k]) ==> r is Ok
            }),
    {
        let n = self.stack.len();
        let k: usize = if skip { 1 } else { 0 };
        if k >= n {
            Err(ParseError::AbruptEnd)
        } else if self.stack[n - 1 - k].is_line_terminator() {
            Err(ParseError::Unexpected)
        } else {
            Ok(())
        }
    }

    /// Consumes and returns the next token; with `skip_line_terminators`, the
    /// line terminators in front of it are consumed as well.
    pub fn next(&mut self, skip_line_terminators: bool) -> (r: Option<Token>)
        ensures
            match r {
                Some(t) => peek_at(old(self).view(), skip_line_terminators) == Some(t@),
                None => peek_at(old(self).view(), skip_line_terminators) is None,
            },
            final(self).view() == after_next(old(self).view(), skip_line_terminators),
            !final(self).has_pushed_back(),
            final(self).spec_goal() == old(self).spec_goal(),
    {
        let ghost s = self.view();
        let k = if skip_line_terminators { self.skip_from(0) } else { 0 };
        proof {
            assert(s.subrange(0, s.len() as int) =~= s);
        }
        let mut i: usize = 0;
        while i < k
            invariant
                i <= k <= s.len(),
                self.stack@.len() == s.len() - i,
                self.view() =~= s.subrange(i as int, s.len() as int),
                self.goal == old(self).goal,
            decreases k - i,
        {
            let ghost prev = self.view();
            self.stack.pop();
            i = i + 1;
            assert forall|m: int| 0 <= m < self.view().len() implies self.view()[m] == prev[m + 1] by {
                assert(self.view()[m] == self.stack@[self.stack@.len() - 1 - m]@);
            }
            assert(self.view() =~= s.subrange(i as int, s.len() as int));
        }
        self.pushed_back = false;
        let ghost prev = self.view();
        let r = self.stack.pop();
        proof {
            assert forall|m: int| 0 <= m < self.view().len() implies self.view()[m] == prev[m + 1] by {
                assert(self.view()[m] == self.stack@[self.stack@.len() - 1 - m]@);
            }
            if k < s.len() {
                assert(prev[0] == s[k as int]);
            }
            if k < s.len() {
                assert(self.view() =~= s.subrange(k + 1, s.len() as int));
            } else {
                assert(self.view() =~= Seq::<TokenView>::empty());
            }
        }
        r
    }

    /// Returns `token` to the front of the stream.
    pub fn push_back(&mut self, token: Token)
        requires
            !old(self).has_pushed_back(),
        ensures
            final(self).view() == seq![token@] + old(self).view(),
            final(self).has_pushed_back(),
            final(self).spec_goal() == old(self).spec_goal(),
    {
        let ghost s = self.view();
        self.stack.push(token);
        self.pushed_back = true;
        assert(self.view() =~= seq![token@] + s);
    }
}

} // verus!
