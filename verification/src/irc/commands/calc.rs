use vstd::prelude::*;
use crate::irc::commands::channel_management::{text_plan, TextPlan};
use crate::text::{chars_of, join, push_char, slice_range, str_equal, string_from_chars, string_views};

verus! {

/// A token of a `!calc` expression. A number keeps its numeral, which
/// `f64`'s parser reads.
#[derive(Debug)]
pub enum CalcToken {
    Number(String),
    Constant(String),
    Plus,
    Minus,
    Multiply,
    Divide,
    Power,
    LeftParen,
    RightParen,
}

/// A token as plain values.
pub enum TokenView {
    Number(Seq<char>),
    Constant(Seq<char>),
    Plus,
    Minus,
    Multiply,
    Divide,
    Power,
    LeftParen,
    RightParen,
}

pub open spec fn token_view(t: CalcToken) -> TokenView {
    match t {
        CalcToken::Number(s) => TokenView::Number(s@),
        CalcToken::Constant(s) => TokenView::Constant(s@),
        CalcToken::Plus => TokenView::Plus,
        CalcToken::Minus => TokenView::Minus,
        CalcToken::Multiply => TokenView::Multiply,
        CalcToken::Divide => TokenView::Divide,
        CalcToken::Power => TokenView::Power,
        CalcToken::LeftParen => TokenView::LeftParen,
        CalcToken::RightParen => TokenView::RightParen,
    }
}

pub open spec fn tokens_view(ts: Seq<CalcToken>) -> Seq<TokenView> {
    ts.map_values(|t: CalcToken| token_view(t))
}

impl CalcToken {
    /// A copy of the token.
    pub fn duplicate(&self) -> (r: CalcToken)
        ensures
            token_view(r) == token_view(*self),
    {
        match self {
            CalcToken::Number(s) => CalcToken::Number(s.clone()),
            CalcToken::Constant(s) => CalcToken::Constant(s.clone()),
            CalcToken::Plus => CalcToken::Plus,
            CalcToken::Minus => CalcToken::Minus,
            CalcToken::Multiply => CalcToken::Multiply,
            CalcToken::Divide => CalcToken::Divide,
            CalcToken::Power => CalcToken::Power,
            CalcToken::LeftParen => CalcToken::LeftParen,
            CalcToken::RightParen => CalcToken::RightParen,
        }
    }
}

/// `char::is_alphanumeric`: a Unicode letter or number.
pub uninterp spec fn alphanumeric(c: char) -> bool;

/// Whether a character is a Unicode letter or number (`char::is_alphanumeric`):
/// among ASCII characters, exactly the letters and digits.
#[verifier::external_body]
fn is_alphanumeric(c: char) -> (r: bool)
    ensures
        r == alphanumeric(c),
        (c as u32) < 128 ==> (r <==> ('a' <= c <= 'z' || 'A' <= c <= 'Z' || '0' <= c <= '9')),
{
    c.is_alphanumeric()
}

/// The characters a numeral is made of.
pub open spec fn numeral_char(c: char) -> bool {
    ('0' <= c && c <= '9') || c == '.'
}

/// The characters a name starts with.
pub open spec fn name_start(c: char) -> bool {
    ('a' <= c && c <= 'z') || ('A' <= c && c <= 'Z') || c == 'π' || c == 'φ' || c == 'τ'
}

/// The characters a name goes on with.
pub open spec fn name_char(c: char) -> bool {
    alphanumeric(c) || c == 'π' || c == 'φ' || c == 'τ'
}

/// How many of the characters of `s` from its second on satisfy `p`, in a row.
pub open spec fn run_after_first(s: Seq<char>, p: spec_fn(char) -> bool) -> nat
    decreases s.len(),
{
    if s.len() <= 1 || !p(s[1]) {
        1
    } else {
        1 + run_after_first(s.drop_first(), p)
    }
}

/// Whether `f64`'s parser reads a numeral of digits and dots: it holds a
/// digit and at most one dot.
pub open spec fn numeral_reads(s: Seq<char>) -> bool {
    s.filter(|c: char| c == '.').len() <= 1 && exists|i: int| 0 <= i < s.len() && '0' <= #[trigger] s[i] <= '9'
}

/// The constants that `!calc` knows.
pub open spec fn known_constant(name: Seq<char>) -> bool {
    name == "pi"@ || name == "e"@ || name == "phi"@ || name == "tau"@
}

/// The constant a name stands for: a Greek letter for its spelled-out name.
pub open spec fn constant_name(name: Seq<char>) -> Seq<char> {
    if name == seq!['π'] {
        "pi"@
    } else if name == seq!['φ'] {
        "phi"@
    } else if name == seq!['τ'] {
        "tau"@
    } else {
        name
    }
}

/// The one-character tokens.
pub open spec fn symbol_token(c: char) -> Option<TokenView> {
    if c == '+' {
        Some(TokenView::Plus)
    } else if c == '-' {
        Some(TokenView::Minus)
    } else if c == '*' {
        Some(TokenView::Multiply)
    } else if c == '/' {
        Some(TokenView::Divide)
    } else if c == '^' {
        Some(TokenView::Power)
    } else if c == '(' {
        Some(TokenView::LeftParen)
    } else if c == ')' {
        Some(TokenView::RightParen)
    } else {
        None
    }
}

/// `t` in front of a tokenization, or its error.
pub open spec fn prepend(t: TokenView, rest: Result<Seq<TokenView>, Seq<char>>) -> Result<Seq<TokenView>, Seq<char>> {
    match rest {
        Ok(ts) => Ok(seq![t] + ts),
        Err(e) => Err(e),
    }
}

/// The tokens of a `!calc` expression, or the first error: numerals run
/// over digits and dots, names start with a letter (or π, φ, τ) and run over
/// letters and numbers, spaces separate, and any other character is refused.
pub open spec fn tokenize_spec(s: Seq<char>) -> Result<Seq<TokenView>, Seq<char>>
    decreases s.len(),
{
    if s.len() == 0 {
        Ok(Seq::empty())
    } else {
        let c = s[0];
        if numeral_char(c) {
            let k = run_after_first(s, |x: char| numeral_char(x));
            proof {
                lemma_run_bounds(s, |x: char| numeral_char(x));
            }
            if numeral_reads(s.take(k as int)) {
                prepend(TokenView::Number(s.take(k as int)), tokenize_spec(s.skip(k as int)))
            } else {
                Err("Invalid number: invalid float literal"@)
            }
        } else if name_start(c) {
            let k = run_after_first(s, |x: char| name_char(x));
            proof {
                lemma_run_bounds(s, |x: char| name_char(x));
            }
            let name = s.take(k as int);
            if known_constant(constant_name(name)) {
                prepend(TokenView::Constant(constant_name(name)), tokenize_spec(s.skip(k as int)))
            } else {
                Err("Unknown constant: "@ + name)
            }
        } else if c == ' ' {
            tokenize_spec(s.drop_first())
        } else {
            match symbol_token(c) {
                Some(t) => prepend(t, tokenize_spec(s.drop_first())),
                None => Err("Invalid character: "@ + seq![c]),
            }
        }
    }
}

pub proof fn lemma_run_bounds(s: Seq<char>, p: spec_fn(char) -> bool)
    requires
        s.len() >= 1,
    ensures
        1 <= run_after_first(s, p) <= s.len(),
        forall|j: int| 1 <= j < run_after_first(s, p) ==> p(#[trigger] s[j]),
        run_after_first(s, p) < s.len() ==> !p(s[run_after_first(s, p) as int]),
    decreases s.len(),
{
    if s.len() > 1 && p(s[1]) {
        lemma_run_bounds(s.drop_first(), p);
        assert forall|j: int| 1 <= j < run_after_first(s, p) implies p(#[trigger] s[j]) by {
            if j >= 2 {
                assert(s[j] == s.drop_first()[j - 1]);
            }
        }
    }
}

/// The end of the numeral that starts at `start`: the first index after it
/// that holds no digit or dot.
fn numeral_end(s: &Vec<char>, start: usize) -> (end: usize)
    requires
        start < s@.len(),
    ensures
        start < end <= s@.len(),
        end == start + run_after_first(s@.skip(start as int), |x: char| numeral_char(x)),
{
    let ghost rest = s@.skip(start as int);
    proof {
        lemma_run_bounds(rest, |x: char| numeral_char(x));
    }
    let n = s.len();
    let mut end: usize = start + 1;
    while end < n
        invariant
            n == s@.len(),
            start < end <= n,
            rest == s@.skip(start as int),
            1 <= run_after_first(rest, |x: char| numeral_char(x)) <= rest.len(),
            forall|j: int| 1 <= j < run_after_first(rest, |x: char| numeral_char(x)) ==> numeral_char(#[trigger] rest[j]),
            run_after_first(rest, |x: char| numeral_char(x)) < rest.len() ==> !numeral_char(
                rest[run_after_first(rest, |x: char| numeral_char(x)) as int],
            ),
            end - start <= run_after_first(rest, |x: char| numeral_char(x)),
        ensures
            end - start == run_after_first(rest, |x: char| numeral_char(x)),
        decreases n - end,
    {
        let c = s[end];
        assert(rest[end - start] == c);
        if !(('0' <= c && c <= '9') || c == '.') {
            break;
        }
        end = end + 1;
    }
    end
}

/// The end of the name that starts at `start`: the first index after it
/// that holds no letter or number.
fn name_end(s: &Vec<char>, start: usize) -> (end: usize)
    requires
        start < s@.len(),
    ensures
        start < end <= s@.len(),
        end == start + run_after_first(s@.skip(start as int), |x: char| name_char(x)),
{
    let ghost rest = s@.skip(start as int);
    proof {
        lemma_run_bounds(rest, |x: char| name_char(x));
    }
    let n = s.len();
    let mut end: usize = start + 1;
    while end < n
        invariant
            n == s@.len(),
            start < end <= n,
            rest == s@.skip(start as int),
            1 <= run_after_first(rest, |x: char| name_char(x)) <= rest.len(),
            forall|j: int| 1 <= j < run_after_first(rest, |x: char| name_char(x)) ==> name_char(#[trigger] rest[j]),
            run_after_first(rest, |x: char| name_char(x)) < rest.len() ==> !name_char(
                rest[run_after_first(rest, |x: char| name_char(x)) as int],
            ),
            end - start <= run_after_first(rest, |x: char| name_char(x)),
        ensures
            end - start == run_after_first(rest, |x: char| name_char(x)),
        decreases n - end,
    {
        let c = s[end];
        assert(rest[end - start] == c);
        if !(is_alphanumeric(c) || c == 'π' || c == 'φ' || c == 'τ') {
            break;
        }
        end = end + 1;
    }
    end
}

fn numeral_ok(t: &Vec<char>) -> (r: bool)
    ensures
        r == numeral_reads(t@),
{
    let mut dots: usize = 0;
    let mut digit = false;
    let mut i: usize = 0;
    assert(t@.take(0).filter(|c: char| c == '.') =~= Seq::<char>::empty());
    while i < t.len()
        invariant
            i <= t@.len(),
            dots == t@.take(i as int).filter(|c: char| c == '.').len(),
            digit == exists|j: int| 0 <= j < i && '0' <= #[trigger] t@[j] <= '9',
        decreases t@.len() - i,
    {
        let c = t[i];
        assert(t@.take(i + 1) =~= t@.take(i as int).push(c));
        proof {
            t@.take(i as int).lemma_filter_push(c, |c: char| c == '.');
        }
        if c == '.' {
            dots = dots + 1;
        }
        if '0' <= c && c <= '9' {
            digit = true;
        }
        i = i + 1;
    }
    assert(t@.take(t@.len() as int) =~= t@);
    dots <= 1 && digit
}

fn push_token(tokens: &mut Vec<CalcToken>, t: CalcToken)
    ensures
        tokens_view(final(tokens)@) == tokens_view(old(tokens)@).push(token_view(t)),
{
    let ghost before = tokens@;
    tokens.push(t);
    assert(tokens_view(tokens@) =~= tokens_view(before).push(token_view(t)));
}

/// What the tokens gathered so far make of the rest's tokenization.
pub open spec fn after(done: Seq<TokenView>, rest: Result<Seq<TokenView>, Seq<char>>) -> Result<Seq<TokenView>, Seq<char>> {
    match rest {
        Ok(ts) => Ok(done + ts),
        Err(e) => Err(e),
    }
}

/// Splits a `!calc` expression into tokens, or says what is wrong with it.
pub fn tokenize(input: &str) -> (r: Result<Vec<CalcToken>, String>)
    ensures
        match r {
            Ok(ts) => tokenize_spec(input@) == Ok::<Seq<TokenView>, Seq<char>>(tokens_view(ts@)),
            Err(e) => tokenize_spec(input@) == Err::<Seq<TokenView>, Seq<char>>(e@),
        },
{
    let s = chars_of(input);
    let mut tokens: Vec<CalcToken> = Vec::new();
    let mut i: usize = 0;
    assert(s@.skip(0) =~= s@);
    assert(tokens_view(tokens@) =~= Seq::<TokenView>::empty());
    while i < s.len()
        invariant
            i <= s@.len(),
            s@ == input@,
            tokenize_spec(input@) == after(tokens_view(tokens@), tokenize_spec(s@.skip(i as int))),
        decreases s@.len() - i,
    {
        let ghost rest = s@.skip(i as int);
        let c = s[i];
        assert(rest[0] == c);
        if ('0' <= c && c <= '9') || c == '.' {
            let end = numeral_end(&s, i);
            let text = slice_range(s.as_slice(), i, end);
            assert(text@ =~= rest.take((end - i) as int));
            assert(rest.skip((end - i) as int) =~= s@.skip(end as int));
            if !numeral_ok(&text) {
                return Err(String::from_str("Invalid number: invalid float literal"));
            }
            let ghost before = tokens_view(tokens@);
            push_token(&mut tokens, CalcToken::Number(string_from_chars(text.as_slice())));
            assert(before + (seq![TokenView::Number(text@)] + tokens_view(tokens@).skip(before.len() as int))
                == before.push(TokenView::Number(text@)) + tokens_view(tokens@).skip(before.len() as int));
            proof {
                match tokenize_spec(s@.skip(end as int)) {
                    Ok(ts) => {
                        assert(before + (seq![TokenView::Number(text@)] + ts) =~= tokens_view(tokens@) + ts);
                    },
                    Err(_) => {},
                }
            }
            i = end;
        } else if ('a' <= c && c <= 'z') || ('A' <= c && c <= 'Z') || c == 'π' || c == 'φ' || c == 'τ' {
            let end = name_end(&s, i);
            let name = slice_range(s.as_slice(), i, end);
            assert(name@ =~= rest.take((end - i) as int));
            assert(rest.skip((end - i) as int) =~= s@.skip(end as int));
            let name_text = string_from_chars(name.as_slice());
            let constant = if name.len() == 1 && name[0] == 'π' {
                String::from_str("pi")
            } else if name.len() == 1 && name[0] == 'φ' {
                String::from_str("phi")
            } else if name.len() == 1 && name[0] == 'τ' {
                String::from_str("tau")
            } else {
                name_text.clone()
            };
            proof {
                if name@.len() == 1 {
                    assert(name@ == seq![name@[0]]);
                }
                if name@ == seq!['π'] || name@ == seq!['φ'] || name@ == seq!['τ'] {
                    assert(name@.len() == 1);
                }
            }
            assert(constant@ == constant_name(name@));
            let known = str_equal(constant.as_str(), "pi") || str_equal(constant.as_str(), "e") || str_equal(
                constant.as_str(),
                "phi",
            ) || str_equal(constant.as_str(), "tau");
            if !known {
                let mut e = String::from_str("Unknown constant: ");
                e.append(name_text.as_str());
                return Err(e);
            }
            let ghost before = tokens_view(tokens@);
            push_token(&mut tokens, CalcToken::Constant(constant));
            proof {
                match tokenize_spec(s@.skip(end as int)) {
                    Ok(ts) => {
                        assert(before + (seq![TokenView::Constant(constant_name(name@))] + ts) =~= tokens_view(
                            tokens@,
                        ) + ts);
                    },
                    Err(_) => {},
                }
            }
            i = end;
        } else if c == ' ' {
            assert(rest.drop_first() =~= s@.skip(i + 1));
            i = i + 1;
        } else {
            let symbol = if c == '+' {
                Some(CalcToken::Plus)
            } else if c == '-' {
                Some(CalcToken::Minus)
            } else if c == '*' {
                Some(CalcToken::Multiply)
            } else if c == '/' {
                Some(CalcToken::Divide)
            } else if c == '^' {
                Some(CalcToken::Power)
            } else if c == '(' {
                Some(CalcToken::LeftParen)
            } else if c == ')' {
                Some(CalcToken::RightParen)
            } else {
                None
            };
            let t = match symbol {
                Some(t) => t,
                None => {
                    let mut e = String::from_str("Invalid character: ");
                    push_char(&mut e, c);
                    assert(e@ =~= "Invalid character: "@ + seq![c]);
                    return Err(e);
                },
            };
            assert(symbol_token(c) == Some(token_view(t)));
            assert(rest.drop_first() =~= s@.skip(i + 1));
            let ghost before = tokens_view(tokens@);
            push_token(&mut tokens, t);
            proof {
                match tokenize_spec(s@.skip(i + 1)) {
                    Ok(ts) => {
                        assert(before + (seq![token_view(t)] + ts) =~= tokens_view(tokens@) + ts);
                    },
                    Err(_) => {},
                }
            }
            i = i + 1;
        }
    }
    assert(s@.skip(i as int) =~= Seq::<char>::empty());
    assert(tokens_view(tokens@) + Seq::<TokenView>::empty() =~= tokens_view(tokens@));
    Ok(tokens)
}

/// One step of evaluating a `!calc` expression on a stack of numbers.
#[derive(Debug)]
pub enum CalcStep {
    /// Push the value of this number or constant.
    Operand(CalcToken),
    /// Pop two values and push what this operator makes of them.
    Apply(CalcToken),
}

/// A step as plain values.
pub enum StepView {
    Operand(TokenView),
    Apply(TokenView),
}

pub open spec fn step_view(s: CalcStep) -> StepView {
    match s {
        CalcStep::Operand(t) => StepView::Operand(token_view(t)),
        CalcStep::Apply(t) => StepView::Apply(token_view(t)),
    }
}

pub open spec fn steps_view(s: Seq<CalcStep>) -> Seq<StepView> {
    s.map_values(|x: CalcStep| step_view(x))
}

/// The steps emitted so far and the operators waiting, top last.
pub type ShuntState = (Seq<StepView>, Seq<TokenView>);

/// Applies waiting operators down to an opening parenthesis (kept) or the bottom.
pub open spec fn pop_additive(st: ShuntState) -> ShuntState
    decreases st.1.len(),
{
    if st.1.len() == 0 || st.1.last() is LeftParen {
        st
    } else {
        pop_additive((st.0.push(StepView::Apply(st.1.last())), st.1.drop_last()))
    }
}

/// Applies waiting `*`, `/` and `^` operators from the top.
pub open spec fn pop_multiplicative(st: ShuntState) -> ShuntState
    decreases st.1.len(),
{
    if st.1.len() == 0 || !(st.1.last() is Multiply || st.1.last() is Divide || st.1.last() is Power) {
        st
    } else {
        pop_multiplicative((st.0.push(StepView::Apply(st.1.last())), st.1.drop_last()))
    }
}

/// Applies waiting operators down to an opening parenthesis, which is dropped.
pub open spec fn pop_to_paren(st: ShuntState) -> ShuntState
    decreases st.1.len(),
{
    if st.1.len() == 0 {
        st
    } else if st.1.last() is LeftParen {
        (st.0, st.1.drop_last())
    } else {
        pop_to_paren((st.0.push(StepView::Apply(st.1.last())), st.1.drop_last()))
    }
}

/// Applies every waiting operator, parentheses included.
pub open spec fn pop_all(st: ShuntState) -> ShuntState
    decreases st.1.len(),
{
    if st.1.len() == 0 {
        st
    } else {
        pop_all((st.0.push(StepView::Apply(st.1.last())), st.1.drop_last()))
    }
}

/// What one token does to the state: operands are emitted; `+` and `-`
/// first apply what waits above the last parenthesis, `*` and `/` what
/// waits of `*`, `/` and `^`; `^` and `(` just wait; `)` applies down to its
/// parenthesis.
pub open spec fn shunt_step(st: ShuntState, t: TokenView) -> ShuntState {
    match t {
        TokenView::Number(_) => (st.0.push(StepView::Operand(t)), st.1),
        TokenView::Constant(_) => (st.0.push(StepView::Operand(t)), st.1),
        TokenView::Plus => (pop_additive(st).0, pop_additive(st).1.push(t)),
        TokenView::Minus => (pop_additive(st).0, pop_additive(st).1.push(t)),
        TokenView::Multiply => (pop_multiplicative(st).0, pop_multiplicative(st).1.push(t)),
        TokenView::Divide => (pop_multiplicative(st).0, pop_multiplicative(st).1.push(t)),
        TokenView::Power => (st.0, st.1.push(t)),
        TokenView::LeftParen => (st.0, st.1.push(t)),
        TokenView::RightParen => pop_to_paren(st),
    }
}

/// The state after all the tokens.
pub open spec fn shunt(ts: Seq<TokenView>) -> ShuntState
    decreases ts.len(),
{
    if ts.len() == 0 {
        (Seq::empty(), Seq::empty())
    } else {
        shunt_step(shunt(ts.drop_last()), ts.last())
    }
}

/// The order in which `!calc` evaluates its tokens: after the last token,
/// every operator still waiting is applied.
pub open spec fn evaluation_order_spec(ts: Seq<TokenView>) -> Seq<StepView> {
    pop_all(shunt(ts)).0
}

fn emit(out: &mut Vec<CalcStep>, s: CalcStep)
    ensures
        steps_view(final(out)@) == steps_view(old(out)@).push(step_view(s)),
{
    let ghost before = out@;
    out.push(s);
    assert(steps_view(out@) =~= steps_view(before).push(step_view(s)));
}

fn pop_op(ops: &mut Vec<CalcToken>) -> (t: CalcToken)
    requires
        old(ops)@.len() > 0,
    ensures
        token_view(t) == tokens_view(old(ops)@).last(),
        tokens_view(final(ops)@) == tokens_view(old(ops)@).drop_last(),
{
    let ghost before = ops@;
    let t = ops.pop().unwrap();
    assert(tokens_view(ops@) =~= tokens_view(before).drop_last());
    t
}

fn push_op(ops: &mut Vec<CalcToken>, t: CalcToken)
    ensures
        tokens_view(final(ops)@) == tokens_view(old(ops)@).push(token_view(t)),
{
    let ghost before = ops@;
    ops.push(t);
    assert(tokens_view(ops@) =~= tokens_view(before).push(token_view(t)));
}

/// Which waiting operators a token makes apply first.
#[derive(PartialEq, Eq, Structural, Clone, Copy)]
enum PopMode {
    Additive,
    Multiplicative,
    ToParen,
    All,
}

spec fn pop_spec(mode: PopMode, st: ShuntState) -> ShuntState {
    match mode {
        PopMode::Additive => pop_additive(st),
        PopMode::Multiplicative => pop_multiplicative(st),
        PopMode::ToParen => pop_to_paren(st),
        PopMode::All => pop_all(st),
    }
}

fn pop_ops(out: &mut Vec<CalcStep>, ops: &mut Vec<CalcToken>, mode: PopMode)
    ensures
        (steps_view(final(out)@), tokens_view(final(ops)@)) == pop_spec(
            mode,
            (steps_view(old(out)@), tokens_view(old(ops)@)),
        ),
{
    let ghost target = pop_spec(mode, (steps_view(out@), tokens_view(ops@)));
    loop
        invariant
            pop_spec(mode, (steps_view(out@), tokens_view(ops@))) == target,
            target == pop_spec(mode, (steps_view(old(out)@), tokens_view(old(ops)@))),
        ensures
            (steps_view(out@), tokens_view(ops@)) == target,
        decreases ops@.len(),
    {
        let ghost st = (steps_view(out@), tokens_view(ops@));
        if ops.len() == 0 {
            assert(pop_spec(mode, st) == st);
            return;
        }
        let n = ops.len();
        assert(tokens_view(ops@).last() == token_view(ops@[n - 1]));
        let stop = match (&ops[n - 1], mode) {
            (CalcToken::LeftParen, PopMode::Additive) => true,
            (CalcToken::Multiply, PopMode::Multiplicative) => false,
            (CalcToken::Divide, PopMode::Multiplicative) => false,
            (CalcToken::Power, PopMode::Multiplicative) => false,
            (_, PopMode::Multiplicative) => true,
            (CalcToken::LeftParen, PopMode::ToParen) => {
                assert(pop_spec(mode, st) == (st.0, st.1.drop_last()));
                let _ = pop_op(ops);
                return;
            },
            _ => false,
        };
        if stop {
            assert(pop_spec(mode, st) == st);
            return;
        }
        let t = pop_op(ops);
        emit(out, CalcStep::Apply(t));
    }
}

/// The steps that evaluate the tokens of a `!calc` expression, in order;
/// running them on a stack of numbers until a step fails gives the
/// expression's value or its error.
pub fn evaluation_order(tokens: &Vec<CalcToken>) -> (r: Vec<CalcStep>)
    ensures
        steps_view(r@) == evaluation_order_spec(tokens_view(tokens@)),
{
    let mut out: Vec<CalcStep> = Vec::new();
    let mut ops: Vec<CalcToken> = Vec::new();
    let ghost all = tokens_view(tokens@);
    let mut i: usize = 0;
    assert(all.take(0) =~= Seq::<TokenView>::empty());
    assert(steps_view(out@) =~= Seq::<StepView>::empty());
    assert(tokens_view(ops@) =~= Seq::<TokenView>::empty());
    while i < tokens.len()
        invariant
            i <= tokens@.len(),
            all == tokens_view(tokens@),
            (steps_view(out@), tokens_view(ops@)) == shunt(all.take(i as int)),
        decreases tokens@.len() - i,
    {
        let t = &tokens[i];
        assert(all.take(i + 1).drop_last() =~= all.take(i as int));
        assert(all.take(i + 1).last() == token_view(*t));
        match t {
            CalcToken::Number(_) => emit(&mut out, CalcStep::Operand(t.duplicate())),
            CalcToken::Constant(_) => emit(&mut out, CalcStep::Operand(t.duplicate())),
            CalcToken::Plus => {
                pop_ops(&mut out, &mut ops, PopMode::Additive);
                push_op(&mut ops, CalcToken::Plus);
            },
            CalcToken::Minus => {
                pop_ops(&mut out, &mut ops, PopMode::Additive);
                push_op(&mut ops, CalcToken::Minus);
            },
            CalcToken::Multiply => {
                pop_ops(&mut out, &mut ops, PopMode::Multiplicative);
                push_op(&mut ops, CalcToken::Multiply);
            },
            CalcToken::Divide => {
                pop_ops(&mut out, &mut ops, PopMode::Multiplicative);
                push_op(&mut ops, CalcToken::Divide);
            },
            CalcToken::Power => push_op(&mut ops, CalcToken::Power),
            CalcToken::LeftParen => push_op(&mut ops, CalcToken::LeftParen),
            CalcToken::RightParen => pop_ops(&mut out, &mut ops, PopMode::ToParen),
        }
        i = i + 1;
    }
    assert(all.take(tokens@.len() as int) =~= all);
    pop_ops(&mut out, &mut ops, PopMode::All);
    out
}

} // verus!

verus! {

/// The expression of `!calc`: all arguments joined by spaces; the usage
/// line where there are none.
pub fn calc_plan(params: &Vec<String>) -> (r: TextPlan)
    ensures
        params@.len() == 0 ==> r is Usage && r->Usage_0@ == "Usage: !calc <expression>"@,
        params@.len() > 0 ==> r is Proceed && r->Proceed_0@ == join(string_views(params@), " "@),
{
    text_plan(params, "Usage: !calc <expression>")
}

/// What one step does to the number of values on the evaluation stack, or
/// the error it stops with where that does not depend on the values: an
/// operand that is no number or constant is an invalid expression; an
/// operator needs two values, then must be one of `+ - * / ^`.
pub open spec fn step_depth(depth: int, step: StepView) -> Result<int, Seq<char>> {
    match step {
        StepView::Operand(TokenView::Number(_)) => Ok(depth + 1),
        StepView::Operand(TokenView::Constant(_)) => Ok(depth + 1),
        StepView::Operand(_) => Err("Invalid expression"@),
        StepView::Apply(op) => if depth < 2 {
            Err("Invalid expression: not enough operands"@)
        } else if op is Plus || op is Minus || op is Multiply || op is Divide || op is Power {
            Ok(depth - 1)
        } else {
            Err("Invalid operator"@)
        },
    }
}

/// Checks one step against the number of values on the stack: the new
/// number, or the error that the step stops with whatever the values are.
pub fn check_step(depth: usize, step: &CalcStep) -> (r: Result<usize, String>)
    requires
        depth < usize::MAX,
    ensures
        match r {
            Ok(n) => step_depth(depth as int, step_view(*step)) == Ok::<int, Seq<char>>(n as int),
            Err(e) => step_depth(depth as int, step_view(*step)) == Err::<int, Seq<char>>(e@),
        },
{
    match step {
        CalcStep::Operand(CalcToken::Number(_)) => Ok(depth + 1),
        CalcStep::Operand(CalcToken::Constant(_)) => Ok(depth + 1),
        CalcStep::Operand(_) => Err(String::from_str("Invalid expression")),
        CalcStep::Apply(op) => {
            if depth < 2 {
                Err(String::from_str("Invalid expression: not enough operands"))
            } else {
                match op {
                    CalcToken::Plus | CalcToken::Minus | CalcToken::Multiply | CalcToken::Divide
                    | CalcToken::Power => Ok(depth - 1),
                    _ => Err(String::from_str("Invalid operator")),
                }
            }
        },
    }
}

/// After the last step: the result is the value on top of the stack; an
/// empty stack is an invalid expression.
pub fn check_result(depth: usize) -> (r: Result<(), String>)
    ensures
        depth == 0 <==> r is Err,
        r matches Err(e) ==> e@ == "Invalid expression"@,
{
    if depth == 0 {
        Err(String::from_str("Invalid expression"))
    } else {
        Ok(())
    }
}

/// The answer when an expression cannot be evaluated.
pub fn calc_error_reply(error: &str) -> (r: String)
    ensures
        r@ == "Error: "@ + error@,
{
    let mut r = String::from_str("Error: ");
    r.append(error);
    r
}

/// How tightly a binary operator binds: `+` and `-` loosest, then `*` and
/// `/`, then `^`.
pub open spec fn binding(t: TokenView) -> int {
    match t {
        TokenView::Plus => 1,
        TokenView::Minus => 1,
        TokenView::Multiply => 2,
        TokenView::Divide => 2,
        TokenView::Power => 3,
        _ => 0,
    }
}

/// A binary operator token.
pub open spec fn is_operator(t: TokenView) -> bool {
    binding(t) > 0
}

/// A number or a constant.
pub open spec fn is_operand(t: TokenView) -> bool {
    t is Number || t is Constant
}

/// `x o1 y o2 z` is evaluated as `(x o1 y) o2 z` when `o1` binds at least
/// as tightly as `o2` and `o2` is not `^`; otherwise as `x o1 (y o2 z)`:
/// `^` binds tightest and groups to the right, `*` and `/` bind tighter
/// than `+` and `-`, and operators that bind alike group to the left.
pub proof fn law_precedence(x: TokenView, o1: TokenView, y: TokenView, o2: TokenView, z: TokenView)
    requires
        is_operand(x),
        is_operand(y),
        is_operand(z),
        is_operator(o1),
        is_operator(o2),
    ensures
        evaluation_order_spec(seq![x, o1, y, o2, z]) == if binding(o1) >= binding(o2) && !(o2 is Power) {
            seq![
                StepView::Operand(x),
                StepView::Operand(y),
                StepView::Apply(o1),
                StepView::Operand(z),
                StepView::Apply(o2),
            ]
        } else {
            seq![
                StepView::Operand(x),
                StepView::Operand(y),
                StepView::Operand(z),
                StepView::Apply(o2),
                StepView::Apply(o1),
            ]
        },
{
    let t = seq![x, o1, y, o2, z];
    assert(t.drop_last() =~= seq![x, o1, y, o2]);
    assert(seq![x, o1, y, o2].drop_last() =~= seq![x, o1, y]);
    assert(seq![x, o1, y].drop_last() =~= seq![x, o1]);
    assert(seq![x, o1].drop_last() =~= seq![x]);
    assert(seq![x].drop_last() =~= Seq::<TokenView>::empty());
    reveal_with_fuel(pop_additive, 3);
    reveal_with_fuel(pop_multiplicative, 3);
    reveal_with_fuel(pop_all, 4);
    let e = Seq::<StepView>::empty();
    let no = Seq::<TokenView>::empty();
    assert(shunt(no) == (e, no));
    assert(seq![x].last() == x);
    assert(shunt(seq![x]) == (e.push(StepView::Operand(x)), no));
    assert(shunt(seq![x, o1]) == (seq![StepView::Operand(x)], seq![o1]));
    assert(shunt(seq![x, o1, y]) == (seq![StepView::Operand(x), StepView::Operand(y)], seq![o1]));
    let xy = seq![StepView::Operand(x), StepView::Operand(y)];
    if binding(o1) >= binding(o2) && !(o2 is Power) {
        assert(shunt(seq![x, o1, y, o2]) == (xy.push(StepView::Apply(o1)), seq![o2]));
    } else {
        assert(shunt(seq![x, o1, y, o2]) == (xy, seq![o1, o2]));
    }
}

/// A parenthesised group is evaluated first: `(x o1 y) o2 z` applies `o1`
/// before `o2`, and `x o1 (y o2 z)` applies `o2` before `o1`, whatever the
/// operators.
pub proof fn law_parentheses_first(x: TokenView, o1: TokenView, y: TokenView, o2: TokenView, z: TokenView)
    requires
        is_operand(x),
        is_operand(y),
        is_operand(z),
        is_operator(o1),
        is_operator(o2),
    ensures
        evaluation_order_spec(seq![TokenView::LeftParen, x, o1, y, TokenView::RightParen, o2, z]) == seq![
            StepView::Operand(x),
            StepView::Operand(y),
            StepView::Apply(o1),
            StepView::Operand(z),
            StepView::Apply(o2),
        ],
        evaluation_order_spec(seq![x, o1, TokenView::LeftParen, y, o2, z, TokenView::RightParen]) == seq![
            StepView::Operand(x),
            StepView::Operand(y),
            StepView::Operand(z),
            StepView::Apply(o2),
            StepView::Apply(o1),
        ],
{
    reveal_with_fuel(pop_additive, 3);
    reveal_with_fuel(pop_multiplicative, 3);
    reveal_with_fuel(pop_to_paren, 3);
    reveal_with_fuel(pop_all, 4);
    let lp = TokenView::LeftParen;
    let rp = TokenView::RightParen;
    let ox = StepView::Operand(x);
    let oy = StepView::Operand(y);
    let oz = StepView::Operand(z);
    let a = seq![lp, x, o1, y, rp, o2, z];
    assert(a.drop_last() =~= seq![lp, x, o1, y, rp, o2]);
    assert(seq![lp, x, o1, y, rp, o2].drop_last() =~= seq![lp, x, o1, y, rp]);
    assert(seq![lp, x, o1, y, rp].drop_last() =~= seq![lp, x, o1, y]);
    assert(seq![lp, x, o1, y].drop_last() =~= seq![lp, x, o1]);
    assert(seq![lp, x, o1].drop_last() =~= seq![lp, x]);
    assert(seq![lp, x].drop_last() =~= seq![lp]);
    assert(seq![lp].drop_last() =~= Seq::<TokenView>::empty());
    assert(shunt(Seq::<TokenView>::empty()) == (Seq::<StepView>::empty(), Seq::<TokenView>::empty()));
    assert(seq![lp].last() == lp);
    assert(shunt(seq![lp]) == (Seq::<StepView>::empty(), seq![lp]));
    assert(shunt(seq![lp, x]) == (seq![ox], seq![lp]));
    assert(shunt(seq![lp, x, o1]) == (seq![ox], seq![lp, o1]));
    assert(shunt(seq![lp, x, o1, y]) == (seq![ox, oy], seq![lp, o1]));
    assert(shunt(seq![lp, x, o1, y, rp]) == (seq![ox, oy, StepView::Apply(o1)], Seq::<TokenView>::empty()));
    assert(shunt(seq![lp, x, o1, y, rp, o2]) == (seq![ox, oy, StepView::Apply(o1)], seq![o2]));
    let b = seq![x, o1, lp, y, o2, z, rp];
    assert(b.drop_last() =~= seq![x, o1, lp, y, o2, z]);
    assert(seq![x, o1, lp, y, o2, z].drop_last() =~= seq![x, o1, lp, y, o2]);
    assert(seq![x, o1, lp, y, o2].drop_last() =~= seq![x, o1, lp, y]);
    assert(seq![x, o1, lp, y].drop_last() =~= seq![x, o1, lp]);
    assert(seq![x, o1, lp].drop_last() =~= seq![x, o1]);
    assert(seq![x, o1].drop_last() =~= seq![x]);
    assert(seq![x].drop_last() =~= Seq::<TokenView>::empty());
    assert(seq![x].last() == x);
    assert(shunt(seq![x]) == (seq![ox], Seq::<TokenView>::empty()));
    assert(shunt(seq![x, o1]) == (seq![ox], seq![o1]));
    assert(shunt(seq![x, o1, lp]) == (seq![ox], seq![o1, lp]));
    assert(shunt(seq![x, o1, lp, y]) == (seq![ox, oy], seq![o1, lp]));
    assert(shunt(seq![x, o1, lp, y, o2]) == (seq![ox, oy], seq![o1, lp, o2]));
    assert(shunt(seq![x, o1, lp, y, o2, z]) == (seq![ox, oy, oz], seq![o1, lp, o2]));
    assert(shunt(b) == (seq![ox, oy, oz, StepView::Apply(o2)], seq![o1]));
}

/// The operator token a character stands for, as `!calc` writes them.
pub open spec fn operator_of(c: char) -> TokenView {
    if c == '+' {
        TokenView::Plus
    } else if c == '-' {
        TokenView::Minus
    } else if c == '*' {
        TokenView::Multiply
    } else if c == '/' {
        TokenView::Divide
    } else {
        TokenView::Power
    }
}

/// A one-digit numeral.
proof fn lemma_digit_numeral(d: char)
    requires
        '0' <= d <= '9',
    ensures
        numeral_reads(seq![d]),
{
    assert(seq![d][0] == d);
    assert(seq![d].filter(|c: char| c == '.') =~= Seq::<char>::empty()) by {
        reveal_with_fuel(vstd::seq::Seq::filter, 2);
        assert(seq![d].drop_last() =~= Seq::<char>::empty());
    }
}

/// `d1 op d2` with one-digit numerals reads as three tokens: the first
/// number, the operator the symbol stands for, the second number; spaces
/// around the operator change nothing.
pub proof fn law_tokenize_binary(d1: char, c: char, d2: char)
    requires
        '0' <= d1 <= '9',
        '0' <= d2 <= '9',
        c == '+' || c == '-' || c == '*' || c == '/' || c == '^',
    ensures
        tokenize_spec(seq![d1, c, d2]) == Ok::<Seq<TokenView>, Seq<char>>(
            seq![TokenView::Number(seq![d1]), operator_of(c), TokenView::Number(seq![d2])],
        ),
        tokenize_spec(seq![d1, ' ', c, ' ', d2]) == tokenize_spec(seq![d1, c, d2]),
{
    lemma_digit_numeral(d1);
    lemma_digit_numeral(d2);
    let s = seq![d1, c, d2];
    reveal_with_fuel(run_after_first, 2);
    assert(s.take(1) =~= seq![d1]);
    assert(s.skip(1) =~= seq![c, d2]);
    assert(seq![c, d2].drop_first() =~= seq![d2]);
    let t2 = seq![d2];
    assert(t2.take(1) =~= seq![d2]);
    assert(t2.skip(1) =~= Seq::<char>::empty());
    assert(numeral_char(d2));
    assert(t2[0] == d2);
    assert(run_after_first(t2, |x: char| numeral_char(x)) == 1);
    assert(tokenize_spec(Seq::<char>::empty()) == Ok::<Seq<TokenView>, Seq<char>>(Seq::<TokenView>::empty()));
    assert(seq![TokenView::Number(seq![d2])] + Seq::<TokenView>::empty() =~= seq![TokenView::Number(seq![d2])]);
    assert(tokenize_spec(t2) == Ok::<Seq<TokenView>, Seq<char>>(seq![TokenView::Number(seq![d2])]));
    assert(tokenize_spec(seq![c, d2]) == Ok::<Seq<TokenView>, Seq<char>>(
        seq![operator_of(c)] + seq![TokenView::Number(seq![d2])],
    ));
    assert(seq![operator_of(c)] + seq![TokenView::Number(seq![d2])] =~= seq![operator_of(c), TokenView::Number(seq![d2])]);
    assert(seq![TokenView::Number(seq![d1])] + seq![operator_of(c), TokenView::Number(seq![d2])] =~= seq![
        TokenView::Number(seq![d1]),
        operator_of(c),
        TokenView::Number(seq![d2]),
    ]);
    let w = seq![d1, ' ', c, ' ', d2];
    assert(w.take(1) =~= seq![d1]);
    assert(w.skip(1) =~= seq![' ', c, ' ', d2]);
    assert(seq![' ', c, ' ', d2].drop_first() =~= seq![c, ' ', d2]);
    assert(seq![c, ' ', d2].drop_first() =~= seq![' ', d2]);
    assert(seq![' ', d2].drop_first() =~= t2);
    assert(seq![' ', d2][0] == ' ');
    assert(tokenize_spec(seq![' ', d2]) == tokenize_spec(t2));
    assert(seq![c, ' ', d2][0] == c);
    assert(tokenize_spec(seq![c, ' ', d2]) == prepend(operator_of(c), tokenize_spec(seq![' ', d2])));
    assert(seq![' ', c, ' ', d2][0] == ' ');
    assert(tokenize_spec(seq![' ', c, ' ', d2]) == tokenize_spec(seq![c, ' ', d2]));
    assert(w[0] == d1 && w[1] == ' ');
    assert(run_after_first(w, |x: char| numeral_char(x)) == 1);
    assert(s[0] == d1 && s[1] == c);
    assert(run_after_first(s, |x: char| numeral_char(x)) == 1);
}

} // verus!
