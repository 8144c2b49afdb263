//! The formula language of per-bracket tax formulas.
//!
//! Grammar, with whitespace (space, tab, CR, LF) allowed around every operand:
//!
//! ```text
//! expr   := term (('+' | '-') term)*
//! term   := factor (('*' | '/') term)*
//! factor := '(' expr ')' | literal | '$wert$' | 'log' factor
//! ```
//!
//! Sums fold to the left. The right operand of `*` and `/` is a whole `term`,
//! so `a/b/c` reads as `a/(b/c)`.

use crate::decimal::{lex_literal, lex_literal_at, Decimal};
use vstd::prelude::*;

verus! {

/// A formula over one input, the income.
#[derive(PartialEq, Eq, Hash, Debug)]
pub enum Formula {
    Input,
    Const(Decimal),
    Log(Box<Formula>),
    Add(Box<Formula>, Box<Formula>),
    Sub(Box<Formula>, Box<Formula>),
    Mul(Box<Formula>, Box<Formula>),
    Div(Box<Formula>, Box<Formula>),
}

/// Why a formula text was rejected.
#[derive(Clone, Copy, PartialEq, Eq, Structural, Debug)]
pub enum FormulaParseError {
    /// No formula could be read at the start of the text.
    Malformed,
    /// A formula was read, but text remains from this character position on.
    Trailing { position: usize },
}

pub open spec fn is_space(c: char) -> bool {
    c == ' ' || c == '\t' || c == '\r' || c == '\n'
}

/// The first position at or after `p` that does not hold whitespace.
pub open spec fn skip_space(s: Seq<char>, p: int) -> int
    decreases s.len() - p,
{
    if 0 <= p < s.len() && is_space(s[p]) {
        skip_space(s, p + 1)
    } else {
        p
    }
}

/// The token that stands for the input.
pub open spec fn input_token() -> Seq<char> {
    seq!['$', 'w', 'e', 'r', 't', '$']
}

/// The keyword of the natural logarithm.
pub open spec fn log_token() -> Seq<char> {
    seq!['l', 'o', 'g']
}

/// `t` is written at position `p` of `s`.
pub open spec fn has_token(s: Seq<char>, p: int, t: Seq<char>) -> bool {
    0 <= p && p + t.len() <= s.len() && s.subrange(p, p + t.len()) == t
}

pub proof fn lemma_skip_space(s: Seq<char>, p: int)
    requires
        0 <= p <= s.len(),
    ensures
        p <= skip_space(s, p) <= s.len(),
    decreases s.len() - p,
{
    if p < s.len() && is_space(s[p]) {
        lemma_skip_space(s, p + 1);
    }
}

/// `expr` at `p`: the formula and the position after it. The repetitions
/// only go on while they move forward.
pub open spec fn parse_expr(s: Seq<char>, p: int) -> Option<(Formula, int)>
    decreases s.len() - p, 2int,
{
    if !(0 <= p <= s.len()) {
        None
    } else {
        match parse_term(s, p) {
            None => None,
            Some((f, q)) => if p <= q <= s.len() {
                parse_expr_rest(s, f, q)
            } else {
                None
            },
        }
    }
}

/// The `('+' | '-') term` repetitions after `acc`, folded to the left.
pub open spec fn parse_expr_rest(s: Seq<char>, acc: Formula, q: int) -> Option<(Formula, int)>
    decreases s.len() - q, 0int,
{
    if 0 <= q < s.len() && (s[q] == '+' || s[q] == '-') {
        match parse_term(s, q + 1) {
            None => Some((acc, q)),
            Some((t, q2)) => if q < q2 <= s.len() {
                let next = if s[q] == '+' {
                    Formula::Add(Box::new(acc), Box::new(t))
                } else {
                    Formula::Sub(Box::new(acc), Box::new(t))
                };
                parse_expr_rest(s, next, q2)
            } else {
                None
            },
        }
    } else {
        Some((acc, q))
    }
}

/// `term` at `p`.
pub open spec fn parse_term(s: Seq<char>, p: int) -> Option<(Formula, int)>
    decreases s.len() - p, 1int,
{
    if !(0 <= p <= s.len()) {
        None
    } else {
        match parse_factor(s, p) {
            None => None,
            Some((f, q)) => if p <= q <= s.len() {
                parse_term_rest(s, f, q)
            } else {
                None
            },
        }
    }
}

/// The `('*' | '/') term` repetitions after `acc`.
pub open spec fn parse_term_rest(s: Seq<char>, acc: Formula, q: int) -> Option<(Formula, int)>
    decreases s.len() - q, 0int,
{
    if 0 <= q < s.len() && (s[q] == '*' || s[q] == '/') {
        match parse_term(s, q + 1) {
            None => Some((acc, q)),
            Some((t, q2)) => if q < q2 <= s.len() {
                let next = if s[q] == '*' {
                    Formula::Mul(Box::new(acc), Box::new(t))
                } else {
                    Formula::Div(Box::new(acc), Box::new(t))
                };
                parse_term_rest(s, next, q2)
            } else {
                None
            },
        }
    } else {
        Some((acc, q))
    }
}

/// `factor` at `p`, with the whitespace around it. The alternatives are
/// tried in order: parentheses, a literal, the input token, `log`.
pub open spec fn parse_factor(s: Seq<char>, p: int) -> Option<(Formula, int)>
    decreases s.len() - p, 0int,
{
    if !(0 <= p <= s.len()) {
        None
    } else {
        let a = skip_space(s, p);
        proof {
            lemma_skip_space(s, p);
        }
        let parens = if a < s.len() && s[a] == '(' {
            match parse_expr(s, a + 1) {
                Some((f, q)) => if q < s.len() && s[q] == ')' {
                    Some((f, skip_space(s, q + 1)))
                } else {
                    None
                },
                None => None,
            }
        } else {
            None
        };
        if parens is Some {
            parens
        } else if lex_literal(s, a) is Some {
            let (d, q) = lex_literal(s, a)->Some_0;
            Some((Formula::Const(d), skip_space(s, q)))
        } else if has_token(s, a, input_token()) {
            Some((Formula::Input, skip_space(s, a + 6)))
        } else if has_token(s, a, log_token()) {
            let b = skip_space(s, a + 3);
            proof {
                lemma_skip_space(s, a + 3);
            }
            match parse_factor(s, b) {
                Some((f, q)) => Some((Formula::Log(Box::new(f)), q)),
                None => None,
            }
        } else {
            None
        }
    }
}

/// What reading a whole text gives: the empty text is the constant zero;
/// otherwise one `expr` that spans the text.
pub open spec fn parse_formula(s: Seq<char>) -> Result<Formula, FormulaParseError> {
    if s.len() == 0 {
        Ok(Formula::Const(Decimal::spec_zero()))
    } else {
        match parse_expr(s, 0) {
            None => Err(FormulaParseError::Malformed),
            Some((f, q)) => if q == s.len() {
                Ok(f)
            } else {
                Err(FormulaParseError::Trailing { position: q as usize })
            },
        }
    }
}

} // verus!

verus! {

fn skip_space_at(s: &Vec<char>, p: usize) -> (r: usize)
    requires
        p <= s@.len(),
    ensures
        r as int == skip_space(s@, p as int),
        p <= r <= s@.len(),
{
    let mut i = p;
    while i < s.len() && (s[i] == ' ' || s[i] == '\t' || s[i] == '\r' || s[i] == '\n')
        invariant
            p <= i <= s@.len(),
            skip_space(s@, p as int) == skip_space(s@, i as int),
        decreases s@.len() - i,
    {
        i += 1;
    }
    i
}

fn input_token_at(s: &Vec<char>, p: usize) -> (r: bool)
    requires
        p <= s@.len(),
    ensures
        r == has_token(s@, p as int, input_token()),
{
    let r = s.len() >= 6 && p <= s.len() - 6 && s[p] == '$' && s[p + 1] == 'w' && s[p + 2] == 'e' && s[p + 3]
        == 'r' && s[p + 4] == 't' && s[p + 5] == '$';
    proof {
        if p + 6 <= s@.len() {
            let t = s@.subrange(p as int, p + 6);
            if r {
                assert(t =~= input_token());
            } else {
                assert(t[0] != '$' || t[1] != 'w' || t[2] != 'e' || t[3] != 'r' || t[4] != 't'
                    || t[5] != '$');
            }
        }
    }
    r
}

fn log_token_at(s: &Vec<char>, p: usize) -> (r: bool)
    requires
        p <= s@.len(),
    ensures
        r == has_token(s@, p as int, log_token()),
{
    let r = s.len() >= 3 && p <= s.len() - 3 && s[p] == 'l' && s[p + 1] == 'o' && s[p + 2] == 'g';
    proof {
        if p + 3 <= s@.len() {
            let t = s@.subrange(p as int, p + 3);
            if r {
                assert(t =~= log_token());
            } else {
                assert(t[0] != 'l' || t[1] != 'o' || t[2] != 'g');
            }
        }
    }
    r
}

fn expr_at(s: &Vec<char>, p: usize) -> (r: Option<(Formula, usize)>)
    requires
        p <= s@.len(),
    ensures
        match r {
            Some((f, q)) => parse_expr(s@, p as int) == Some((f, q as int)) && p < q <= s@.len(),
            None => parse_expr(s@, p as int) is None,
        },
    decreases s@.len() - p, 2int,
{
    match term_at(s, p) {
        None => None,
        Some((f, q)) => expr_rest_at(s, f, q),
    }
}

fn expr_rest_at(s: &Vec<char>, acc: Formula, q: usize) -> (r: Option<(Formula, usize)>)
    requires
        0 < q <= s@.len(),
    ensures
        match r {
            Some((f, q2)) => parse_expr_rest(s@, acc, q as int) == Some((f, q2 as int)) && q <= q2
                <= s@.len(),
            None => parse_expr_rest(s@, acc, q as int) is None,
        },
    decreases s@.len() - q, 0int,
{
    if q < s.len() && (s[q] == '+' || s[q] == '-') {
        match term_at(s, q + 1) {
            None => Some((acc, q)),
            Some((t, q2)) => {
                let next = if s[q] == '+' {
                    Formula::Add(Box::new(acc), Box::new(t))
                } else {
                    Formula::Sub(Box::new(acc), Box::new(t))
                };
                expr_rest_at(s, next, q2)
            },
        }
    } else {
        Some((acc, q))
    }
}

fn term_at(s: &Vec<char>, p: usize) -> (r: Option<(Formula, usize)>)
    requires
        p <= s@.len(),
    ensures
        match r {
            Some((f, q)) => parse_term(s@, p as int) == Some((f, q as int)) && p < q <= s@.len(),
            None => parse_term(s@, p as int) is None,
        },
    decreases s@.len() - p, 1int,
{
    match factor_at(s, p) {
        None => None,
        Some((f, q)) => term_rest_at(s, f, q),
    }
}

fn term_rest_at(s: &Vec<char>, acc: Formula, q: usize) -> (r: Option<(Formula, usize)>)
    requires
        0 < q <= s@.len(),
    ensures
        match r {
            Some((f, q2)) => parse_term_rest(s@, acc, q as int) == Some((f, q2 as int)) && q <= q2
                <= s@.len(),
            None => parse_term_rest(s@, acc, q as int) is None,
        },
    decreases s@.len() - q, 0int,
{
    if q < s.len() && (s[q] == '*' || s[q] == '/') {
        match term_at(s, q + 1) {
            None => Some((acc, q)),
            Some((t, q2)) => {
                let next = if s[q] == '*' {
                    Formula::Mul(Box::new(acc), Box::new(t))
                } else {
                    Formula::Div(Box::new(acc), Box::new(t))
                };
                term_rest_at(s, next, q2)
            },
        }
    } else {
        Some((acc, q))
    }
}

fn factor_at(s: &Vec<char>, p: usize) -> (r: Option<(Formula, usize)>)
    requires
        p <= s@.len(),
    ensures
        match r {
            Some((f, q)) => parse_factor(s@, p as int) == Some((f, q as int)) && p < q <= s@.len(),
            None => parse_factor(s@, p as int) is None,
        },
    decreases s@.len() - p, 0int,
{
    let a = skip_space_at(s, p);
    if a < s.len() && s[a] == '(' {
        if let Some((f, q)) = expr_at(s, a + 1) {
            if q < s.len() && s[q] == ')' {
                let e = skip_space_at(s, q + 1);
                return Some((f, e));
            }
        }
    }
    if let Some((d, q)) = lex_literal_at(s, a) {
        let e = skip_space_at(s, q);
        return Some((Formula::Const(d), e));
    }
    if input_token_at(s, a) {
        let e = skip_space_at(s, a + 6);
        return Some((Formula::Input, e));
    }
    if log_token_at(s, a) {
        let b = skip_space_at(s, a + 3);
        return match factor_at(s, b) {
            Some((f, q)) => Some((Formula::Log(Box::new(f)), q)),
            None => None,
        };
    }
    None
}

impl Clone for Formula {
    fn clone(&self) -> (r: Formula)
        ensures
            r == *self,
        decreases self,
    {
        match self {
            Formula::Input => Formula::Input,
            Formula::Const(d) => Formula::Const(*d),
            Formula::Log(f) => Formula::Log(Box::new((**f).clone())),
            Formula::Add(f, g) => Formula::Add(Box::new((**f).clone()), Box::new((**g).clone())),
            Formula::Sub(f, g) => Formula::Sub(Box::new((**f).clone()), Box::new((**g).clone())),
            Formula::Mul(f, g) => Formula::Mul(Box::new((**f).clone()), Box::new((**g).clone())),
            Formula::Div(f, g) => Formula::Div(Box::new((**f).clone()), Box::new((**g).clone())),
        }
    }
}

impl Formula {
    /// Reads a formula; the empty text is the constant zero.
    pub fn try_from(text: &str) -> (r: Result<Formula, FormulaParseError>)
        ensures
            r == parse_formula(text@),
    {
        let s = crate::text::chars_of(text);
        if s.len() == 0 {
            return Ok(Formula::Const(Decimal::zero()));
        }
        match expr_at(&s, 0) {
            None => Err(FormulaParseError::Malformed),
            Some((f, q)) => if q == s.len() {
                Ok(f)
            } else {
                Err(FormulaParseError::Trailing { position: q })
            },
        }
    }
}

} // verus!
