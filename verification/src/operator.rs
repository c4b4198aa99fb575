//! The comparison-operator grammar shared by the ordered filters.
//!
//! A predicate string starts with one of the six comparison operators; the
//! rest of the string is the operand.  The two-character operators are
//! recognized before their one-character prefixes, so `"<=10"` reads as
//! `LessEq` applied to `"10"`, never as `Less` applied to `"=10"`.

use vstd::prelude::*;
use vstd::string::*;

use crate::FilterError;

verus! {

/// One of the six comparison operators a predicate string may start with.
#[derive(Clone, Copy, Debug, PartialEq, Eq, Structural)]
pub enum Operator {
    Equal,
    NotEqual,
    Less,
    Greater,
    LessEq,
    GreaterEq,
}

/// The token that introduces `op` in a predicate string.
pub open spec fn op_token(op: Operator) -> Seq<char> {
    match op {
        Operator::Equal => "="@,
        Operator::NotEqual => "!="@,
        Operator::Less => "<"@,
        Operator::Greater => ">"@,
        Operator::LessEq => "<="@,
        Operator::GreaterEq => ">="@,
    }
}

/// `a op b`, with the header's value on the left: `Greater` holds when the
/// header's value exceeds the operand.
pub open spec fn op_cmp(op: Operator, a: int, b: int) -> bool {
    match op {
        Operator::Equal => a == b,
        Operator::NotEqual => a != b,
        Operator::Less => a < b,
        Operator::Greater => a > b,
        Operator::LessEq => a <= b,
        Operator::GreaterEq => a >= b,
    }
}

/// Splits a predicate string into its leading operator and the operand that
/// follows it; `None` when no operator starts the string.
pub open spec fn parse_op_spec(s: Seq<char>) -> Option<(Operator, Seq<char>)> {
    if s.len() >= 2 && s[0] == '<' && s[1] == '=' {
        Some((Operator::LessEq, s.skip(2)))
    } else if s.len() >= 2 && s[0] == '>' && s[1] == '=' {
        Some((Operator::GreaterEq, s.skip(2)))
    } else if s.len() >= 2 && s[0] == '!' && s[1] == '=' {
        Some((Operator::NotEqual, s.skip(2)))
    } else if s.len() >= 1 && s[0] == '=' {
        Some((Operator::Equal, s.skip(1)))
    } else if s.len() >= 1 && s[0] == '<' {
        Some((Operator::Less, s.skip(1)))
    } else if s.len() >= 1 && s[0] == '>' {
        Some((Operator::Greater, s.skip(1)))
    } else {
        None
    }
}

/// Reads the leading comparison operator of `s` and returns it with the
/// remaining operand text; fails when `s` starts with no operator.
pub fn parse_operator<'a>(s: &'a str) -> (r: Result<(Operator, &'a str), FilterError>)
    ensures
        match r {
            Ok(p) => parse_op_spec(s@) == Some((p.0, p.1@)),
            Err(e) => parse_op_spec(s@) is None && e == FilterError::MalformedPredicate,
        },
{
    let n = s.unicode_len();
    if n >= 2 {
        let c0 = s.get_char(0);
        let c1 = s.get_char(1);
        if c1 == '=' {
            if c0 == '<' {
                return Ok((Operator::LessEq, s.substring_char(2, n)));
            }
            if c0 == '>' {
                return Ok((Operator::GreaterEq, s.substring_char(2, n)));
            }
            if c0 == '!' {
                return Ok((Operator::NotEqual, s.substring_char(2, n)));
            }
        }
    }
    if n >= 1 {
        let c0 = s.get_char(0);
        if c0 == '=' {
            return Ok((Operator::Equal, s.substring_char(1, n)));
        }
        if c0 == '<' {
            return Ok((Operator::Less, s.substring_char(1, n)));
        }
        if c0 == '>' {
            return Ok((Operator::Greater, s.substring_char(1, n)));
        }
    }
    Err(FilterError::MalformedPredicate)
}

/// Every operator token followed by an operand parses back to that operator
/// and that operand, as long as the operand does not begin with `'='` (an
/// operand such as `"=1"` after `"<"` would instead read as `"<="` and
/// `"1"`).
pub proof fn lemma_operator_round_trip(op: Operator, rest: Seq<char>)
    requires
        rest.len() == 0 || rest[0] != '=',
    ensures
        parse_op_spec(op_token(op) + rest) == Some((op, rest)),
{
    let s = op_token(op) + rest;
    match op {
        Operator::Equal => {
            reveal_strlit("=");
            assert(s.skip(1) =~= rest);
        },
        Operator::NotEqual => {
            reveal_strlit("!=");
            assert(s.skip(2) =~= rest);
        },
        Operator::Less => {
            reveal_strlit("<");
            assert(s.skip(1) =~= rest);
        },
        Operator::Greater => {
            reveal_strlit(">");
            assert(s.skip(1) =~= rest);
        },
        Operator::LessEq => {
            reveal_strlit("<=");
            assert(s.skip(2) =~= rest);
        },
        Operator::GreaterEq => {
            reveal_strlit(">=");
            assert(s.skip(2) =~= rest);
        },
    }
}

/// A string whose first character is none of `'='`, `'<'`, `'>'`, `'!'` —
/// in particular any string of letters — holds no leading operator.
pub proof fn lemma_no_leading_operator(s: Seq<char>)
    requires
        s.len() == 0 || (s[0] != '=' && s[0] != '<' && s[0] != '>' && s[0] != '!'),
    ensures
        parse_op_spec(s) is None,
{
}

} // verus!
