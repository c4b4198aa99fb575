//! The numeric filter: `<operator><number>` against an integer header field.
//!
//! The operand is kept as the exact decimal number written in the predicate
//! (a mantissa and a power-of-ten scale), so evaluation compares the header
//! value and the operand as exact rationals: `value <op> m/10^k` holds
//! exactly when `value * 10^k <op> m`.

use vstd::prelude::*;
use vstd::string::*;

use crate::FilterError;
use crate::header::MyHeader;
use crate::operator::{op_cmp, parse_op_spec, parse_operator, Operator};

verus! {

pub open spec fn is_digit(c: char) -> bool {
    ('0' as u32) <= (c as u32) && (c as u32) <= ('9' as u32)
}

pub open spec fn digit_val(c: char) -> nat {
    ((c as u32) - ('0' as u32)) as nat
}

pub open spec fn all_digits(s: Seq<char>) -> bool {
    forall|i: int| 0 <= i < s.len() ==> is_digit(#[trigger] s[i])
}

/// The number written by a sequence of decimal digits, most significant
/// first.
pub open spec fn digits_val(s: Seq<char>) -> nat
    decreases s.len(),
{
    if s.len() == 0 {
        0
    } else {
        digits_val(s.drop_last()) * 10 + digit_val(s.last())
    }
}

pub open spec fn pow10(k: nat) -> nat
    decreases k,
{
    if k == 0 {
        1
    } else {
        10 * pow10((k - 1) as nat)
    }
}

/// The index of the first `'.'` in `s`, or `s.len()` when there is none.
pub open spec fn find_dot(s: Seq<char>) -> int
    decreases s.len(),
{
    if s.len() == 0 {
        0
    } else if s[0] == '.' {
        0
    } else {
        1 + find_dot(s.skip(1))
    }
}

proof fn lemma_find_dot(s: Seq<char>, i: int)
    requires
        0 <= i <= s.len(),
        forall|j: int| 0 <= j < i ==> s[j] != '.',
        i == s.len() || s[i] == '.',
    ensures
        find_dot(s) == i,
    decreases s.len(),
{
    if s.len() != 0 && s[0] != '.' {
        assert forall|j: int| 0 <= j < i - 1 implies s.skip(1)[j] != '.' by {
            assert(s[j + 1] != '.');
        }
        lemma_find_dot(s.skip(1), i - 1);
    }
}

proof fn lemma_digits_val_bound(s: Seq<char>)
    requires
        all_digits(s),
    ensures
        digits_val(s) < pow10(s.len() as nat),
    decreases s.len(),
{
    if s.len() != 0 {
        assert(is_digit(s.last()));
        assert forall|j: int| 0 <= j < s.drop_last().len() implies is_digit(
            #[trigger] s.drop_last()[j],
        ) by {
            assert(is_digit(s[j]));
        }
        lemma_digits_val_bound(s.drop_last());
        assert(pow10(s.len() as nat) == 10 * pow10((s.len() - 1) as nat));
    }
}

proof fn lemma_pow10_mono(a: nat, b: nat)
    requires
        a <= b,
    ensures
        pow10(a) <= pow10(b),
    decreases b,
{
    if a < b {
        lemma_pow10_mono(a, (b - 1) as nat);
        assert(pow10((b - 1) as nat) <= 10 * pow10((b - 1) as nat));
    }
}

proof fn lemma_pow10_add(a: nat, b: nat)
    ensures
        pow10(a + b) == pow10(a) * pow10(b),
    decreases a,
{
    if a == 0 {
        assert(a + b == b);
        assert(pow10(a) == 1);
        assert(pow10(a) * pow10(b) == pow10(b)) by (nonlinear_arith)
            requires
                pow10(a) == 1,
        ;
    } else {
        lemma_pow10_add((a - 1) as nat, b);
        let x = pow10((a - 1) as nat);
        let y = pow10(b);
        assert(pow10(a + b) == 10 * pow10((a - 1) as nat + b));
        assert(pow10(a + b) == 10 * (x * y));
        assert(pow10(a) == 10 * x);
        assert((10 * x) * y == 10 * (x * y)) by (nonlinear_arith);
        assert(pow10(a) * pow10(b) == (10 * x) * y);
    }
}

proof fn lemma_pow10_consts()
    ensures
        pow10(19) == 10000000000000000000,
        pow10(30) == 1000000000000000000000000000000,
        pow10(31) == 10000000000000000000000000000000,
{
    reveal_with_fuel(pow10, 32);
}

proof fn lemma_mul_le(a: nat, a2: nat, b: nat, b2: nat)
    requires
        a <= a2,
        b <= b2,
    ensures
        a * b <= a2 * b2,
{
    assert(a * b <= a2 * b2) by (nonlinear_arith)
        requires
            a <= a2,
            b <= b2,
    ;
}

/// An exact, non-negative decimal number: `mantissa / 10^scale`.
#[derive(Clone, Copy, Debug, PartialEq, Eq, Structural)]
pub struct Decimal {
    pub mantissa: u128,
    pub scale: u32,
}

/// The digits of `s` read as a decimal number: the mantissa (all digits)
/// and the scale (how many digits follow the dot).  `None` when `s` is not
/// digits with at most one dot and at least one digit.
pub open spec fn dec_spec(s: Seq<char>) -> Option<(nat, nat)> {
    let i = find_dot(s);
    if i == s.len() {
        if s.len() > 0 && all_digits(s) {
            Some((digits_val(s), 0))
        } else {
            None
        }
    } else {
        let ip = s.subrange(0, i);
        let fp = s.subrange(i + 1, s.len() as int);
        if ip.len() + fp.len() > 0 && all_digits(ip) && all_digits(fp) {
            Some((digits_val(ip) * pow10(fp.len() as nat) + digits_val(fp), fp.len() as nat))
        } else {
            None
        }
    }
}

/// Whether the number written in `s` fits this library's exact
/// representation: at most 30 digits, at most 19 of them after the dot.
pub open spec fn dec_fits(s: Seq<char>) -> bool {
    let i = find_dot(s);
    if i == s.len() {
        s.len() <= 30
    } else {
        s.len() <= 31 && s.len() - i - 1 <= 19
    }
}

pub open spec fn dec_parse_spec(s: Seq<char>) -> Result<Decimal, FilterError> {
    match dec_spec(s) {
        Some(p) => if dec_fits(s) {
            Ok((Decimal { mantissa: p.0 as u128, scale: p.1 as u32 }))
        } else {
            Err(FilterError::MalformedPredicate)
        },
        None => Err(FilterError::MalformedPredicate),
    }
}

fn find_dot_exec(s: &str) -> (r: usize)
    ensures
        r == find_dot(s@),
        r <= s@.len(),
{
    let n = s.unicode_len();
    let mut i: usize = 0;
    while i < n
        invariant
            i <= n,
            n == s@.len(),
            forall|j: int| 0 <= j < i ==> s@[j] != '.',
        decreases n - i,
    {
        if s.get_char(i) == '.' {
            proof {
                lemma_find_dot(s@, i as int);
            }
            return i;
        }
        i += 1;
    }
    proof {
        lemma_find_dot(s@, n as int);
    }
    n
}

/// Reads the digits of `s` between `from` and `to` as a number; `None` when
/// a character there is no digit.
fn parse_digits(s: &str, from: usize, to: usize) -> (r: Option<u128>)
    requires
        from <= to,
        to <= s@.len(),
        to - from <= 31,
    ensures
        match r {
            Some(v) => all_digits(s@.subrange(from as int, to as int)) && v as nat == digits_val(
                s@.subrange(from as int, to as int),
            ),
            None => !all_digits(s@.subrange(from as int, to as int)),
        },
{
    let mut acc: u128 = 0;
    let mut i = from;
    while i < to
        invariant
            from <= i <= to,
            to <= s@.len(),
            to - from <= 31,
            all_digits(s@.subrange(from as int, i as int)),
            acc as nat == digits_val(s@.subrange(from as int, i as int)),
        decreases to - i,
    {
        let c = s.get_char(i);
        let cv = c as u32;
        if cv < 48 || cv > 57 {
            proof {
                assert(s@.subrange(from as int, to as int)[i - from] == s@[i as int]);
            }
            return None;
        }
        let d = (cv - 48) as u128;
        proof {
            let pre = s@.subrange(from as int, i as int);
            let ext = s@.subrange(from as int, i + 1 as int);
            assert(ext.drop_last() =~= pre);
            assert(ext.last() == s@[i as int]);
            lemma_digits_val_bound(pre);
            lemma_pow10_mono(pre.len() as nat, 30);
            lemma_pow10_consts();
            assert(pow10(31) == 10 * pow10(30));
            assert forall|j: int| 0 <= j < ext.len() implies is_digit(#[trigger] ext[j]) by {
                if j < i - from {
                    assert(is_digit(pre[j]));
                }
            }
        }
        acc = acc * 10 + d;
        i += 1;
    }
    proof {
        assert(s@.subrange(from as int, i as int) =~= s@.subrange(from as int, to as int));
    }
    Some(acc)
}

fn pow10_exec(k: u32) -> (r: u128)
    requires
        k <= 19,
    ensures
        r as nat == pow10(k as nat),
{
    let mut r: u128 = 1;
    let mut i: u32 = 0;
    while i < k
        invariant
            i <= k,
            k <= 19,
            r as nat == pow10(i as nat),
        decreases k - i,
    {
        proof {
            lemma_pow10_mono(i as nat + 1, 19);
            lemma_pow10_consts();
            assert(pow10(i as nat + 1) == 10 * pow10(i as nat));
        }
        r = r * 10;
        i += 1;
    }
    r
}

/// Reads `s` as an exact decimal number.  Fails when `s` is not digits with
/// at most one dot and at least one digit, or does not fit the
/// representation (more than 30 digits, or more than 19 after the dot).
pub fn parse_decimal(s: &str) -> (r: Result<Decimal, FilterError>)
    ensures
        r == dec_parse_spec(s@),
{
    let n = s.unicode_len();
    let dot = find_dot_exec(s);
    if dot == n {
        if n == 0 || n > 30 {
            return Err(FilterError::MalformedPredicate);
        }
        match parse_digits(s, 0, n) {
            Some(v) => {
                proof {
                    assert(s@.subrange(0, n as int) =~= s@);
                    lemma_digits_val_bound(s@);
                }
                Ok(Decimal { mantissa: v, scale: 0 })
            },
            None => {
                proof {
                    assert(s@.subrange(0, n as int) =~= s@);
                }
                Err(FilterError::MalformedPredicate)
            },
        }
    } else {
        let fp_len = n - dot - 1;
        if n == 1 || n > 31 || fp_len > 19 {
            return Err(FilterError::MalformedPredicate);
        }
        match parse_digits(s, 0, dot) {
            None => Err(FilterError::MalformedPredicate),
            Some(m1) => match parse_digits(s, dot + 1, n) {
                None => Err(FilterError::MalformedPredicate),
                Some(m2) => {
                    let p = pow10_exec(fp_len as u32);
                    proof {
                        let ip = s@.subrange(0, dot as int);
                        let fp = s@.subrange(dot + 1 as int, n as int);
                        lemma_digits_val_bound(ip);
                        lemma_digits_val_bound(fp);
                        lemma_pow10_add(ip.len() as nat, fp.len() as nat);
                        lemma_mul_le(m1 as nat, (pow10(ip.len() as nat) - 1) as nat, p as nat, p as nat);
                        lemma_pow10_mono((ip.len() + fp.len()) as nat, 30);
                        lemma_pow10_consts();
                        assert((pow10(ip.len() as nat) - 1) * pow10(fp.len() as nat) == pow10(
                            ip.len() as nat,
                        ) * pow10(fp.len() as nat) - pow10(fp.len() as nat)) by (nonlinear_arith);
                    }
                    Ok(Decimal { mantissa: m1 * p + m2, scale: fp_len as u32 })
                },
            },
        }
    }
}

proof fn lemma_dec_ten(rest: Seq<char>)
    requires
        rest == seq!['1', '0', '.', '0'],
    ensures
        dec_spec(rest) == Some((100 as nat, 1 as nat)),
        dec_fits(rest),
{
    lemma_find_dot(rest, 2);
    let ip = rest.subrange(0, 2);
    let fp = rest.subrange(3, 4);
    assert(ip =~= seq!['1', '0']);
    assert(fp =~= seq!['0']);
    assert(digit_val('1') == 1);
    assert(digit_val('0') == 0);
    assert(seq!['1', '0'].drop_last() =~= seq!['1']);
    assert(seq!['1'].drop_last() =~= Seq::<char>::empty());
    assert(seq!['0'].drop_last() =~= Seq::<char>::empty());
    assert(digits_val(Seq::<char>::empty()) == 0);
    assert(digits_val(seq!['1']) == 1);
    assert(digits_val(seq!['1', '0']) == 10);
    assert(digits_val(seq!['0']) == 0);
    assert forall|j: int| 0 <= j < ip.len() implies is_digit(#[trigger] ip[j]) by {
        if j == 0 {
            assert(ip[j] == '1');
        } else {
            assert(ip[j] == '0');
        }
    }
    assert forall|j: int| 0 <= j < fp.len() implies is_digit(#[trigger] fp[j]) by {
        assert(fp[j] == '0');
    }
    assert(pow10(0) == 1);
    assert(pow10(1) == 10);
    assert(find_dot(rest) == 2);
    assert(all_digits(ip));
    assert(all_digits(fp));
    assert(digits_val(ip) == 10);
    assert(digits_val(fp) == 0);
    assert(fp.len() == 1);
    assert(dec_spec(rest) is Some);
    assert((dec_spec(rest)->0).0 == 100);
    assert((dec_spec(rest)->0).1 == 1);
    assert(dec_spec(rest)->0 =~= (100 as nat, 1 as nat));
    assert(dec_spec(rest) == Some((100 as nat, 1 as nat)));
}

/// The point-count predicate `"<10.0"` passes exactly the snapshots with
/// fewer than ten points, and `"<=10.0"` also passes the boundary itself:
/// the operand is compared as the exact number ten, whatever snapshot the
/// filter meets.
pub proof fn lemma_point_count_under_ten(h: MyHeader)
    ensures
        match numeric_new_spec("<10.0"@, "number_of_points"@) {
            Ok(f) => numeric_eval(f, h) <==> h.number_of_points < 10,
            Err(_) => false,
        },
        match numeric_new_spec("<=10.0"@, "number_of_points"@) {
            Ok(f) => numeric_eval(f, h) <==> h.number_of_points <= 10,
            Err(_) => false,
        },
{
    reveal_strlit("<10.0");
    reveal_strlit("<=10.0");
    let s1 = "<10.0"@;
    let s2 = "<=10.0"@;
    assert(s1.skip(1) =~= seq!['1', '0', '.', '0']);
    assert(s2.skip(2) =~= seq!['1', '0', '.', '0']);
    lemma_dec_ten(s1.skip(1));
    lemma_dec_ten(s2.skip(2));
    assert(pow10(0) == 1);
    assert(pow10(1) == 10);
}

/// Which integer header field a numeric filter tests.
#[derive(Clone, Copy, Debug, PartialEq, Eq, Structural)]
pub enum NumericAttribute {
    FileSourceId,
    NumberOfPoints,
}

pub open spec fn numeric_attr_of(s: Seq<char>) -> Option<NumericAttribute> {
    if s == "number_of_points"@ {
        Some(NumericAttribute::NumberOfPoints)
    } else if s == "file_source_id"@ {
        Some(NumericAttribute::FileSourceId)
    } else {
        None
    }
}

/// A filter comparing an integer header field against a decimal operand.
#[derive(Clone, Copy, Debug, PartialEq, Eq, Structural)]
pub struct NumericFilter {
    pub operator: Operator,
    pub header_attribute: NumericAttribute,
    pub value: Decimal,
}

/// `<operator><number>`: the numeric predicate grammar.
pub open spec fn numeric_predicate_spec(s: Seq<char>) -> Result<(Operator, Decimal), FilterError> {
    match parse_op_spec(s) {
        None => Err(FilterError::MalformedPredicate),
        Some(p) => match dec_parse_spec(p.1) {
            Err(e) => Err(e),
            Ok(d) => Ok((p.0, d)),
        },
    }
}

/// Splits a numeric predicate string into its operator and its exact
/// decimal operand.
pub fn parse_numeric_predicate(s: &str) -> (r: Result<(Operator, Decimal), FilterError>)
    ensures
        r == numeric_predicate_spec(s@),
{
    match parse_operator(s) {
        Err(e) => Err(e),
        Ok((op, rest)) => match parse_decimal(rest) {
            Err(e) => Err(e),
            Ok(d) => Ok((op, d)),
        },
    }
}

pub open spec fn numeric_new_spec(s: Seq<char>, attr: Seq<char>) -> Result<
    NumericFilter,
    FilterError,
> {
    match numeric_attr_of(attr) {
        None => Err(FilterError::UnknownAttribute),
        Some(a) => match numeric_predicate_spec(s) {
            Err(e) => Err(e),
            Ok(p) => Ok((NumericFilter { operator: p.0, header_attribute: a, value: p.1 })),
        },
    }
}

pub open spec fn numeric_attr_value(a: NumericAttribute, h: MyHeader) -> int {
    match a {
        NumericAttribute::NumberOfPoints => h.number_of_points as int,
        NumericAttribute::FileSourceId => h.file_source_id as int,
    }
}

/// Whether the header value satisfies `value <op> operand`, comparing the
/// exact rationals `value` and `mantissa / 10^scale`.  A scale beyond 19
/// cannot arise from parsing; a filter holding one evaluates to `false`.
pub open spec fn numeric_eval(f: NumericFilter, h: MyHeader) -> bool {
    f.value.scale <= 19 && op_cmp(
        f.operator,
        numeric_attr_value(f.header_attribute, h) * pow10(f.value.scale as nat),
        f.value.mantissa as int,
    )
}

impl NumericFilter {
    /// Builds the filter from a predicate string (`"<op><number>"`) and the
    /// name of the header attribute it tests.
    pub fn new(input_string: &String, attribute_name: &String) -> (r: Result<
        NumericFilter,
        FilterError,
    >)
        ensures
            r == numeric_new_spec(input_string@, attribute_name@),
    {
        let number_of_points = "number_of_points".to_owned();
        let file_source_id = "file_source_id".to_owned();
        let attr = if *attribute_name == number_of_points {
            NumericAttribute::NumberOfPoints
        } else if *attribute_name == file_source_id {
            NumericAttribute::FileSourceId
        } else {
            return Err(FilterError::UnknownAttribute);
        };
        match parse_numeric_predicate(input_string.as_str()) {
            Err(e) => Err(e),
            Ok((op, d)) => Ok(NumericFilter { operator: op, header_attribute: attr, value: d }),
        }
    }

    /// Whether the snapshot's attribute value satisfies
    /// `value <operator> operand`.
    pub fn compare(&self, header: &MyHeader) -> (r: bool)
        ensures
            r == numeric_eval(*self, *header),
    {
        if self.value.scale > 19 {
            return false;
        }
        let v: u64 = match self.header_attribute {
            NumericAttribute::NumberOfPoints => header.number_of_points,
            NumericAttribute::FileSourceId => header.file_source_id as u64,
        };
        let p = pow10_exec(self.value.scale);
        proof {
            lemma_pow10_mono(self.value.scale as nat, 19);
            lemma_mul_le(v as nat, u64::MAX as nat, p as nat, pow10(19));
            lemma_pow10_consts();
            assert((u64::MAX as nat) * pow10(19) < u128::MAX as nat);
        }
        let lhs: u128 = (v as u128) * p;
        let rhs: u128 = self.value.mantissa;
        match self.operator {
            Operator::Equal => lhs == rhs,
            Operator::NotEqual => lhs != rhs,
            Operator::Less => lhs < rhs,
            Operator::Greater => lhs > rhs,
            Operator::LessEq => lhs <= rhs,
            Operator::GreaterEq => lhs >= rhs,
        }
    }
}

} // verus!
