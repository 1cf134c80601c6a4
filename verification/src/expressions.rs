//! Arithmetic expressions of aperture macros.
//!
//! An expression is a byte string built from decimal numbers, variables
//! (`$` and a number), the operators `+`, `-`, `x` (or `X`) and `/`, unary
//! signs and parentheses. `x` and `/` bind tighter than `+` and `-`, and
//! operators of one rank associate to the left. The value is a fixed-point
//! number; all arithmetic saturates.

use std::collections::HashMap;
use vstd::prelude::*;
use vstd::string::StringSliceAdditionalSpecFns;
use crate::commands::{MacroBoolean, MacroDecimal, MacroInteger, MacroPair};
use crate::fixed::{count_of, signed_div, trunc_div, Scalar, ONE};

verus! {

broadcast use {vstd::std_specs::hash::group_hash_axioms, crate::fixed::group_scalar};

/// Why an expression has no value.
#[derive(Debug, Copy, Clone, PartialEq, Eq, Structural)]
pub enum ExpressionEvaluationError {
    /// The expression names a variable that has no value.
    UnknownVariable(u32),
    /// The text is not an expression, or something follows the expression.
    MalformedExpression,
    /// A divisor is zero.
    DivisionByZero,
    /// Variable numbers start at one.
    InvalidVariableNumber,
}

/// The values of the numbered variables of one macro instantiation.
pub struct MacroContext {
    variables: HashMap<u32, Scalar>,
}

impl View for MacroContext {
    type V = Map<u32, Scalar>;

    closed spec fn view(&self) -> Map<u32, Scalar> {
        self.variables@
    }
}

impl MacroContext {
    /// A context in which no variable has a value.
    pub fn new() -> (c: MacroContext)
        ensures
            c@ == Map::<u32, Scalar>::empty(),
    {
        MacroContext { variables: HashMap::new() }
    }

    /// Gives variable `number` the value `value`; variable zero does not exist.
    pub fn put(&mut self, number: u32, value: Scalar) -> (r: Result<(), ExpressionEvaluationError>)
        ensures
            number == 0 ==> r == Err::<(), ExpressionEvaluationError>(
                ExpressionEvaluationError::InvalidVariableNumber,
            ) && final(self)@ == old(self)@,
            number != 0 ==> r is Ok && final(self)@ == old(self)@.insert(number, value),
    {
        if number == 0 {
            return Err(ExpressionEvaluationError::InvalidVariableNumber);
        }
        self.variables.insert(number, value);
        Ok(())
    }

    /// The value of variable `number`; a variable without a value reads as zero.
    pub fn get(&self, number: &u32) -> (v: Scalar)
        ensures
            v == variable_or_zero(self@, *number),
    {
        match self.variables.get(number) {
            Some(v) => *v,
            None => Scalar::zero(),
        }
    }

    /// The value of variable `number`, if it has one.
    pub fn lookup(&self, number: u32) -> (v: Option<Scalar>)
        ensures
            v == (if self@.contains_key(number) {
                Some(self@[number])
            } else {
                None
            }),
    {
        match self.variables.get(&number) {
            Some(v) => Some(*v),
            None => None,
        }
    }
}

/// The value of a variable, zero where it has none.
pub open spec fn variable_or_zero(variables: Map<u32, Scalar>, number: u32) -> Scalar {
    if variables.contains_key(number) {
        variables[number]
    } else {
        Scalar::of(0)
    }
}

/// Whether the byte is a decimal digit.
pub open spec fn is_digit(b: u8) -> bool {
    48 <= b <= 57
}

/// The largest whole part a literal is read up to; beyond it the value saturates anyway.
pub const WHOLE_CAP: i64 = 10_000_000;

/// The whole number written by the digits from `pos` on, continuing from `acc`,
/// and the position after the last digit. The number stops growing at `WHOLE_CAP`.
pub open spec fn whole_digits(s: Seq<u8>, pos: int, acc: int) -> (int, int)
    decreases s.len() - pos,
{
    if 0 <= pos < s.len() && is_digit(s[pos]) {
        let next = acc * 10 + (s[pos] - 48);
        whole_digits(
            s,
            pos + 1,
            if next > WHOLE_CAP {
                WHOLE_CAP as int
            } else {
                next
            },
        )
    } else {
        (acc, pos)
    }
}

/// The millionths written by the fraction digits from `pos` on, continuing
/// from `acc`, and the position after the last digit. `weight` is the worth of
/// the digit at `pos`; digits after the sixth are read and dropped.
pub open spec fn fraction_digits(s: Seq<u8>, pos: int, acc: int, weight: int) -> (int, int)
    decreases s.len() - pos,
{
    if 0 <= pos < s.len() && is_digit(s[pos]) {
        fraction_digits(s, pos + 1, acc + (s[pos] - 48) * weight, weight / 10)
    } else {
        (acc, pos)
    }
}

/// A decimal literal at `pos`: digits, optionally followed by a point and more
/// digits, with at least one digit in all. `None` where there is no literal.
pub open spec fn parse_number(s: Seq<u8>, pos: int) -> Option<(Scalar, int)> {
    let (whole, after_whole) = whole_digits(s, pos, 0);
    if after_whole < s.len() && s[after_whole] == 46 {
        let (fraction, after_fraction) = fraction_digits(s, after_whole + 1, 0, 100_000);
        if after_whole == pos && after_fraction == after_whole + 1 {
            None
        } else {
            Some((Scalar::of(whole * ONE + fraction), after_fraction))
        }
    } else if after_whole == pos {
        None
    } else {
        Some((Scalar::of(whole * ONE), after_whole))
    }
}

/// The variable number written by the digits from `pos` on, continuing from
/// `acc`, and the position after the last digit. The number stops growing at
/// the largest `u32`.
pub open spec fn variable_digits(s: Seq<u8>, pos: int, acc: int) -> (int, int)
    decreases s.len() - pos,
{
    if 0 <= pos < s.len() && is_digit(s[pos]) {
        let next = acc * 10 + (s[pos] - 48);
        variable_digits(
            s,
            pos + 1,
            if next > u32::MAX {
                u32::MAX as int
            } else {
                next
            },
        )
    } else {
        (acc, pos)
    }
}

/// The outcome of reading one syntactic unit: its value and the position after
/// it, or the first error met.
pub type Parsed = Result<(Scalar, int), ExpressionEvaluationError>;

/// The product of two values.
pub open spec fn product(a: Scalar, b: Scalar) -> Scalar {
    Scalar::of(trunc_div(a@ * b@, ONE as int))
}

/// The quotient of two values, the second of which is not zero.
pub open spec fn quotient(a: Scalar, b: Scalar) -> Scalar {
    Scalar::of(signed_div(a@ * ONE, b@))
}

/// A factor at `pos`: a signed factor, a parenthesised expression, a variable
/// or a literal.
pub open spec fn parse_factor(s: Seq<u8>, variables: Map<u32, Scalar>, pos: int) -> Parsed
    decreases s.len() - pos, 0int,
{
    if pos < 0 || pos >= s.len() {
        Err(ExpressionEvaluationError::MalformedExpression)
    } else if s[pos] == 45 {
        match parse_factor(s, variables, pos + 1) {
            Ok((v, next)) => Ok((Scalar::of(-v@), next)),
            Err(e) => Err(e),
        }
    } else if s[pos] == 43 {
        parse_factor(s, variables, pos + 1)
    } else if s[pos] == 40 {
        match parse_sum(s, variables, pos + 1) {
            Ok((v, next)) => if next < s.len() && s[next] == 41 {
                Ok((v, next + 1))
            } else {
                Err(ExpressionEvaluationError::MalformedExpression)
            },
            Err(e) => Err(e),
        }
    } else if s[pos] == 36 {
        let (number, next) = variable_digits(s, pos + 1, 0);
        if next == pos + 1 {
            Err(ExpressionEvaluationError::MalformedExpression)
        } else if variables.contains_key(number as u32) {
            Ok((variables[number as u32], next))
        } else {
            Err(ExpressionEvaluationError::UnknownVariable(number as u32))
        }
    } else {
        match parse_number(s, pos) {
            Some((v, next)) => Ok((v, next)),
            None => Err(ExpressionEvaluationError::MalformedExpression),
        }
    }
}

/// The rest of a product whose value so far is `acc`: any number of `x`, `X`
/// or `/` followed by a factor, applied from left to right.
pub open spec fn parse_product_rest(
    s: Seq<u8>,
    variables: Map<u32, Scalar>,
    pos: int,
    acc: Scalar,
) -> Parsed
    decreases s.len() - pos, 1int,
{
    if 0 <= pos < s.len() && (s[pos] == 120 || s[pos] == 88 || s[pos] == 47) {
        match parse_factor(s, variables, pos + 1) {
            Ok((v, next)) => if next <= pos || next > s.len() {
                Err(ExpressionEvaluationError::MalformedExpression)
            } else if s[pos] == 47 {
                if v@ == 0 {
                    Err(ExpressionEvaluationError::DivisionByZero)
                } else {
                    parse_product_rest(s, variables, next, quotient(acc, v))
                }
            } else {
                parse_product_rest(s, variables, next, product(acc, v))
            },
            Err(e) => Err(e),
        }
    } else {
        Ok((acc, pos))
    }
}

/// A product at `pos`: a factor and the rest of the product.
pub open spec fn parse_product(s: Seq<u8>, variables: Map<u32, Scalar>, pos: int) -> Parsed
    decreases s.len() - pos, 2int,
{
    match parse_factor(s, variables, pos) {
        Ok((v, next)) => if next < pos || next > s.len() {
            Err(ExpressionEvaluationError::MalformedExpression)
        } else {
            parse_product_rest(s, variables, next, v)
        },
        Err(e) => Err(e),
    }
}

/// The rest of a sum whose value so far is `acc`: any number of `+` or `-`
/// followed by a product, applied from left to right.
pub open spec fn parse_sum_rest(s: Seq<u8>, variables: Map<u32, Scalar>, pos: int, acc: Scalar)
    -> Parsed
    decreases s.len() - pos, 3int,
{
    if 0 <= pos < s.len() && (s[pos] == 43 || s[pos] == 45) {
        match parse_product(s, variables, pos + 1) {
            Ok((v, next)) => if next <= pos || next > s.len() {
                Err(ExpressionEvaluationError::MalformedExpression)
            } else if s[pos] == 43 {
                parse_sum_rest(s, variables, next, Scalar::of(acc@ + v@))
            } else {
                parse_sum_rest(s, variables, next, Scalar::of(acc@ - v@))
            },
            Err(e) => Err(e),
        }
    } else {
        Ok((acc, pos))
    }
}

/// A sum at `pos`: a product and the rest of the sum.
pub open spec fn parse_sum(s: Seq<u8>, variables: Map<u32, Scalar>, pos: int) -> Parsed
    decreases s.len() - pos, 4int,
{
    match parse_product(s, variables, pos) {
        Ok((v, next)) => if next < pos || next > s.len() {
            Err(ExpressionEvaluationError::MalformedExpression)
        } else {
            parse_sum_rest(s, variables, next, v)
        },
        Err(e) => Err(e),
    }
}

/// The value of a whole expression: the sum that starts at the first byte and
/// ends with the last.
pub open spec fn evaluate_spec(s: Seq<u8>, variables: Map<u32, Scalar>) -> Result<
    Scalar,
    ExpressionEvaluationError,
> {
    match parse_sum(s, variables, 0) {
        Ok((v, next)) => if next == s.len() {
            Ok(v)
        } else {
            Err(ExpressionEvaluationError::MalformedExpression)
        },
        Err(e) => Err(e),
    }
}

/// Whether an executable parse result is the outcome `expected` of the
/// specification, and a success ends after `pos` and inside the text.
pub open spec fn agrees(
    r: Result<(Scalar, usize), ExpressionEvaluationError>,
    expected: Parsed,
    pos: int,
    len: int,
) -> bool {
    match r {
        Ok((v, next)) => expected == Ok::<(Scalar, int), ExpressionEvaluationError>((v, next as int))
            && pos < next <= len,
        Err(e) => expected == Err::<(Scalar, int), ExpressionEvaluationError>(e),
    }
}

fn whole_digits_exec(s: &[u8], pos: usize) -> (r: (i64, usize))
    requires
        pos <= s.len(),
    ensures
        (r.0 as int, r.1 as int) == whole_digits(s@, pos as int, 0),
        pos <= r.1 <= s.len(),
        0 <= r.0 <= WHOLE_CAP,
{
    let mut acc: i64 = 0;
    let mut p: usize = pos;
    while p < s.len() && s[p] >= 48 && s[p] <= 57
        invariant
            pos <= p <= s.len(),
            0 <= acc <= WHOLE_CAP,
            whole_digits(s@, p as int, acc as int) == whole_digits(s@, pos as int, 0),
        decreases s.len() - p,
    {
        let next: i64 = acc * 10 + (s[p] - 48) as i64;
        acc = if next > WHOLE_CAP {
            WHOLE_CAP
        } else {
            next
        };
        p = p + 1;
    }
    (acc, p)
}

fn fraction_digits_exec(s: &[u8], pos: usize) -> (r: (i64, usize))
    requires
        pos <= s.len(),
    ensures
        (r.0 as int, r.1 as int) == fraction_digits(s@, pos as int, 0, 100_000),
        pos <= r.1 <= s.len(),
        0 <= r.0 < ONE,
{
    let mut acc: i64 = 0;
    let mut weight: i64 = 100_000;
    let mut p: usize = pos;
    while p < s.len() && s[p] >= 48 && s[p] <= 57
        invariant
            pos <= p <= s.len(),
            0 <= weight <= 100_000,
            0 <= acc,
            acc + 10 * weight <= ONE,
            weight == 0 ==> acc < ONE,
            fraction_digits(s@, p as int, acc as int, weight as int) == fraction_digits(
                s@,
                pos as int,
                0,
                100_000,
            ),
        decreases s.len() - p,
    {
        let d: i64 = (s[p] - 48) as i64;
        assert(d * weight <= 9 * weight) by (nonlinear_arith)
            requires
                0 <= d <= 9,
                0 <= weight,
        ;
        assert(d * weight >= 0) by (nonlinear_arith)
            requires
                0 <= d,
                0 <= weight,
        ;
        acc = acc + d * weight;
        weight = weight / 10;
        p = p + 1;
    }
    (acc, p)
}

fn parse_number_exec(s: &[u8], pos: usize) -> (r: Option<(Scalar, usize)>)
    requires
        pos <= s.len(),
    ensures
        match r {
            Some((v, next)) => parse_number(s@, pos as int) == Some((v, next as int)) && pos < next
                <= s.len(),
            None => parse_number(s@, pos as int) is None,
        },
{
    let (whole, after_whole) = whole_digits_exec(s, pos);
    if after_whole < s.len() && s[after_whole] == 46 {
        let (fraction, after_fraction) = fraction_digits_exec(s, after_whole + 1);
        if after_whole == pos && after_fraction == after_whole + 1 {
            None
        } else {
            Some((Scalar::new(whole * ONE + fraction), after_fraction))
        }
    } else if after_whole == pos {
        None
    } else {
        Some((Scalar::new(whole * ONE), after_whole))
    }
}

fn variable_digits_exec(s: &[u8], pos: usize) -> (r: (u32, usize))
    requires
        pos <= s.len(),
    ensures
        (r.0 as int, r.1 as int) == variable_digits(s@, pos as int, 0),
        pos <= r.1 <= s.len(),
{
    let mut acc: u64 = 0;
    let mut p: usize = pos;
    while p < s.len() && s[p] >= 48 && s[p] <= 57
        invariant
            pos <= p <= s.len(),
            0 <= acc <= u32::MAX,
            variable_digits(s@, p as int, acc as int) == variable_digits(s@, pos as int, 0),
        decreases s.len() - p,
    {
        let next: u64 = acc * 10 + (s[p] - 48) as u64;
        acc = if next > 0xffff_ffff {
            0xffff_ffff
        } else {
            next
        };
        p = p + 1;
    }
    (acc as u32, p)
}

fn parse_factor_exec(s: &[u8], context: &MacroContext, pos: usize) -> (r: Result<
    (Scalar, usize),
    ExpressionEvaluationError,
>)
    requires
        pos <= s.len(),
    ensures
        agrees(r, parse_factor(s@, context@, pos as int), pos as int, s.len() as int),
    decreases s.len() - pos, 0int,
{
    if pos >= s.len() {
        return Err(ExpressionEvaluationError::MalformedExpression);
    }
    let b: u8 = s[pos];
    if b == 45 {
        match parse_factor_exec(s, context, pos + 1) {
            Ok((v, next)) => Ok((v.negate(), next)),
            Err(e) => Err(e),
        }
    } else if b == 43 {
        match parse_factor_exec(s, context, pos + 1) {
            Ok((v, next)) => Ok((v, next)),
            Err(e) => Err(e),
        }
    } else if b == 40 {
        match parse_sum_exec(s, context, pos + 1) {
            Ok((v, next)) => {
                if next < s.len() && s[next] == 41 {
                    Ok((v, next + 1))
                } else {
                    Err(ExpressionEvaluationError::MalformedExpression)
                }
            },
            Err(e) => Err(e),
        }
    } else if b == 36 {
        let (number, next) = variable_digits_exec(s, pos + 1);
        if next == pos + 1 {
            Err(ExpressionEvaluationError::MalformedExpression)
        } else {
            match context.lookup(number) {
                Some(v) => Ok((v, next)),
                None => Err(ExpressionEvaluationError::UnknownVariable(number)),
            }
        }
    } else {
        match parse_number_exec(s, pos) {
            Some((v, next)) => Ok((v, next)),
            None => Err(ExpressionEvaluationError::MalformedExpression),
        }
    }
}

fn parse_product_rest_exec(s: &[u8], context: &MacroContext, pos: usize, acc: Scalar) -> (r:
    Result<(Scalar, usize), ExpressionEvaluationError>)
    requires
        pos <= s.len(),
    ensures
        match r {
            Ok((v, next)) => parse_product_rest(s@, context@, pos as int, acc) == Ok::<
                (Scalar, int),
                ExpressionEvaluationError,
            >((v, next as int)) && pos <= next <= s.len(),
            Err(e) => parse_product_rest(s@, context@, pos as int, acc) == Err::<
                (Scalar, int),
                ExpressionEvaluationError,
            >(e),
        },
    decreases s.len() - pos, 1int,
{
    if pos < s.len() && (s[pos] == 120 || s[pos] == 88 || s[pos] == 47) {
        match parse_factor_exec(s, context, pos + 1) {
            Ok((v, next)) => {
                if s[pos] == 47 {
                    match acc.checked_div(v) {
                        None => Err(ExpressionEvaluationError::DivisionByZero),
                        Some(q) => parse_product_rest_exec(s, context, next, q),
                    }
                } else {
                    parse_product_rest_exec(s, context, next, acc.mul(v))
                }
            },
            Err(e) => Err(e),
        }
    } else {
        Ok((acc, pos))
    }
}

fn parse_product_exec(s: &[u8], context: &MacroContext, pos: usize) -> (r: Result<
    (Scalar, usize),
    ExpressionEvaluationError,
>)
    requires
        pos <= s.len(),
    ensures
        agrees(r, parse_product(s@, context@, pos as int), pos as int, s.len() as int),
    decreases s.len() - pos, 2int,
{
    match parse_factor_exec(s, context, pos) {
        Ok((v, next)) => parse_product_rest_exec(s, context, next, v),
        Err(e) => Err(e),
    }
}

fn parse_sum_rest_exec(s: &[u8], context: &MacroContext, pos: usize, acc: Scalar) -> (r: Result<
    (Scalar, usize),
    ExpressionEvaluationError,
>)
    requires
        pos <= s.len(),
    ensures
        match r {
            Ok((v, next)) => parse_sum_rest(s@, context@, pos as int, acc) == Ok::<
                (Scalar, int),
                ExpressionEvaluationError,
            >((v, next as int)) && pos <= next <= s.len(),
            Err(e) => parse_sum_rest(s@, context@, pos as int, acc) == Err::<
                (Scalar, int),
                ExpressionEvaluationError,
            >(e),
        },
    decreases s.len() - pos, 3int,
{
    if pos < s.len() && (s[pos] == 43 || s[pos] == 45) {
        match parse_product_exec(s, context, pos + 1) {
            Ok((v, next)) => {
                if s[pos] == 43 {
                    parse_sum_rest_exec(s, context, next, acc.add(v))
                } else {
                    parse_sum_rest_exec(s, context, next, acc.sub(v))
                }
            },
            Err(e) => Err(e),
        }
    } else {
        Ok((acc, pos))
    }
}

fn parse_sum_exec(s: &[u8], context: &MacroContext, pos: usize) -> (r: Result<
    (Scalar, usize),
    ExpressionEvaluationError,
>)
    requires
        pos <= s.len(),
    ensures
        agrees(r, parse_sum(s@, context@, pos as int), pos as int, s.len() as int),
    decreases s.len() - pos, 4int,
{
    match parse_product_exec(s, context, pos) {
        Ok((v, next)) => parse_sum_rest_exec(s, context, next, v),
        Err(e) => Err(e),
    }
}

/// The value of the expression written in `bytes`, or the first error met
/// while reading it from left to right.
pub fn evaluate_bytes(bytes: &[u8], context: &MacroContext) -> (r: Result<
    Scalar,
    ExpressionEvaluationError,
>)
    ensures
        r == evaluate_spec(bytes@, context@),
{
    match parse_sum_exec(bytes, context, 0) {
        Ok((v, next)) => {
            if next == bytes.len() {
                Ok(v)
            } else {
                Err(ExpressionEvaluationError::MalformedExpression)
            }
        },
        Err(e) => Err(e),
    }
}

/// The value of the expression `expression` under the variables of `context`.
pub fn evaluate_expression(expression: &str, context: &MacroContext) -> (r: Result<
    Scalar,
    ExpressionEvaluationError,
>)
    ensures
        r == evaluate_spec(expression.spec_bytes(), context@),
{
    evaluate_bytes(expression.as_bytes(), context)
}

/// The bytes of a text.
pub open spec fn text_bytes(text: Seq<char>) -> Seq<u8> {
    vstd::utf8::encode_utf8(text)
}

/// The value of a macro number: the literal, the variable (zero where it has
/// no value), or the value of the expression.
pub open spec fn decimal_value(d: MacroDecimal, variables: Map<u32, Scalar>) -> Result<
    Scalar,
    ExpressionEvaluationError,
> {
    match d {
        MacroDecimal::Value(v) => Ok(v),
        MacroDecimal::Variable(n) => Ok(variable_or_zero(variables, n)),
        MacroDecimal::Expression(e) => evaluate_spec(text_bytes(e@), variables),
    }
}

/// The values of a pair of macro numbers, the first evaluated first.
pub open spec fn pair_value(p: MacroPair, variables: Map<u32, Scalar>) -> Result<
    (Scalar, Scalar),
    ExpressionEvaluationError,
> {
    match decimal_value(p.x, variables) {
        Err(e) => Err(e),
        Ok(x) => match decimal_value(p.y, variables) {
            Err(e) => Err(e),
            Ok(y) => Ok((x, y)),
        },
    }
}

/// The value of a macro truth value: a number stands for true when it is not zero.
pub open spec fn boolean_value(b: MacroBoolean, variables: Map<u32, Scalar>) -> Result<
    bool,
    ExpressionEvaluationError,
> {
    match b {
        MacroBoolean::Value(v) => Ok(v),
        MacroBoolean::Variable(n) => Ok(variable_or_zero(variables, n)@ != 0),
        MacroBoolean::Expression(e) => match evaluate_spec(text_bytes(e@), variables) {
            Ok(v) => Ok(v@ != 0),
            Err(e) => Err(e),
        },
    }
}

/// The value of a macro count: the whole part of a number, zero for a negative one.
pub open spec fn integer_value(i: MacroInteger, variables: Map<u32, Scalar>) -> Result<
    u32,
    ExpressionEvaluationError,
> {
    match i {
        MacroInteger::Value(v) => Ok(v),
        MacroInteger::Variable(n) => Ok(count_of(variable_or_zero(variables, n)@) as u32),
        MacroInteger::Expression(e) => match evaluate_spec(text_bytes(e@), variables) {
            Ok(v) => Ok(count_of(v@) as u32),
            Err(e) => Err(e),
        },
    }
}

/// The value of a macro number under the variables of `context`.
pub fn macro_decimal_to_scalar(d: &MacroDecimal, context: &MacroContext) -> (r: Result<
    Scalar,
    ExpressionEvaluationError,
>)
    ensures
        r == decimal_value(*d, context@),
{
    match d {
        MacroDecimal::Value(v) => Ok(*v),
        MacroDecimal::Variable(n) => Ok(context.get(n)),
        MacroDecimal::Expression(e) => evaluate_expression(e.as_str(), context),
    }
}

/// The values of a pair of macro numbers under the variables of `context`.
pub fn macro_decimal_pair_to_scalars(p: &MacroPair, context: &MacroContext) -> (r: Result<
    (Scalar, Scalar),
    ExpressionEvaluationError,
>)
    ensures
        r == pair_value(*p, context@),
{
    match macro_decimal_to_scalar(&p.x, context) {
        Err(e) => Err(e),
        Ok(x) => match macro_decimal_to_scalar(&p.y, context) {
            Err(e) => Err(e),
            Ok(y) => Ok((x, y)),
        },
    }
}

/// The value of a macro truth value under the variables of `context`.
pub fn macro_boolean_to_bool(b: &MacroBoolean, context: &MacroContext) -> (r: Result<
    bool,
    ExpressionEvaluationError,
>)
    ensures
        r == boolean_value(*b, context@),
{
    match b {
        MacroBoolean::Value(v) => Ok(*v),
        MacroBoolean::Variable(n) => Ok(!context.get(n).is_zero()),
        MacroBoolean::Expression(e) => match evaluate_expression(e.as_str(), context) {
            Ok(v) => Ok(!v.is_zero()),
            Err(e) => Err(e),
        },
    }
}

/// The value of a macro count under the variables of `context`.
pub fn macro_integer_to_u32(i: &MacroInteger, context: &MacroContext) -> (r: Result<
    u32,
    ExpressionEvaluationError,
>)
    ensures
        r == integer_value(*i, context@),
{
    match i {
        MacroInteger::Value(v) => Ok(*v),
        MacroInteger::Variable(n) => Ok(context.get(n).to_count()),
        MacroInteger::Expression(e) => match evaluate_expression(e.as_str(), context) {
            Ok(v) => Ok(v.to_count()),
            Err(e) => Err(e),
        },
    }
}

} // verus!
