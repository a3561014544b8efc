//! The arithmetic of the sample domain.
//!
//! A sample is carried as the bit pattern of an IEEE-754 binary64 number. The
//! filters never compute on such a pattern themselves: every operation is
//! written as an [`Op`] and handed to an evaluator that the caller supplies.
//! Contracts speak of a *model*, a mathematical function from operations to
//! samples, and hold for every model that the evaluator computes.
use vstd::prelude::*;

verus! {

/// One instant of signal: the bit pattern of an IEEE-754 binary64 number.
pub type Sample = u64;

/// The bit pattern of positive zero.
pub const ZERO: Sample = 0;

/// The largest bit pattern of a number that is greater than zero (positive infinity).
pub const POSITIVE_MAX: Sample = 0x7ff0_0000_0000_0000;

/// One primitive operation on samples.
#[derive(Clone, Copy, Debug)]
pub enum Op {
    /// The sample nearest to a natural number.
    Nat(u64),
    /// The sample nearest to the circle constant.
    Pi,
    /// The negative of a sample.
    Neg(Sample),
    /// The sine of an angle in radians.
    Sin(Sample),
    /// The cosine of an angle in radians.
    Cos(Sample),
    /// The tangent of an angle in radians.
    Tan(Sample),
    /// The exponential function.
    Exp(Sample),
    /// The square root.
    Sqrt(Sample),
    /// The sum of two samples.
    Add(Sample, Sample),
    /// The first sample less the second.
    Sub(Sample, Sample),
    /// The product of two samples.
    Mul(Sample, Sample),
    /// The first sample divided by the second.
    Div(Sample, Sample),
    /// The first sample raised to the power of the second.
    Pow(Sample, Sample),
}

/// A mathematical function from operations to their results.
pub type Model = spec_fn(Op) -> Sample;

/// The evaluator may be called on every operation.
pub open spec fn accepts_all<A: Fn(Op) -> Sample>(arith: &A) -> bool {
    forall|op: Op| call_requires(arith, (op,))
}

/// Whatever the evaluator returns for an operation is what the model gives for it.
pub open spec fn computes<A: Fn(Op) -> Sample>(arith: &A, m: Model) -> bool {
    forall|op: Op, r: Sample| call_ensures(arith, (op,), r) ==> r == m(op)
}

/// The sample nearest to the natural number `n`.
pub open spec fn natural(m: Model, n: u64) -> Sample {
    m(Op::Nat(n))
}

/// The sample nearest to the circle constant.
pub open spec fn pi(m: Model) -> Sample {
    m(Op::Pi)
}

/// `-a`.
pub open spec fn negation(m: Model, a: Sample) -> Sample {
    m(Op::Neg(a))
}

/// `sin(a)`.
pub open spec fn sine(m: Model, a: Sample) -> Sample {
    m(Op::Sin(a))
}

/// `cos(a)`.
pub open spec fn cosine(m: Model, a: Sample) -> Sample {
    m(Op::Cos(a))
}

/// `tan(a)`.
pub open spec fn tangent(m: Model, a: Sample) -> Sample {
    m(Op::Tan(a))
}

/// `exp(a)`.
pub open spec fn exponential(m: Model, a: Sample) -> Sample {
    m(Op::Exp(a))
}

/// `sqrt(a)`.
pub open spec fn square_root(m: Model, a: Sample) -> Sample {
    m(Op::Sqrt(a))
}

/// `a + b`.
pub open spec fn sum(m: Model, a: Sample, b: Sample) -> Sample {
    m(Op::Add(a, b))
}

/// `a - b`.
pub open spec fn difference(m: Model, a: Sample, b: Sample) -> Sample {
    m(Op::Sub(a, b))
}

/// `a * b`.
pub open spec fn product(m: Model, a: Sample, b: Sample) -> Sample {
    m(Op::Mul(a, b))
}

/// `a / b`.
pub open spec fn quotient(m: Model, a: Sample, b: Sample) -> Sample {
    m(Op::Div(a, b))
}

/// `a` raised to the power `b`.
pub open spec fn power(m: Model, a: Sample, b: Sample) -> Sample {
    m(Op::Pow(a, b))
}

/// Twice the circle constant, as `2 * pi`.
pub open spec fn two_pi(m: Model) -> Sample {
    product(m, natural(m, 2), pi(m))
}

/// The normalised angular frequency `2 * pi * fc / fs`.
pub open spec fn angular(m: Model, fc: Sample, fs: Sample) -> Sample {
    quotient(m, product(m, two_pi(m), fc), fs)
}

/// The pattern stands for a number greater than zero: the sign bit is clear,
/// the pattern is not zero and it is no NaN.
pub open spec fn is_positive(s: Sample) -> bool {
    0 < s <= POSITIVE_MAX
}

/// Hands one operation to the evaluator.
pub fn evaluate<A: Fn(Op) -> Sample>(arith: &A, op: Op) -> (r: Sample)
    requires
        accepts_all(arith),
    ensures
        call_ensures(arith, (op,), r),
        forall|m: Model| #[trigger] computes(arith, m) ==> r == m(op),
{
    arith(op)
}

/// Evaluates the sample nearest to a natural number.
pub fn from_count<A: Fn(Op) -> Sample>(arith: &A, n: u64) -> (r: Sample)
    requires
        accepts_all(arith),
    ensures
        forall|m: Model| #[trigger] computes(arith, m) ==> r == natural(m, n),
{
    evaluate(arith, Op::Nat(n))
}

/// Evaluates `-a`.
pub fn negate<A: Fn(Op) -> Sample>(arith: &A, a: Sample) -> (r: Sample)
    requires
        accepts_all(arith),
    ensures
        forall|m: Model| #[trigger] computes(arith, m) ==> r == negation(m, a),
{
    evaluate(arith, Op::Neg(a))
}

/// Evaluates `sin(a)`.
pub fn sin_of<A: Fn(Op) -> Sample>(arith: &A, a: Sample) -> (r: Sample)
    requires
        accepts_all(arith),
    ensures
        forall|m: Model| #[trigger] computes(arith, m) ==> r == sine(m, a),
{
    evaluate(arith, Op::Sin(a))
}

/// Evaluates `cos(a)`.
pub fn cos_of<A: Fn(Op) -> Sample>(arith: &A, a: Sample) -> (r: Sample)
    requires
        accepts_all(arith),
    ensures
        forall|m: Model| #[trigger] computes(arith, m) ==> r == cosine(m, a),
{
    evaluate(arith, Op::Cos(a))
}

/// Evaluates `tan(a)`.
pub fn tan_of<A: Fn(Op) -> Sample>(arith: &A, a: Sample) -> (r: Sample)
    requires
        accepts_all(arith),
    ensures
        forall|m: Model| #[trigger] computes(arith, m) ==> r == tangent(m, a),
{
    evaluate(arith, Op::Tan(a))
}

/// Evaluates `exp(a)`.
pub fn exp_of<A: Fn(Op) -> Sample>(arith: &A, a: Sample) -> (r: Sample)
    requires
        accepts_all(arith),
    ensures
        forall|m: Model| #[trigger] computes(arith, m) ==> r == exponential(m, a),
{
    evaluate(arith, Op::Exp(a))
}

/// Evaluates `sqrt(a)`.
pub fn sqrt_of<A: Fn(Op) -> Sample>(arith: &A, a: Sample) -> (r: Sample)
    requires
        accepts_all(arith),
    ensures
        forall|m: Model| #[trigger] computes(arith, m) ==> r == square_root(m, a),
{
    evaluate(arith, Op::Sqrt(a))
}

/// Evaluates `a + b`.
pub fn plus<A: Fn(Op) -> Sample>(arith: &A, a: Sample, b: Sample) -> (r: Sample)
    requires
        accepts_all(arith),
    ensures
        forall|m: Model| #[trigger] computes(arith, m) ==> r == sum(m, a, b),
{
    evaluate(arith, Op::Add(a, b))
}

/// Evaluates `a - b`.
pub fn minus<A: Fn(Op) -> Sample>(arith: &A, a: Sample, b: Sample) -> (r: Sample)
    requires
        accepts_all(arith),
    ensures
        forall|m: Model| #[trigger] computes(arith, m) ==> r == difference(m, a, b),
{
    evaluate(arith, Op::Sub(a, b))
}

/// Evaluates `a * b`.
pub fn times<A: Fn(Op) -> Sample>(arith: &A, a: Sample, b: Sample) -> (r: Sample)
    requires
        accepts_all(arith),
    ensures
        forall|m: Model| #[trigger] computes(arith, m) ==> r == product(m, a, b),
{
    evaluate(arith, Op::Mul(a, b))
}

/// Evaluates `a / b`.
pub fn over<A: Fn(Op) -> Sample>(arith: &A, a: Sample, b: Sample) -> (r: Sample)
    requires
        accepts_all(arith),
    ensures
        forall|m: Model| #[trigger] computes(arith, m) ==> r == quotient(m, a, b),
{
    evaluate(arith, Op::Div(a, b))
}

/// Evaluates `a` raised to the power `b`.
pub fn raise<A: Fn(Op) -> Sample>(arith: &A, a: Sample, b: Sample) -> (r: Sample)
    requires
        accepts_all(arith),
    ensures
        forall|m: Model| #[trigger] computes(arith, m) ==> r == power(m, a, b),
{
    evaluate(arith, Op::Pow(a, b))
}

/// Evaluates `2 * pi`.
pub fn two_pi_of<A: Fn(Op) -> Sample>(arith: &A) -> (r: Sample)
    requires
        accepts_all(arith),
    ensures
        forall|m: Model| #[trigger] computes(arith, m) ==> r == two_pi(m),
{
    let two: Sample = from_count(arith, 2);
    let p: Sample = evaluate(arith, Op::Pi);
    times(arith, two, p)
}

/// Evaluates `2 * pi * fc / fs`.
pub fn angular_of<A: Fn(Op) -> Sample>(arith: &A, fc: Sample, fs: Sample) -> (r: Sample)
    requires
        accepts_all(arith),
    ensures
        forall|m: Model| #[trigger] computes(arith, m) ==> r == angular(m, fc, fs),
{
    let tp: Sample = two_pi_of(arith);
    let n: Sample = times(arith, tp, fc);
    over(arith, n, fs)
}

/// Tells whether a sample stands for a number greater than zero.
pub fn positive(s: Sample) -> (r: bool)
    ensures
        r == is_positive(s),
{
    0 < s && s <= POSITIVE_MAX
}

} // verus!
