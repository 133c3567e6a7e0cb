//! The symbolic expression engine: the recursive expression type, operator
//! construction, the single-pass simplification rewrite, and the two textual
//! renderers (infix with conservative parenthesization, and postfix/RPN).
use crate::payload::Numeric;
use vstd::prelude::*;
use vstd::string::StringExecFns;

verus! {

/// The binary operators an expression node can carry.
#[derive(Debug, PartialEq, Eq, Structural, Copy, Clone)]
pub enum Op {
    Plus,
    Minus,
    Mul,
    Div,
    Pow,
}

/// The fixed token each operator renders as.
pub open spec fn op_token(op: Op) -> Seq<char> {
    match op {
        Op::Plus => seq!['+'],
        Op::Minus => seq!['-'],
        Op::Mul => seq!['*'],
        Op::Div => seq!['/'],
        Op::Pow => seq!['*', '*'],
    }
}

impl Op {
    /// The operator's textual token.
    pub fn token(&self) -> (r: &'static str)
        ensures
            r@ == op_token(*self),
    {
        proof {
            reveal_strlit("+");
            reveal_strlit("-");
            reveal_strlit("*");
            reveal_strlit("/");
            reveal_strlit("**");
        }
        let r: &'static str = match self {
            Op::Plus => "+",
            Op::Minus => "-",
            Op::Mul => "*",
            Op::Div => "/",
            Op::Pow => "**",
        };
        proof {
            assert(r@ =~= op_token(*self));
        }
        r
    }
}

/// The core symbolic expression type: a number, a symbol, a binary
/// operation over two owned subtrees, or a named unary operation over one.
#[derive(Debug, PartialEq)]
pub enum SymbolicManip<T> {
    Number(T),
    Symbol(String),
    BinaryArith(Op, Box<SymbolicManip<T>>, Box<SymbolicManip<T>>),
    UnaryArith(String, Box<SymbolicManip<T>>),
}

/// A binary node over two subtrees.
pub open spec fn bin<T>(op: Op, a: SymbolicManip<T>, b: SymbolicManip<T>) -> SymbolicManip<T> {
    SymbolicManip::BinaryArith(op, Box::new(a), Box::new(b))
}

/// Structural equality of two expressions: equal shapes, `eqv`-equal
/// payloads at `Number` leaves, and names equal as character sequences.
/// This is the equality that simplification and dimension matching use.
pub open spec fn tree_eq<T: Numeric>(a: SymbolicManip<T>, b: SymbolicManip<T>) -> bool
    decreases a,
{
    match (a, b) {
        (SymbolicManip::Number(x), SymbolicManip::Number(y)) => x.eqv(&y),
        (SymbolicManip::Symbol(s), SymbolicManip::Symbol(t)) => s@ == t@,
        (
            SymbolicManip::BinaryArith(op1, a1, a2),
            SymbolicManip::BinaryArith(op2, b1, b2),
        ) => op1 == op2 && tree_eq(*a1, *b1) && tree_eq(*a2, *b2),
        (
            SymbolicManip::UnaryArith(n1, a1),
            SymbolicManip::UnaryArith(n2, b1),
        ) => n1@ == n2@ && tree_eq(*a1, *b1),
        _ => false,
    }
}

pub proof fn lemma_tree_eq_refl<T: Numeric>(e: SymbolicManip<T>)
    ensures
        tree_eq(e, e),
    decreases e,
{
    match e {
        SymbolicManip::Number(x) => {
            T::lemma_eqv_refl(&x);
        },
        SymbolicManip::Symbol(_) => {
        },
        SymbolicManip::BinaryArith(_, a, b) => {
            lemma_tree_eq_refl(*a);
            lemma_tree_eq_refl(*b);
        },
        SymbolicManip::UnaryArith(_, a) => {
            lemma_tree_eq_refl(*a);
        },
    }
}

pub proof fn lemma_tree_eq_sym<T: Numeric>(a: SymbolicManip<T>, b: SymbolicManip<T>)
    requires
        tree_eq(a, b),
    ensures
        tree_eq(b, a),
    decreases a,
{
    match (a, b) {
        (SymbolicManip::Number(x), SymbolicManip::Number(y)) => {
            T::lemma_eqv_sym(&x, &y);
        },
        (SymbolicManip::BinaryArith(_, a1, a2), SymbolicManip::BinaryArith(_, b1, b2)) => {
            lemma_tree_eq_sym(*a1, *b1);
            lemma_tree_eq_sym(*a2, *b2);
        },
        (SymbolicManip::UnaryArith(_, a1), SymbolicManip::UnaryArith(_, b1)) => {
            lemma_tree_eq_sym(*a1, *b1);
        },
        _ => {
        },
    }
}

impl<T> SymbolicManip<T> {
    /// Lift a payload value into a literal leaf.
    pub fn new(other: T) -> (r: Self)
        ensures
            r == SymbolicManip::Number(other),
    {
        SymbolicManip::Number(other)
    }

    /// The symbolic constant pi.
    pub fn pi() -> (r: Self)
        ensures
            r matches SymbolicManip::Symbol(name) && name@ == "pi"@,
    {
        SymbolicManip::Symbol("pi".to_owned())
    }

    /// Square root as a named unary node over the operand.
    pub fn sqrt(self) -> (r: Self)
        ensures
            r matches SymbolicManip::UnaryArith(name, a) && name@ == "sqrt"@ && *a == self,
    {
        SymbolicManip::UnaryArith("sqrt".to_owned(), Box::new(self))
    }

    /// Absolute value as a named unary node over the operand.
    pub fn abs(self) -> (r: Self)
        ensures
            r matches SymbolicManip::UnaryArith(name, a) && name@ == "abs"@ && *a == self,
    {
        SymbolicManip::UnaryArith("abs".to_owned(), Box::new(self))
    }

    /// A power node over base and exponent.
    pub fn pow(self, other: Self) -> (r: Self)
        ensures
            r == bin(Op::Pow, self, other),
    {
        SymbolicManip::BinaryArith(Op::Pow, Box::new(self), Box::new(other))
    }

    /// A sum node over the two operands.
    pub fn add(self, other: Self) -> (r: Self)
        ensures
            r == bin(Op::Plus, self, other),
    {
        SymbolicManip::BinaryArith(Op::Plus, Box::new(self), Box::new(other))
    }

    /// A difference node over the two operands.
    pub fn sub(self, other: Self) -> (r: Self)
        ensures
            r == bin(Op::Minus, self, other),
    {
        SymbolicManip::BinaryArith(Op::Minus, Box::new(self), Box::new(other))
    }

    /// A product node over the two operands.
    pub fn mul(self, other: Self) -> (r: Self)
        ensures
            r == bin(Op::Mul, self, other),
    {
        SymbolicManip::BinaryArith(Op::Mul, Box::new(self), Box::new(other))
    }

    /// A quotient node over the two operands.
    pub fn div(self, other: Self) -> (r: Self)
        ensures
            r == bin(Op::Div, self, other),
    {
        SymbolicManip::BinaryArith(Op::Div, Box::new(self), Box::new(other))
    }
}

impl<T> From<T> for SymbolicManip<T> {
    fn from(other: T) -> (r: Self) {
        SymbolicManip::Number(other)
    }
}

impl<T> vstd::std_specs::convert::FromSpecImpl<T> for SymbolicManip<T> {
    open spec fn obeys_from_spec() -> bool {
        true
    }

    open spec fn from_spec(t: T) -> Self {
        SymbolicManip::Number(t)
    }
}

impl<T: Numeric> SymbolicManip<T> {
    /// Negation: multiplication by the literal for -1.
    pub fn neg(self) -> (r: Self)
        ensures
            r == bin(Op::Mul, self, SymbolicManip::Number(T::of_int_spec(-1))),
    {
        let minus_one: SymbolicManip<T> = SymbolicManip::Number(T::of_int(-1));
        self.mul(minus_one)
    }

    /// Decide structural equality of two expressions.
    pub fn eq_tree(&self, other: &Self) -> (r: bool)
        ensures
            r == tree_eq(*self, *other),
        decreases *self,
    {
        match (self, other) {
            (SymbolicManip::Number(x), SymbolicManip::Number(y)) => x.eq_value(y),
            (SymbolicManip::Symbol(s), SymbolicManip::Symbol(t)) => s.eq(t),
            (
                SymbolicManip::BinaryArith(op1, a1, a2),
                SymbolicManip::BinaryArith(op2, b1, b2),
            ) => *op1 == *op2 && a1.eq_tree(b1) && a2.eq_tree(b2),
            (
                SymbolicManip::UnaryArith(n1, a1),
                SymbolicManip::UnaryArith(n2, b1),
            ) => n1.eq(n2) && a1.eq_tree(b1),
            _ => false,
        }
    }

    /// A structural copy of the expression.
    pub fn duplicate(&self) -> (r: Self)
        ensures
            r == *self,
        decreases *self,
    {
        match self {
            SymbolicManip::Number(x) => SymbolicManip::Number(x.clone_value()),
            SymbolicManip::Symbol(s) => SymbolicManip::Symbol(s.clone()),
            SymbolicManip::BinaryArith(op, a, b) => SymbolicManip::BinaryArith(
                *op,
                Box::new(a.duplicate()),
                Box::new(b.duplicate()),
            ),
            SymbolicManip::UnaryArith(n, a) => SymbolicManip::UnaryArith(
                n.clone(),
                Box::new(a.duplicate()),
            ),
        }
    }
}

/// Infix rendering: conventional algebraic notation, with each binary
/// operand conservatively parenthesized.
pub open spec fn infix_text<T: Numeric>(e: SymbolicManip<T>) -> Seq<char>
    decreases e, 0nat,
{
    match e {
        SymbolicManip::Number(x) => x.text_spec(),
        SymbolicManip::Symbol(s) => s@,
        SymbolicManip::BinaryArith(op, a, b) => paren_text(*a) + op_token(op) + paren_text(*b),
        SymbolicManip::UnaryArith(n, a) => n@ + seq!['('] + infix_text(*a) + seq![')'],
    }
}

/// How an operand renders inside a binary node: a binary operand is always
/// wrapped in parentheses; a leaf or unary operand is not.
pub open spec fn paren_text<T: Numeric>(e: SymbolicManip<T>) -> Seq<char>
    decreases e, 1nat,
{
    if e is BinaryArith {
        seq!['('] + infix_text(e) + seq![')']
    } else {
        infix_text(e)
    }
}

/// Postfix (RPN) rendering: operands first, then the operator token,
/// separated by single spaces.
pub open spec fn rpn_text<T: Numeric>(e: SymbolicManip<T>) -> Seq<char>
    decreases e,
{
    match e {
        SymbolicManip::Number(x) => x.text_spec(),
        SymbolicManip::Symbol(s) => s@,
        SymbolicManip::BinaryArith(op, a, b) => rpn_text(*a) + seq![' '] + rpn_text(*b) + seq![' ']
            + op_token(op),
        SymbolicManip::UnaryArith(n, a) => rpn_text(*a) + seq![' '] + n@,
    }
}

/// The single bottom-up simplification pass: children are simplified first,
/// then one local identity rewrite is applied at the current node, using
/// structural comparison against the literals for one and zero.
pub open spec fn simplify_spec<T: Numeric>(e: SymbolicManip<T>) -> SymbolicManip<T>
    decreases e,
{
    match e {
        SymbolicManip::BinaryArith(op, a, b) => {
            let sa = simplify_spec(*a);
            let sb = simplify_spec(*b);
            let one = SymbolicManip::Number(T::of_int_spec(1));
            let zero = SymbolicManip::Number(T::of_int_spec(0));
            if op == Op::Mul && tree_eq(sa, one) {
                sb
            } else if op == Op::Mul && tree_eq(sb, one) {
                sa
            } else if op == Op::Mul && (tree_eq(sa, zero) || tree_eq(sb, zero)) {
                zero
            } else if op == Op::Div && tree_eq(sb, one) {
                sa
            } else if op == Op::Plus && tree_eq(sa, zero) {
                sb
            } else if op == Op::Plus && tree_eq(sb, zero) {
                sa
            } else if op == Op::Minus && tree_eq(sb, zero) {
                sa
            } else {
                SymbolicManip::BinaryArith(op, Box::new(sa), Box::new(sb))
            }
        },
        SymbolicManip::UnaryArith(n, a) => SymbolicManip::UnaryArith(
            n,
            Box::new(simplify_spec(*a)),
        ),
        _ => e,
    }
}

impl<T: Numeric> SymbolicManip<T> {
    pub(crate) fn push_infix(&self, out: &mut String)
        ensures
            final(out)@ == old(out)@ + infix_text(*self),
        decreases *self, 0nat,
    {
        match self {
            SymbolicManip::Number(x) => {
                let t = x.text();
                out.append(t.as_str());
            },
            SymbolicManip::Symbol(s) => {
                out.append(s.as_str());
            },
            SymbolicManip::BinaryArith(op, a, b) => {
                a.push_paren(out);
                out.append(op.token());
                b.push_paren(out);
            },
            SymbolicManip::UnaryArith(n, a) => {
                proof {
                    reveal_strlit("(");
                    reveal_strlit(")");
                }
                out.append(n.as_str());
                out.append("(");
                a.push_infix(out);
                out.append(")");
            },
        }
        proof {
            assert(out@ =~= old(out)@ + infix_text(*self));
        }
    }

    pub(crate) fn push_paren(&self, out: &mut String)
        ensures
            final(out)@ == old(out)@ + paren_text(*self),
        decreases *self, 1nat,
    {
        match self {
            SymbolicManip::BinaryArith(_, _, _) => {
                proof {
                    reveal_strlit("(");
                    reveal_strlit(")");
                }
                out.append("(");
                self.push_infix(out);
                out.append(")");
            },
            _ => {
                self.push_infix(out);
            },
        }
        proof {
            assert(out@ =~= old(out)@ + paren_text(*self));
        }
    }

    fn push_rpn(&self, out: &mut String)
        ensures
            final(out)@ == old(out)@ + rpn_text(*self),
        decreases *self,
    {
        proof {
            reveal_strlit(" ");
        }
        match self {
            SymbolicManip::Number(x) => {
                let t = x.text();
                out.append(t.as_str());
            },
            SymbolicManip::Symbol(s) => {
                out.append(s.as_str());
            },
            SymbolicManip::BinaryArith(op, a, b) => {
                a.push_rpn(out);
                out.append(" ");
                b.push_rpn(out);
                out.append(" ");
                out.append(op.token());
            },
            SymbolicManip::UnaryArith(n, a) => {
                a.push_rpn(out);
                out.append(" ");
                out.append(n.as_str());
            },
        }
        proof {
            assert(out@ =~= old(out)@ + rpn_text(*self));
        }
    }

    /// Render the expression in conventional algebraic notation.
    pub fn pretty_show(&self) -> (r: String)
        ensures
            r@ == infix_text(*self),
    {
        let mut s = String::new();
        self.push_infix(&mut s);
        proof {
            assert(s@ =~= infix_text(*self));
        }
        s
    }

    /// Render the expression as a binary operand: parenthesized when it is
    /// itself a binary node, bare otherwise.
    pub fn simple_paren(&self) -> (r: String)
        ensures
            r@ == paren_text(*self),
    {
        let mut s = String::new();
        self.push_paren(&mut s);
        proof {
            assert(s@ =~= paren_text(*self));
        }
        s
    }

    /// Render the expression in postfix (RPN) notation.
    pub fn to_rpn(&self) -> (r: String)
        ensures
            r@ == rpn_text(*self),
    {
        let mut s = String::new();
        self.push_rpn(&mut s);
        proof {
            assert(s@ =~= rpn_text(*self));
        }
        s
    }

    /// One bottom-up simplification pass: both children are simplified
    /// first, then one local identity rewrite applies at this node.
    pub fn simplify(&self) -> (r: Self)
        ensures
            r == simplify_spec(*self),
        decreases *self,
    {
        match self {
            SymbolicManip::BinaryArith(op, a, b) => {
                let o: Op = *op;
                let sa = a.simplify();
                let sb = b.simplify();
                let one: SymbolicManip<T> = SymbolicManip::Number(T::of_int(1));
                let zero: SymbolicManip<T> = SymbolicManip::Number(T::of_int(0));
                if o == Op::Mul && sa.eq_tree(&one) {
                    sb
                } else if o == Op::Mul && sb.eq_tree(&one) {
                    sa
                } else if o == Op::Mul && (sa.eq_tree(&zero) || sb.eq_tree(&zero)) {
                    zero
                } else if o == Op::Div && sb.eq_tree(&one) {
                    sa
                } else if o == Op::Plus && sa.eq_tree(&zero) {
                    sb
                } else if o == Op::Plus && sb.eq_tree(&zero) {
                    sa
                } else if o == Op::Minus && sb.eq_tree(&zero) {
                    sa
                } else {
                    SymbolicManip::BinaryArith(o, Box::new(sa), Box::new(sb))
                }
            },
            SymbolicManip::UnaryArith(n, a) => SymbolicManip::UnaryArith(
                n.clone(),
                Box::new(a.simplify()),
            ),
            _ => self.duplicate(),
        }
    }
}

/// Structurally equal expressions render alike, in all three renderings.
pub proof fn lemma_tree_eq_text<T: Numeric>(a: SymbolicManip<T>, b: SymbolicManip<T>)
    requires
        tree_eq(a, b),
    ensures
        infix_text(a) == infix_text(b),
        paren_text(a) == paren_text(b),
        rpn_text(a) == rpn_text(b),
    decreases a,
{
    match (a, b) {
        (SymbolicManip::Number(x), SymbolicManip::Number(y)) => {
            T::lemma_eqv_text(&x, &y);
        },
        (SymbolicManip::BinaryArith(_, a1, a2), SymbolicManip::BinaryArith(_, b1, b2)) => {
            lemma_tree_eq_text(*a1, *b1);
            lemma_tree_eq_text(*a2, *b2);
        },
        (SymbolicManip::UnaryArith(_, a1), SymbolicManip::UnaryArith(_, b1)) => {
            lemma_tree_eq_text(*a1, *b1);
        },
        _ => {
        },
    }
}

/// The parenthesization policy: a binary operand is wrapped in parentheses,
/// and only a binary operand — literal, symbol and unary operands render
/// bare.
pub proof fn lemma_paren_policy<T: Numeric>(e: SymbolicManip<T>)
    ensures
        e is BinaryArith ==> paren_text(e) == seq!['('] + infix_text(e) + seq![')'],
        !(e is BinaryArith) ==> paren_text(e) == infix_text(e),
{
}

/// No identity rewrite applies anywhere in the expression: every
/// multiplication is free of literal one and zero factors, every division
/// of a literal one divisor, every addition of literal zero terms, and
/// every subtraction of a literal zero subtrahend.
pub open spec fn is_reduced<T: Numeric>(e: SymbolicManip<T>) -> bool
    decreases e,
{
    match e {
        SymbolicManip::BinaryArith(op, a, b) => {
            let one = SymbolicManip::Number(T::of_int_spec(1));
            let zero = SymbolicManip::Number(T::of_int_spec(0));
            &&& is_reduced(*a)
            &&& is_reduced(*b)
            &&& !(op == Op::Mul && (tree_eq(*a, one) || tree_eq(*b, one) || tree_eq(*a, zero)
                || tree_eq(*b, zero)))
            &&& !(op == Op::Div && tree_eq(*b, one))
            &&& !(op == Op::Plus && (tree_eq(*a, zero) || tree_eq(*b, zero)))
            &&& !(op == Op::Minus && tree_eq(*b, zero))
        },
        SymbolicManip::UnaryArith(_, a) => is_reduced(*a),
        _ => true,
    }
}

/// Simplification leaves an already reduced expression unchanged.
pub proof fn lemma_simplify_of_reduced<T: Numeric>(e: SymbolicManip<T>)
    requires
        is_reduced(e),
    ensures
        simplify_spec(e) == e,
    decreases e,
{
    match e {
        SymbolicManip::BinaryArith(op, a, b) => {
            lemma_simplify_of_reduced(*a);
            lemma_simplify_of_reduced(*b);
        },
        SymbolicManip::UnaryArith(_, a) => {
            lemma_simplify_of_reduced(*a);
        },
        _ => {
        },
    }
}

/// The single pass always reaches a reduced tree: each node's children are
/// fully simplified before the node's own rewrite is chosen, so no rewrite
/// opportunity survives the pass.
pub proof fn lemma_simplify_reduced<T: Numeric>(e: SymbolicManip<T>)
    ensures
        is_reduced(simplify_spec(e)),
    decreases e,
{
    match e {
        SymbolicManip::BinaryArith(_, a, b) => {
            lemma_simplify_reduced(*a);
            lemma_simplify_reduced(*b);
        },
        SymbolicManip::UnaryArith(_, a) => {
            lemma_simplify_reduced(*a);
        },
        _ => {
        },
    }
}

/// Simplification is idempotent: a second pass changes nothing, and so
/// renders the same text.
pub proof fn lemma_simplify_idempotent<T: Numeric>(e: SymbolicManip<T>)
    ensures
        simplify_spec(simplify_spec(e)) == simplify_spec(e),
        infix_text(simplify_spec(simplify_spec(e))) == infix_text(simplify_spec(e)),
{
    lemma_simplify_reduced(e);
    lemma_simplify_of_reduced(simplify_spec(e));
}

/// `simplify(1 * E)` is exactly `simplify(E)`.
pub proof fn lemma_simplify_one_times<T: Numeric>(e: SymbolicManip<T>)
    ensures
        simplify_spec(bin(Op::Mul, SymbolicManip::Number(T::of_int_spec(1)), e))
            == simplify_spec(e),
{
    reveal_with_fuel(simplify_spec, 2);
    T::lemma_eqv_refl(&T::of_int_spec(1));
}

/// `simplify(E * 1)` is structurally equal to `simplify(E)`.
pub proof fn lemma_simplify_times_one<T: Numeric>(e: SymbolicManip<T>)
    ensures
        tree_eq(
            simplify_spec(bin(Op::Mul, e, SymbolicManip::Number(T::of_int_spec(1)))),
            simplify_spec(e),
        ),
{
    reveal_with_fuel(simplify_spec, 2);
    let s = simplify_spec(e);
    let one = SymbolicManip::Number(T::of_int_spec(1));
    T::lemma_eqv_refl(&T::of_int_spec(1));
    if tree_eq(s, one) {
        lemma_tree_eq_sym(s, one);
    } else {
        lemma_tree_eq_refl(s);
    }
}

/// `simplify(0 * E)` is the literal zero.
pub proof fn lemma_simplify_zero_times<T: Numeric>(e: SymbolicManip<T>)
    ensures
        simplify_spec(bin(Op::Mul, SymbolicManip::Number(T::of_int_spec(0)), e))
            == SymbolicManip::Number(T::of_int_spec(0)),
{
    reveal_with_fuel(simplify_spec, 2);
    T::lemma_eqv_refl(&T::of_int_spec(0));
    if T::of_int_spec(0).eqv(&T::of_int_spec(1)) {
        T::lemma_eqv_sym(&T::of_int_spec(0), &T::of_int_spec(1));
        T::lemma_zero_one_distinct();
    }
}

/// `simplify(E * 0)` is the literal zero.
pub proof fn lemma_simplify_times_zero<T: Numeric>(e: SymbolicManip<T>)
    ensures
        simplify_spec(bin(Op::Mul, e, SymbolicManip::Number(T::of_int_spec(0))))
            == SymbolicManip::Number(T::of_int_spec(0)),
{
    reveal_with_fuel(simplify_spec, 2);
    T::lemma_eqv_refl(&T::of_int_spec(0));
    if T::of_int_spec(0).eqv(&T::of_int_spec(1)) {
        T::lemma_eqv_sym(&T::of_int_spec(0), &T::of_int_spec(1));
        T::lemma_zero_one_distinct();
    }
}

/// `simplify(E / 1)` is exactly `simplify(E)`.
pub proof fn lemma_simplify_div_one<T: Numeric>(e: SymbolicManip<T>)
    ensures
        simplify_spec(bin(Op::Div, e, SymbolicManip::Number(T::of_int_spec(1))))
            == simplify_spec(e),
{
    reveal_with_fuel(simplify_spec, 2);
    T::lemma_eqv_refl(&T::of_int_spec(1));
}

/// `simplify(0 + E)` is exactly `simplify(E)`.
pub proof fn lemma_simplify_zero_plus<T: Numeric>(e: SymbolicManip<T>)
    ensures
        simplify_spec(bin(Op::Plus, SymbolicManip::Number(T::of_int_spec(0)), e))
            == simplify_spec(e),
{
    reveal_with_fuel(simplify_spec, 2);
    T::lemma_eqv_refl(&T::of_int_spec(0));
}

/// `simplify(E + 0)` is structurally equal to `simplify(E)`.
pub proof fn lemma_simplify_plus_zero<T: Numeric>(e: SymbolicManip<T>)
    ensures
        tree_eq(
            simplify_spec(bin(Op::Plus, e, SymbolicManip::Number(T::of_int_spec(0)))),
            simplify_spec(e),
        ),
{
    reveal_with_fuel(simplify_spec, 2);
    let s = simplify_spec(e);
    let zero = SymbolicManip::Number(T::of_int_spec(0));
    T::lemma_eqv_refl(&T::of_int_spec(0));
    if tree_eq(s, zero) {
        lemma_tree_eq_sym(s, zero);
    } else {
        lemma_tree_eq_refl(s);
    }
}

/// `simplify(E - 0)` is exactly `simplify(E)`.
pub proof fn lemma_simplify_minus_zero<T: Numeric>(e: SymbolicManip<T>)
    ensures
        simplify_spec(bin(Op::Minus, e, SymbolicManip::Number(T::of_int_spec(0))))
            == simplify_spec(e),
{
    reveal_with_fuel(simplify_spec, 2);
    T::lemma_eqv_refl(&T::of_int_spec(0));
}

/// Expressions themselves form a payload: arithmetic builds nodes, equality
/// is structural, and the rendering is the infix one. This lets a `Units`
/// value carry symbolic numbers.
impl<T: Numeric> Numeric for SymbolicManip<T> {
    open spec fn eqv(&self, other: &Self) -> bool {
        tree_eq(*self, *other)
    }

    open spec fn of_int_spec(v: int) -> Self {
        SymbolicManip::Number(T::of_int_spec(v))
    }

    open spec fn text_spec(&self) -> Seq<char> {
        infix_text(*self)
    }

    open spec fn add_spec(self, other: Self) -> Self {
        bin(Op::Plus, self, other)
    }

    open spec fn sub_spec(self, other: Self) -> Self {
        bin(Op::Minus, self, other)
    }

    open spec fn mul_spec(self, other: Self) -> Self {
        bin(Op::Mul, self, other)
    }

    open spec fn div_spec(self, other: Self) -> Self {
        bin(Op::Div, self, other)
    }

    open spec fn neg_spec(self) -> Self {
        bin(Op::Mul, self, SymbolicManip::Number(T::of_int_spec(-1)))
    }

    proof fn lemma_eqv_refl(&self) {
        lemma_tree_eq_refl(*self);
    }

    proof fn lemma_eqv_sym(&self, other: &Self) {
        lemma_tree_eq_sym(*self, *other);
    }

    proof fn lemma_eqv_text(&self, other: &Self) {
        lemma_tree_eq_text(*self, *other);
    }

    proof fn lemma_zero_one_distinct() {
        T::lemma_zero_one_distinct();
    }

    fn of_int(v: i32) -> (r: Self) {
        SymbolicManip::Number(T::of_int(v))
    }

    fn eq_value(&self, other: &Self) -> (r: bool) {
        self.eq_tree(other)
    }

    fn clone_value(&self) -> (r: Self) {
        self.duplicate()
    }

    fn text(&self) -> (r: String) {
        self.pretty_show()
    }

    fn add_value(self, other: Self) -> (r: Self) {
        self.add(other)
    }

    fn sub_value(self, other: Self) -> (r: Self) {
        self.sub(other)
    }

    fn mul_value(self, other: Self) -> (r: Self) {
        self.mul(other)
    }

    fn div_value(self, other: Self) -> (r: Self) {
        self.div(other)
    }

    fn neg_value(self) -> (r: Self) {
        self.neg()
    }
}

} // verus!
