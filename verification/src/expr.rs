//! Arithmetic expressions: their shape, their exact value, and their
//! rendered text.
//!
//! An `Expr` records the operands exactly as the generator chose them, so
//! the value of the whole expression under standard precedence is a plain
//! spec function of the variant. `render` produces the display string and
//! is proved to match `render_spec` character for character.

use vstd::prelude::*;
use vstd::math::abs;
use vstd::string::StringExecFns;

verus! {

/// The shape of a generated arithmetic problem. Simple forms hold their two
/// operands; the two compound forms need parentheses to evaluate and hold
/// three. `Div` stores the dividend already multiplied out, and
/// `ParenSubDiv` stores the left operand of the subtraction already summed,
/// exactly as the corresponding text is rendered.
#[derive(Clone, Copy, Debug, PartialEq, Eq, Structural)]
pub enum Expr {
    /// `a + b`
    Add(i32, i32),
    /// `a - b`
    Sub(i32, i32),
    /// `a * b`
    Mul(i32, i32),
    /// `a / b`, truncating division
    Div(i32, i32),
    /// `a * (b + c)`
    MulParenSum(i32, i32, i32),
    /// `(a - b) / c`, truncating division
    ParenSubDiv(i32, i32, i32),
}

/// Division as Rust's `/` computes it on machine integers: the quotient of
/// the absolute values, negated when the signs differ. A zero divisor is
/// mapped to 0, the value the generator assigns in that degenerate case.
pub open spec fn trunc_div(a: int, b: int) -> int {
    if b == 0 {
        0
    } else {
        let q = (abs(a) / abs(b)) as int;
        if (a < 0) <==> (b < 0) {
            q
        } else {
            -q
        }
    }
}

/// The exact value of an expression under standard operator precedence.
pub open spec fn eval(e: Expr) -> int {
    match e {
        Expr::Add(a, b) => a + b,
        Expr::Sub(a, b) => a - b,
        Expr::Mul(a, b) => a * b,
        Expr::Div(a, b) => trunc_div(a as int, b as int),
        Expr::MulParenSum(a, b, c) => a * (b + c),
        Expr::ParenSubDiv(a, b, c) => trunc_div(a - b, c as int),
    }
}

/// Whether the expression takes order of operations (parentheses) to
/// evaluate; such problems score double.
pub open spec fn is_compound_expr(e: Expr) -> bool {
    match e {
        Expr::Add(_, _) => false,
        Expr::Sub(_, _) => false,
        Expr::Mul(_, _) => false,
        Expr::Div(_, _) => false,
        Expr::MulParenSum(_, _, _) => true,
        Expr::ParenSubDiv(_, _, _) => true,
    }
}

/// Every stored operand is small enough that evaluation fits comfortably
/// in `i32`.
pub open spec fn operands_small(e: Expr) -> bool {
    match e {
        Expr::Add(a, b) => -10000 <= a <= 10000 && -10000 <= b <= 10000,
        Expr::Sub(a, b) => -10000 <= a <= 10000 && -10000 <= b <= 10000,
        Expr::Mul(a, b) => -10000 <= a <= 10000 && -10000 <= b <= 10000,
        Expr::Div(a, b) => -10000 <= a <= 10000 && -10000 <= b <= 10000,
        Expr::MulParenSum(a, b, c) => -10000 <= a <= 10000 && -10000 <= b <= 10000 && -10000 <= c
            <= 10000,
        Expr::ParenSubDiv(a, b, c) => -10000 <= a <= 10000 && -10000 <= b <= 10000 && -10000 <= c
            <= 10000,
    }
}

/// The decimal digit `d` as a character.
pub open spec fn digit_char(d: int) -> char {
    if d == 0 {
        '0'
    } else if d == 1 {
        '1'
    } else if d == 2 {
        '2'
    } else if d == 3 {
        '3'
    } else if d == 4 {
        '4'
    } else if d == 5 {
        '5'
    } else if d == 6 {
        '6'
    } else if d == 7 {
        '7'
    } else if d == 8 {
        '8'
    } else {
        '9'
    }
}

/// The decimal digits of a non-negative `n`, most significant first.
pub open spec fn dec_rep(n: int) -> Seq<char>
    decreases n,
{
    if n < 10 {
        seq![digit_char(n)]
    } else {
        dec_rep(n / 10).push(digit_char(n % 10))
    }
}

/// The decimal rendering of `n`, with a leading minus sign when negative.
pub open spec fn int_str(n: int) -> Seq<char> {
    if n < 0 {
        seq!['-'] + dec_rep(-n)
    } else {
        dec_rep(n)
    }
}

/// The display text of an expression, exactly as the quiz shows it.
pub open spec fn render_spec(e: Expr) -> Seq<char> {
    match e {
        Expr::Add(a, b) => int_str(a as int) + " + "@ + int_str(b as int),
        Expr::Sub(a, b) => int_str(a as int) + " - "@ + int_str(b as int),
        Expr::Mul(a, b) => int_str(a as int) + " * "@ + int_str(b as int),
        Expr::Div(a, b) => int_str(a as int) + " / "@ + int_str(b as int),
        Expr::MulParenSum(a, b, c) => int_str(a as int) + " * ("@ + int_str(b as int) + " + "@
            + int_str(c as int) + ")"@,
        Expr::ParenSubDiv(a, b, c) => "("@ + int_str(a as int) + " - "@ + int_str(b as int)
            + ") / "@ + int_str(c as int),
    }
}

/// The single-character string for the digit `d`.
fn digit_str(d: u32) -> (r: &'static str)
    requires
        d < 10,
    ensures
        r@ == seq![digit_char(d as int)],
{
    proof {
        reveal_strlit("0");
        reveal_strlit("1");
        reveal_strlit("2");
        reveal_strlit("3");
        reveal_strlit("4");
        reveal_strlit("5");
        reveal_strlit("6");
        reveal_strlit("7");
        reveal_strlit("8");
        reveal_strlit("9");
    }
    let r: &'static str = if d == 0 {
        "0"
    } else if d == 1 {
        "1"
    } else if d == 2 {
        "2"
    } else if d == 3 {
        "3"
    } else if d == 4 {
        "4"
    } else if d == 5 {
        "5"
    } else if d == 6 {
        "6"
    } else if d == 7 {
        "7"
    } else if d == 8 {
        "8"
    } else {
        "9"
    };
    assert(r@ =~= seq![digit_char(d as int)]);
    r
}

/// Appends the decimal digits of `n` to `s`.
pub fn push_dec(s: &mut String, n: u32)
    ensures
        final(s)@ == old(s)@ + dec_rep(n as int),
    decreases n,
{
    if n >= 10 {
        push_dec(s, n / 10);
    }
    let d = digit_str(n % 10);
    s.append(d);
    assert(s@ =~= old(s)@ + dec_rep(n as int));
}

/// Appends the decimal rendering of `n` to `s`, minus sign included.
pub fn push_i32(s: &mut String, n: i32)
    ensures
        final(s)@ == old(s)@ + int_str(n as int),
{
    if n < 0 {
        s.append("-");
        let m: u32 = (-(n as i64)) as u32;
        assert(m as int == -(n as int));
        push_dec(s, m);
        proof {
            reveal_strlit("-");
        }
        assert(s@ =~= old(s)@ + int_str(n as int));
    } else {
        push_dec(s, n as u32);
    }
}

/// Builds the display text of `e`.
pub fn render(e: &Expr) -> (r: String)
    ensures
        r@ == render_spec(*e),
{
    let mut s = String::new();
    match *e {
        Expr::Add(a, b) => {
            push_i32(&mut s, a);
            s.append(" + ");
            push_i32(&mut s, b);
            assert(s@ =~= render_spec(*e));
        },
        Expr::Sub(a, b) => {
            push_i32(&mut s, a);
            s.append(" - ");
            push_i32(&mut s, b);
            assert(s@ =~= render_spec(*e));
        },
        Expr::Mul(a, b) => {
            push_i32(&mut s, a);
            s.append(" * ");
            push_i32(&mut s, b);
            assert(s@ =~= render_spec(*e));
        },
        Expr::Div(a, b) => {
            push_i32(&mut s, a);
            s.append(" / ");
            push_i32(&mut s, b);
            assert(s@ =~= render_spec(*e));
        },
        Expr::MulParenSum(a, b, c) => {
            push_i32(&mut s, a);
            s.append(" * (");
            push_i32(&mut s, b);
            s.append(" + ");
            push_i32(&mut s, c);
            s.append(")");
            assert(s@ =~= render_spec(*e));
        },
        Expr::ParenSubDiv(a, b, c) => {
            s.append("(");
            push_i32(&mut s, a);
            s.append(" - ");
            push_i32(&mut s, b);
            s.append(") / ");
            push_i32(&mut s, c);
            assert(s@ =~= render_spec(*e));
        },
    }
    s
}

/// Truncating division on machine integers, for operands small enough that
/// no intermediate value overflows.
fn div_trunc(a: i32, b: i32) -> (r: i32)
    requires
        b != 0,
        -100000 <= a <= 100000,
        -100000 <= b <= 100000,
    ensures
        r as int == trunc_div(a as int, b as int),
{
    let an: u32 = if a < 0 {
        (-a) as u32
    } else {
        a as u32
    };
    let bn: u32 = if b < 0 {
        (-b) as u32
    } else {
        b as u32
    };
    assert(an as int == abs(a as int));
    assert(bn as int == abs(b as int));
    let q = an / bn;
    if (a < 0) != (b < 0) {
        -(q as i32)
    } else {
        q as i32
    }
}

/// Evaluates an expression, returning exactly `eval(*e)`.
pub fn eval_expr(e: &Expr) -> (r: i32)
    requires
        operands_small(*e),
    ensures
        r as int == eval(*e),
{
    match *e {
        Expr::Add(a, b) => a + b,
        Expr::Sub(a, b) => a - b,
        Expr::Mul(a, b) => {
            proof {
                assert(-100000000 <= a * b <= 100000000) by (nonlinear_arith)
                    requires
                        -10000 <= a <= 10000,
                        -10000 <= b <= 10000,
                ;
            }
            a * b
        },
        Expr::Div(a, b) => if b == 0 {
            0
        } else {
            div_trunc(a, b)
        },
        Expr::MulParenSum(a, b, c) => {
            proof {
                assert(-200000000 <= a * (b + c) <= 200000000) by (nonlinear_arith)
                    requires
                        -10000 <= a <= 10000,
                        -20000 <= b + c <= 20000,
                ;
            }
            a * (b + c)
        },
        Expr::ParenSubDiv(a, b, c) => if c == 0 {
            0
        } else {
            div_trunc(a - b, c)
        },
    }
}

} // verus!
