//! Problem generation.
//!
//! `build_problem` is the deterministic core: it turns the three drawn
//! operands and the two choice draws into a `Problem` with an exact
//! contract, so tests and callers can feed it a fixed sequence of draws.
//! `generate_problem` draws through the trusted `rand` wrappers and is
//! verified for every outcome the draws admit.

use vstd::prelude::*;
use crate::expr::{Expr, eval, is_compound_expr, operands_small, render_spec, render, eval_expr};
use crate::rng::{fresh_rng, rng_range, rng_ratio};

verus! {

/// An arithmetic problem as the quiz poses it: the expression, its display
/// text, its exact integer answer, and whether it needs order of
/// operations (and therefore scores double).
pub struct Problem {
    pub expr: Expr,
    pub text: String,
    pub answer: i32,
    pub is_pemdas: bool,
}

impl Problem {
    /// The answer is the exact value of the expression, the text renders
    /// it, the compound flag matches its shape, and its operands are small.
    pub open spec fn wf(self) -> bool {
        &&& self.answer as int == eval(self.expr)
        &&& self.text@ == render_spec(self.expr)
        &&& self.is_pemdas == is_compound_expr(self.expr)
        &&& operands_small(self.expr)
    }
}

/// The largest operand of the difficulty tier that `score` selects.
pub open spec fn tier_max(score: int) -> int {
    if score < 5 {
        10
    } else if score < 10 {
        20
    } else {
        50
    }
}

/// Compound (order-of-operations) expressions are offered from the middle
/// tier up.
pub open spec fn compound_eligible(score: int) -> bool {
    score >= 5
}

/// The expression built from the three drawn operands and the choice
/// draws. A compound draw picks between multiply-over-sum and
/// difference-over-divide; a simple draw picks among the four operators,
/// where division multiplies the dividend out so the answer stays exact,
/// falling back to an addition when the divisor drawn is zero.
pub open spec fn chosen_expr(n1: i32, n2: i32, n3: i32, compound: bool, op: i32) -> Expr {
    if compound {
        if op == 0 {
            Expr::MulParenSum(n1, n2, n3)
        } else {
            Expr::ParenSubDiv((n1 + n3) as i32, n2, n3)
        }
    } else {
        if op == 0 {
            Expr::Add(n1, n2)
        } else if op == 1 {
            Expr::Sub(n1, n2)
        } else if op == 2 {
            Expr::Mul(n1, n2)
        } else if n2 != 0 {
            Expr::Div((n1 * n2) as i32, n2)
        } else {
            Expr::Add(n1, 1)
        }
    }
}

/// The draws that produce `p` under the tier of `score`: operands inside
/// the tier's range, a compound form only when the tier is eligible.
pub open spec fn tier_draw(
    p: Problem,
    score: int,
    n1: i32,
    n2: i32,
    n3: i32,
    compound: bool,
    op: i32,
) -> bool {
    &&& 1 <= n1 <= tier_max(score)
    &&& 1 <= n2 <= tier_max(score)
    &&& 1 <= n3 <= tier_max(score)
    &&& compound ==> compound_eligible(score) && 0 <= op <= 1
    &&& !compound ==> 0 <= op <= 3
    &&& p.expr == chosen_expr(n1, n2, n3, compound, op)
    &&& p.is_pemdas == compound
}

/// `p` is a problem the generator can produce at `score`.
pub open spec fn problem_from_tier(p: Problem, score: int) -> bool {
    exists|n1: i32, n2: i32, n3: i32, compound: bool, op: i32|
        tier_draw(p, score, n1, n2, n3, compound, op)
}

/// Builds the problem the given draws describe. This is the whole
/// generator except the drawing itself: the answer is proved equal to the
/// value of the expression for every admissible draw, the zero-divisor
/// fallbacks included.
pub fn build_problem(n1: i32, n2: i32, n3: i32, compound: bool, op: i32) -> (p: Problem)
    requires
        0 <= n1 <= 50,
        0 <= n2 <= 50,
        0 <= n3 <= 50,
        compound ==> 0 <= op <= 1,
        !compound ==> 0 <= op <= 3,
    ensures
        p.wf(),
        p.expr == chosen_expr(n1, n2, n3, compound, op),
        p.is_pemdas == compound,
{
    proof {
        assert(0 <= n1 * n2 <= 2500) by (nonlinear_arith)
            requires
                0 <= n1 <= 50,
                0 <= n2 <= 50,
        ;
    }
    let e: Expr = if compound {
        if op == 0 {
            Expr::MulParenSum(n1, n2, n3)
        } else {
            Expr::ParenSubDiv(n1 + n3, n2, n3)
        }
    } else {
        if op == 0 {
            Expr::Add(n1, n2)
        } else if op == 1 {
            Expr::Sub(n1, n2)
        } else if op == 2 {
            Expr::Mul(n1, n2)
        } else if n2 != 0 {
            Expr::Div(n1 * n2, n2)
        } else {
            Expr::Add(n1, 1)
        }
    };
    let answer = eval_expr(&e);
    let text = render(&e);
    Problem { expr: e, text, answer, is_pemdas: compound }
}

/// Draws a fresh problem for the tier that `score` selects. Which problem
/// comes back depends on the generator; that it is well formed, drawn
/// inside the tier's range, and compound only when the tier allows it,
/// holds of every outcome.
pub fn generate_problem(score: i32) -> (p: Problem)
    ensures
        p.wf(),
        problem_from_tier(p, score as int),
        score < 5 ==> !p.is_pemdas,
{
    let mut rng = fresh_rng();
    let hi: i32 = if score < 5 {
        10
    } else if score < 10 {
        20
    } else {
        50
    };
    assert(hi as int == tier_max(score as int));
    let n1 = rng_range(&mut rng, 1, hi);
    let n2 = rng_range(&mut rng, 1, hi);
    let n3 = rng_range(&mut rng, 1, hi);
    let compound = score >= 5 && rng_ratio(&mut rng, 3, 10);
    let op = if compound {
        rng_range(&mut rng, 0, 1)
    } else {
        rng_range(&mut rng, 0, 3)
    };
    let p = build_problem(n1, n2, n3, compound, op);
    assert(tier_draw(p, score as int, n1, n2, n3, compound, op));
    p
}

/// Below the middle tier the generator never produces a compound problem.
pub proof fn lemma_easy_tier_is_simple(p: Problem, score: int)
    requires
        problem_from_tier(p, score),
        score < 5,
    ensures
        !p.is_pemdas,
        !is_compound_expr(p.expr),
{
    let (n1, n2, n3, compound, op) = choose|n1: i32, n2: i32, n3: i32, compound: bool, op: i32|
        tier_draw(p, score, n1, n2, n3, compound, op);
    assert(tier_draw(p, score, n1, n2, n3, compound, op));
}

/// Every operand stored in a generated expression is bounded by the tier's
/// range: the drawn operands themselves lie in it, the multiplied-out
/// dividend by its square, and the summed left operand by its double. In
/// particular no generated division has a zero divisor.
pub proof fn lemma_tier_operand_bounds(p: Problem, score: int)
    requires
        problem_from_tier(p, score),
    ensures
        match p.expr {
            Expr::Add(a, b) => 1 <= a <= tier_max(score) && 1 <= b <= tier_max(score),
            Expr::Sub(a, b) => 1 <= a <= tier_max(score) && 1 <= b <= tier_max(score),
            Expr::Mul(a, b) => 1 <= a <= tier_max(score) && 1 <= b <= tier_max(score),
            Expr::Div(a, b) => 1 <= a <= tier_max(score) * tier_max(score) && 1 <= b <= tier_max(
                score,
            ),
            Expr::MulParenSum(a, b, c) => 1 <= a <= tier_max(score) && 1 <= b <= tier_max(score)
                && 1 <= c <= tier_max(score),
            Expr::ParenSubDiv(a, b, c) => 2 <= a <= 2 * tier_max(score) && 1 <= b <= tier_max(score)
                && 1 <= c <= tier_max(score),
        },
{
    let (n1, n2, n3, compound, op) = choose|n1: i32, n2: i32, n3: i32, compound: bool, op: i32|
        tier_draw(p, score, n1, n2, n3, compound, op);
    assert(tier_draw(p, score, n1, n2, n3, compound, op));
    if !compound && op == 3 && n2 != 0 {
        assert(1 <= n1 * n2 <= tier_max(score) * tier_max(score)) by (nonlinear_arith)
            requires
                1 <= n1 <= tier_max(score),
                1 <= n2 <= tier_max(score),
        ;
    }
}

} // verus!
