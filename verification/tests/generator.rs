use math_quiz::expr::{eval_expr, render, Expr};
use math_quiz::problem::{build_problem, generate_problem};

#[test]
fn build_addition() {
    let p = build_problem(3, 4, 5, false, 0);
    assert_eq!(p.text, "3 + 4");
    assert_eq!(p.answer, 7);
    assert!(!p.is_pemdas);
}

#[test]
fn build_subtraction_may_go_negative() {
    let p = build_problem(7, 9, 1, false, 1);
    assert_eq!(p.text, "7 - 9");
    assert_eq!(p.answer, -2);
    assert!(!p.is_pemdas);
}

#[test]
fn build_multiplication() {
    let p = build_problem(6, 7, 1, false, 2);
    assert_eq!(p.text, "6 * 7");
    assert_eq!(p.answer, 42);
    assert!(!p.is_pemdas);
}

#[test]
fn build_division_is_exact() {
    let p = build_problem(6, 7, 1, false, 3);
    assert_eq!(p.text, "42 / 7");
    assert_eq!(p.answer, 6);
    assert!(!p.is_pemdas);
}

#[test]
fn build_division_zero_divisor_falls_back_to_addition() {
    let p = build_problem(6, 0, 1, false, 3);
    assert_eq!(p.text, "6 + 1");
    assert_eq!(p.answer, 7);
    assert!(!p.is_pemdas);
}

#[test]
fn build_multiply_over_sum() {
    let p = build_problem(3, 4, 5, true, 0);
    assert_eq!(p.text, "3 * (4 + 5)");
    assert_eq!(p.answer, 27);
    assert!(p.is_pemdas);
}

#[test]
fn build_difference_over_divide_truncates() {
    let p = build_problem(7, 2, 3, true, 1);
    assert_eq!(p.text, "(10 - 2) / 3");
    assert_eq!(p.answer, 2);
    assert!(p.is_pemdas);
}

#[test]
fn build_difference_over_divide_negative_truncates_toward_zero() {
    let p = build_problem(1, 5, 2, true, 1);
    assert_eq!(p.text, "(3 - 5) / 2");
    assert_eq!(p.answer, -1);
    assert!(p.is_pemdas);
}

#[test]
fn build_difference_over_divide_zero_divisor_answer_is_zero() {
    let p = build_problem(5, 3, 0, true, 1);
    assert_eq!(p.text, "(5 - 3) / 0");
    assert_eq!(p.answer, 0);
    assert!(p.is_pemdas);
}

#[test]
fn every_built_problem_evaluates_to_its_answer() {
    for n1 in 0..=12 {
        for n2 in 0..=12 {
            for n3 in 0..=12 {
                for op in 0..=3 {
                    let p = build_problem(n1, n2, n3, false, op);
                    assert_eq!(eval_expr(&p.expr), p.answer, "{}", p.text);
                    assert_eq!(render(&p.expr), p.text);
                }
                for op in 0..=1 {
                    let p = build_problem(n1, n2, n3, true, op);
                    assert_eq!(eval_expr(&p.expr), p.answer, "{}", p.text);
                    assert_eq!(render(&p.expr), p.text);
                }
            }
        }
    }
}

#[test]
fn render_negative_operands() {
    assert_eq!(render(&Expr::Sub(-5, 3)), "-5 - 3");
    assert_eq!(render(&Expr::Add(-10, -2)), "-10 + -2");
    assert_eq!(render(&Expr::Div(-100, 9)), "-100 / 9");
}

#[test]
fn rendering_agrees_with_std_formatting() {
    for a in -250..=250 {
        let p = format!("{} * {}", a, -a);
        assert_eq!(render(&Expr::Mul(a, -a)), p);
    }
    assert_eq!(
        render(&Expr::Mul(i32::MAX, i32::MIN)),
        format!("{} * {}", i32::MAX, i32::MIN)
    );
}

fn operand_bounds(e: &Expr, max: i32) {
    match *e {
        Expr::Add(a, b) => {
            assert!(1 <= a && a <= max);
            assert!(1 <= b && b <= max);
        }
        Expr::Sub(a, b) => {
            assert!(1 <= a && a <= max);
            assert!(1 <= b && b <= max);
        }
        Expr::Mul(a, b) => {
            assert!(1 <= a && a <= max);
            assert!(1 <= b && b <= max);
        }
        Expr::Div(a, b) => {
            assert!(1 <= b && b <= max);
            assert_eq!(a % b, 0);
            assert!(1 <= a / b && a / b <= max);
        }
        Expr::MulParenSum(a, b, c) => {
            assert!(1 <= a && a <= max);
            assert!(1 <= b && b <= max);
            assert!(1 <= c && c <= max);
        }
        Expr::ParenSubDiv(a, b, c) => {
            assert!(1 <= b && b <= max);
            assert!(1 <= c && c <= max);
            assert!(2 <= a && a <= 2 * max);
        }
    }
}

#[test]
fn easy_tier_operands_in_range_and_never_compound() {
    for _ in 0..300 {
        let p = generate_problem(0);
        assert!(!p.is_pemdas);
        assert!(!matches!(p.expr, Expr::MulParenSum(..) | Expr::ParenSubDiv(..)));
        operand_bounds(&p.expr, 10);
        assert_eq!(eval_expr(&p.expr), p.answer);
        assert_eq!(render(&p.expr), p.text);
    }
}

#[test]
fn middle_tier_operands_in_range() {
    for _ in 0..300 {
        let p = generate_problem(5);
        operand_bounds(&p.expr, 20);
        assert_eq!(eval_expr(&p.expr), p.answer);
        assert_eq!(render(&p.expr), p.text);
    }
}

#[test]
fn top_tier_operands_in_range() {
    for _ in 0..300 {
        let p = generate_problem(10);
        operand_bounds(&p.expr, 50);
        assert_eq!(eval_expr(&p.expr), p.answer);
        assert_eq!(render(&p.expr), p.text);
    }
}

#[test]
fn compound_problems_appear_above_the_easy_tier() {
    let mut seen_compound = false;
    let mut seen_simple = false;
    for _ in 0..2000 {
        let p = generate_problem(10);
        if p.is_pemdas {
            seen_compound = true;
        } else {
            seen_simple = true;
        }
    }
    assert!(seen_compound);
    assert!(seen_simple);
}
