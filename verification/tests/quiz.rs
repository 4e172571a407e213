use math_quiz::problem::build_problem;
use math_quiz::quiz::MathQuizApp;

fn running_round() -> MathQuizApp {
    // 3 + 4, answer 7, simple.
    let p = build_problem(3, 4, 5, false, 0);
    let mut s = MathQuizApp::new_with_problem(p);
    s.start();
    s
}

fn next_problem() -> math_quiz::problem::Problem {
    // 2 - 2, answer 0, simple.
    build_problem(2, 2, 2, false, 1)
}

#[test]
fn fresh_round_has_initial_values() {
    let s = MathQuizApp::new();
    assert_eq!(s.score, 0);
    assert_eq!(s.correct_answers, 0);
    assert_eq!(s.wrong_answers, 0);
    assert_eq!(s.remaining_ms, 30000);
    assert!(!s.running);
    assert!(!s.game_over);
    assert_eq!(s.user_input, "");
    assert_eq!(s.feedback, "Press Start to begin!");
    assert!(!s.problem.is_pemdas);
}

#[test]
fn start_begins_the_countdown() {
    let p = build_problem(3, 4, 5, false, 0);
    let mut s = MathQuizApp::new_with_problem(p);
    s.start();
    assert!(s.running);
    assert!(!s.game_over);
    assert_eq!(s.feedback, "Solve the problems!");
    assert_eq!(s.remaining_ms, 30000);
}

#[test]
fn correct_answer_scores_one_and_grants_a_second() {
    let mut s = running_round();
    s.user_input = String::from("7");
    s.process_input();
    assert_eq!(s.score, 1);
    assert_eq!(s.correct_answers, 1);
    assert_eq!(s.wrong_answers, 0);
    assert_eq!(s.remaining_ms, 31000);
    assert_eq!(s.feedback, "Correct!");
    assert_eq!(s.user_input, "");
    // The replacement problem is drawn for the easy tier at score 1.
    assert!(!s.problem.is_pemdas);
}

#[test]
fn correct_answer_accepts_surrounding_whitespace() {
    let mut s = running_round();
    s.user_input = String::from("  7 \n");
    s.process_input_with(next_problem());
    assert_eq!(s.score, 1);
    assert_eq!(s.correct_answers, 1);
    assert_eq!(s.remaining_ms, 31000);
}

#[test]
fn compound_problem_scores_two() {
    // 3 * (4 + 5), answer 27, compound.
    let p = build_problem(3, 4, 5, true, 0);
    let mut s = MathQuizApp::new_with_problem(p);
    s.start();
    s.user_input = String::from("27");
    s.process_input_with(next_problem());
    assert_eq!(s.score, 2);
    assert_eq!(s.correct_answers, 1);
    assert_eq!(s.remaining_ms, 31000);
}

#[test]
fn wrong_number_penalizes_two_seconds() {
    let mut s = running_round();
    s.user_input = String::from("8");
    s.process_input_with(next_problem());
    assert_eq!(s.score, 0);
    assert_eq!(s.correct_answers, 0);
    assert_eq!(s.wrong_answers, 1);
    assert_eq!(s.remaining_ms, 28000);
    assert_eq!(s.feedback, "Wrong! The correct answer was 7.");
    assert_eq!(s.user_input, "");
}

#[test]
fn invalid_text_penalizes_like_a_wrong_answer() {
    let mut s = running_round();
    s.user_input = String::from("seven");
    s.process_input_with(next_problem());
    assert_eq!(s.score, 0);
    assert_eq!(s.wrong_answers, 1);
    assert_eq!(s.remaining_ms, 28000);
    assert_eq!(s.feedback, "Invalid input. Try again!");
}

#[test]
fn wrong_answer_feedback_shows_negative_answers() {
    // 7 - 9, answer -2.
    let p = build_problem(7, 9, 1, false, 1);
    let mut s = MathQuizApp::new_with_problem(p);
    s.start();
    s.user_input = String::from("2");
    s.process_input_with(next_problem());
    assert_eq!(s.feedback, "Wrong! The correct answer was -2.");
}

#[test]
fn submission_replaces_the_problem_and_clears_the_buffer() {
    let mut s = running_round();
    s.user_input = String::from("7");
    s.process_input_with(next_problem());
    assert_eq!(s.problem.text, "2 - 2");
    assert_eq!(s.problem.answer, 0);
    assert_eq!(s.user_input, "");
}

#[test]
fn submission_before_start_is_a_no_op() {
    let p = build_problem(3, 4, 5, false, 0);
    let mut s = MathQuizApp::new_with_problem(p);
    s.user_input = String::from("7");
    s.process_input();
    assert_eq!(s.score, 0);
    assert_eq!(s.correct_answers, 0);
    assert_eq!(s.user_input, "7");
    assert_eq!(s.problem.text, "3 + 4");
}

#[test]
fn tick_before_start_is_a_no_op() {
    let p = build_problem(3, 4, 5, false, 0);
    let mut s = MathQuizApp::new_with_problem(p);
    s.tick(5000);
    assert_eq!(s.remaining_ms, 30000);
    assert!(!s.game_over);
}

#[test]
fn tick_subtracts_elapsed_time() {
    let mut s = running_round();
    s.tick(500);
    assert_eq!(s.remaining_ms, 29500);
    s.tick(29499);
    assert_eq!(s.remaining_ms, 1);
    assert!(!s.game_over);
}

#[test]
fn tick_expiry_ends_the_round_once() {
    let mut s = running_round();
    s.tick(30000);
    assert!(s.game_over);
    assert!(!s.running);
    assert_eq!(s.remaining_ms, 30000);
    // Further events are no-ops until reset.
    s.tick(1000);
    assert_eq!(s.remaining_ms, 30000);
    assert!(s.game_over);
    s.user_input = String::from("7");
    s.process_input();
    assert_eq!(s.score, 0);
    assert_eq!(s.correct_answers, 0);
    assert_eq!(s.user_input, "7");
    s.start();
    assert!(!s.running);
    assert!(s.game_over);
}

#[test]
fn penalty_clamps_at_zero_then_any_tick_ends_the_round() {
    let mut s = running_round();
    s.tick(29000);
    assert_eq!(s.remaining_ms, 1000);
    s.user_input = String::from("8");
    s.process_input_with(next_problem());
    assert_eq!(s.remaining_ms, 0);
    assert!(!s.game_over);
    s.tick(1);
    assert!(s.game_over);
    assert!(!s.running);
}

#[test]
fn reset_restores_a_fresh_round() {
    let mut s = running_round();
    s.user_input = String::from("7");
    s.process_input();
    s.tick(40000);
    assert!(s.game_over);
    s.reset();
    assert_eq!(s.score, 0);
    assert_eq!(s.correct_answers, 0);
    assert_eq!(s.wrong_answers, 0);
    assert_eq!(s.remaining_ms, 30000);
    assert!(!s.running);
    assert!(!s.game_over);
    assert_eq!(s.user_input, "");
    assert_eq!(s.feedback, "Press Start to begin!");
    assert!(!s.problem.is_pemdas);
}

#[test]
fn start_is_a_no_op_while_running() {
    let mut s = running_round();
    s.tick(500);
    s.start();
    assert_eq!(s.remaining_ms, 29500);
    assert_eq!(s.feedback, "Solve the problems!");
}

#[test]
fn a_full_round_of_mixed_answers() {
    let mut s = running_round();
    // Wrong, then correct, then invalid.
    s.user_input = String::from("0");
    s.process_input_with(build_problem(6, 7, 1, false, 3));  // 42 / 7
    assert_eq!(s.remaining_ms, 28000);
    assert_eq!(s.score, 0);
    s.user_input = String::from("6");
    s.process_input_with(build_problem(5, 3, 0, true, 1));  // (5 - 3) / 0
    assert_eq!(s.remaining_ms, 29000);
    assert_eq!(s.score, 1);
    s.user_input = String::from("0");
    s.process_input_with(next_problem());
    // The degenerate zero-divisor compound still has answer 0 and doubles.
    assert_eq!(s.score, 3);
    assert_eq!(s.correct_answers, 2);
    assert_eq!(s.wrong_answers, 1);
    assert_eq!(s.remaining_ms, 30000);
}
