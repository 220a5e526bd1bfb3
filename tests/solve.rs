use fabrik::{plan_move, solve_step, MovePlan, SolveStep, MAX_ITERATIONS};

#[test]
fn reachable_target_is_solved_directly() {
    assert_eq!(plan_move(true, true), MovePlan::Reach);
    assert_eq!(plan_move(true, false), MovePlan::Reach);
}

#[test]
fn unreachable_target_is_extended_towards_on_request() {
    assert_eq!(plan_move(false, true), MovePlan::Extend);
}

#[test]
fn unreachable_target_without_trying_leaves_chain_alone() {
    assert_eq!(plan_move(false, false), MovePlan::Stay);
}

#[test]
fn already_reached_target_takes_no_iteration() {
    assert_eq!(solve_step(0, true), SolveStep::Converged(0));
}

#[test]
fn convergence_reports_iterations_done() {
    assert_eq!(solve_step(249, true), SolveStep::Converged(249));
}

#[test]
fn far_effector_runs_another_iteration() {
    assert_eq!(solve_step(0, false), SolveStep::Correct(1));
    assert_eq!(solve_step(249, false), SolveStep::Correct(250));
    assert_eq!(solve_step(MAX_ITERATIONS - 1, false), SolveStep::Correct(MAX_ITERATIONS));
}

#[test]
fn loop_gives_up_at_bound() {
    assert_eq!(solve_step(MAX_ITERATIONS, false), SolveStep::GaveUp(MAX_ITERATIONS));
    assert_eq!(solve_step(MAX_ITERATIONS, true), SolveStep::Converged(MAX_ITERATIONS));
}

#[test]
fn counted_loop_stops_within_bound() {
    let mut done: usize = 0;
    let mut sweeps: usize = 0;
    let result = loop {
        match solve_step(done, false) {
            SolveStep::Correct(n) => {
                done = n;
                sweeps += 1;
            }
            other => break other,
        }
    };
    assert_eq!(result, SolveStep::GaveUp(MAX_ITERATIONS));
    assert_eq!(sweeps, MAX_ITERATIONS);
}
