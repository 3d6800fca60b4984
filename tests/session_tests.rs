use survon_installer::session::{Move, Phase, SessionState, CUSTOM, LATEST, RELEASE};

fn installing() -> SessionState {
    let mut s = SessionState::new();
    s.confirm();
    assert_eq!(s.phase, Phase::Installing);
    s
}

#[test]
fn new_session_starts_selecting_first_variant() {
    let s = SessionState::new();
    assert_eq!(s.selected, LATEST);
    assert_eq!(s.phase, Phase::Selecting);
    assert_eq!(s.custom_url, "");
    assert_eq!(s.current_step, "");
}

#[test]
fn navigation_clamps_at_both_ends() {
    let mut s = SessionState::new();
    s.navigate(Move::Up);
    assert_eq!(s.selected, 0);
    s.navigate(Move::Down);
    assert_eq!(s.selected, 1);
    s.navigate(Move::Down);
    assert_eq!(s.selected, 2);
    s.navigate(Move::Down);
    assert_eq!(s.selected, 2);
    s.navigate(Move::Up);
    assert_eq!(s.selected, 1);
}

#[test]
fn navigation_sequence_moves_at_most_one_step() {
    let moves = [Move::Down, Move::Down, Move::Down, Move::Up, Move::Up, Move::Up, Move::Up, Move::Down];
    let mut s = SessionState::new();
    for m in moves {
        let before = s.selected as i64;
        s.navigate(m);
        assert!(s.selected <= 2);
        assert!((s.selected as i64 - before).abs() <= 1);
    }
    assert_eq!(s.selected, 1);
}

#[test]
fn navigation_ignored_outside_selecting() {
    let mut s = installing();
    s.navigate(Move::Down);
    assert_eq!(s.selected, 0);
}

#[test]
fn confirm_custom_without_url_prompts() {
    let mut s = SessionState::new();
    s.navigate(Move::Down);
    s.navigate(Move::Down);
    s.confirm();
    assert_eq!(s.phase, Phase::AwaitingCustomInput);
    assert_eq!(s.model_choice, CUSTOM);
}

#[test]
fn confirm_release_installs() {
    let mut s = SessionState::new();
    s.navigate(Move::Down);
    s.confirm();
    assert_eq!(s.phase, Phase::Installing);
    assert_eq!(s.model_choice, RELEASE);
    s.navigate(Move::Down);
    s.confirm();
    assert_eq!(s.model_choice, RELEASE);
}

fn prompting() -> SessionState {
    let mut s = SessionState::new();
    s.navigate(Move::Down);
    s.navigate(Move::Down);
    s.confirm();
    s
}

#[test]
fn empty_and_blank_urls_are_refused() {
    let mut s = prompting();
    s.submit_custom_url("");
    assert_eq!(s.phase, Phase::AwaitingCustomInput);
    s.submit_custom_url("   ");
    assert_eq!(s.phase, Phase::AwaitingCustomInput);
    s.submit_custom_url(" \n\t ");
    assert_eq!(s.phase, Phase::AwaitingCustomInput);
    assert_eq!(s.custom_url, "");
}

#[test]
fn url_is_trimmed_and_install_starts() {
    let mut s = prompting();
    s.submit_custom_url("  https://example.org/model.gguf \n");
    assert_eq!(s.phase, Phase::Installing);
    assert_eq!(s.custom_url, "https://example.org/model.gguf");
}

#[test]
fn submit_ignored_while_selecting() {
    let mut s = SessionState::new();
    s.submit_custom_url("http://x");
    assert_eq!(s.phase, Phase::Selecting);
    assert_eq!(s.custom_url, "");
}

#[test]
fn progress_replaces_current_step() {
    let mut s = installing();
    s.on_progress("Step 1/7: Fetching");
    s.on_progress("Step 2/7: Extracting");
    assert_eq!(s.current_step, "Step 2/7: Extracting");
    assert_eq!(s.phase, Phase::Installing);
}

#[test]
fn progress_ignored_while_selecting() {
    let mut s = SessionState::new();
    s.on_progress("Step 1/7");
    assert_eq!(s.current_step, "");
}

#[test]
fn error_fails_and_exit_keeps_message() {
    let mut s = installing();
    s.on_error("disk full");
    assert_eq!(s.phase, Phase::Failed);
    s.on_exit(1);
    assert_eq!(s.phase, Phase::Failed);
    assert_eq!(s.current_step, "disk full");
}

#[test]
fn exit_zero_is_done() {
    let mut s = installing();
    s.on_progress("Step 7/7: Finished");
    s.on_exit(0);
    assert_eq!(s.phase, Phase::Done);
    assert_eq!(s.current_step, "Step 7/7: Finished");
}

#[test]
fn nonzero_exit_names_the_code() {
    let mut s = installing();
    s.on_exit(127);
    assert_eq!(s.phase, Phase::Failed);
    assert_eq!(s.current_step, "process exited with code 127");
    let mut t = installing();
    t.on_exit(-9);
    assert_eq!(t.current_step, "process exited with code -9");
    let mut u = installing();
    u.on_exit(i32::MIN);
    assert_eq!(u.current_step, "process exited with code -2147483648");
}

#[test]
fn done_is_terminal() {
    let mut s = installing();
    s.on_exit(0);
    s.on_error("late");
    s.on_exit(3);
    assert_eq!(s.phase, Phase::Done);
    assert_eq!(s.current_step, "");
}

#[test]
fn quit_only_while_selecting() {
    let s = SessionState::new();
    assert!(s.quit());
    let t = installing();
    assert!(!t.quit());
    let u = prompting();
    assert!(!u.quit());
}
