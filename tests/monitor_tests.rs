use survon_installer::monitor::{install_args, Action, Event, Monitor, Stage};
use survon_installer::session::{Move, Phase, SessionState};

fn started() -> (Monitor, SessionState) {
    let mut s = SessionState::new();
    s.confirm();
    let mut m = Monitor::new();
    assert_eq!(m.action(), Action::AwaitSpawn);
    assert_eq!(m.step(&mut s, Event::Spawned), Action::ReadLine);
    (m, s)
}

fn line(t: &str) -> Event {
    Event::Line(t.to_string())
}

#[test]
fn two_progress_lines_then_success() {
    let (mut m, mut s) = started();
    assert_eq!(m.step(&mut s, line("PROGRESS:Step 1/7: Fetching")), Action::ReadLine);
    assert_eq!(s.current_step, "Step 1/7: Fetching");
    assert_eq!(m.step(&mut s, line("PROGRESS:Step 2/7: Extracting")), Action::ReadLine);
    assert_eq!(m.step(&mut s, Event::StreamClosed), Action::AwaitExit);
    assert_eq!(m.step(&mut s, Event::Exited(0)), Action::Stop);
    assert_eq!(s.phase, Phase::Done);
    assert_eq!(s.current_step, "Step 2/7: Extracting");
}

#[test]
fn error_line_fails_and_exit_keeps_it() {
    let (mut m, mut s) = started();
    m.step(&mut s, line("PROGRESS:Step 1/7: Fetching"));
    assert_eq!(m.step(&mut s, line("ERROR:disk full")), Action::ReadLine);
    assert_eq!(m.stage, Stage::Draining);
    assert_eq!(s.phase, Phase::Failed);
    assert!(s.current_step.contains("disk full"));
    assert_eq!(m.step(&mut s, line("PROGRESS:Step 2/7: Extracting")), Action::ReadLine);
    assert_eq!(m.step(&mut s, Event::StreamClosed), Action::AwaitExit);
    assert_eq!(m.step(&mut s, Event::Exited(1)), Action::Stop);
    assert_eq!(s.phase, Phase::Failed);
    assert_eq!(s.current_step, "disk full");
}

#[test]
fn spawn_failure_fails_without_progress() {
    let mut s = SessionState::new();
    s.confirm();
    let mut m = Monitor::new();
    let a = m.step(&mut s, Event::SpawnFailed("cannot launch installer: not found".to_string()));
    assert_eq!(a, Action::Stop);
    assert_eq!(s.phase, Phase::Failed);
    assert_eq!(s.current_step, "cannot launch installer: not found");
    assert_eq!(m.step(&mut s, line("PROGRESS:Step 1/7")), Action::Stop);
    assert_eq!(m.step(&mut s, Event::Exited(0)), Action::Stop);
    assert_eq!(s.phase, Phase::Failed);
    assert_eq!(s.current_step, "cannot launch installer: not found");
}

#[test]
fn unknown_lines_are_dropped() {
    let (mut m, mut s) = started();
    m.step(&mut s, line("PROGRESS:Step 1/7: Fetching"));
    m.step(&mut s, line("downloading 42%"));
    m.step(&mut s, line("progress:lowercase"));
    assert_eq!(s.current_step, "Step 1/7: Fetching");
    assert_eq!(s.phase, Phase::Installing);
}

#[test]
fn stream_failure_fails_then_waits_for_exit() {
    let (mut m, mut s) = started();
    assert_eq!(m.step(&mut s, Event::StreamFailed("broken pipe".to_string())), Action::AwaitExit);
    assert_eq!(s.phase, Phase::Failed);
    assert_eq!(s.current_step, "broken pipe");
    m.step(&mut s, Event::Exited(2));
    assert_eq!(s.current_step, "broken pipe");
}

#[test]
fn nonzero_exit_without_error_line_fails() {
    let (mut m, mut s) = started();
    m.step(&mut s, line("PROGRESS:Step 1/7: Fetching"));
    m.step(&mut s, Event::StreamClosed);
    m.step(&mut s, Event::Exited(4));
    assert_eq!(s.phase, Phase::Failed);
    assert_eq!(s.current_step, "process exited with code 4");
}

#[test]
fn exit_is_delivered_once() {
    let (mut m, mut s) = started();
    m.step(&mut s, Event::StreamClosed);
    m.step(&mut s, Event::Exited(0));
    assert_eq!(s.phase, Phase::Done);
    assert_eq!(m.step(&mut s, Event::Exited(5)), Action::Stop);
    assert_eq!(s.phase, Phase::Done);
}

#[test]
fn exit_before_end_of_output_is_not_taken() {
    let (mut m, mut s) = started();
    assert_eq!(m.step(&mut s, Event::Exited(0)), Action::ReadLine);
    assert_eq!(s.phase, Phase::Installing);
}

#[test]
fn arguments_for_each_variant() {
    let mut s = SessionState::new();
    s.confirm();
    assert_eq!(install_args(&s), vec!["--version", "master", "--model=1"]);
    let mut r = SessionState::new();
    r.navigate(Move::Down);
    r.confirm();
    assert_eq!(install_args(&r), vec!["--version", "v1.0", "--model=1"]);
    let mut c = SessionState::new();
    c.navigate(Move::Down);
    c.navigate(Move::Down);
    c.confirm();
    c.submit_custom_url(" http://host/m.bin ");
    assert_eq!(install_args(&c), vec!["--version", "custom-tag", "--custom-url=http://host/m.bin"]);
}
