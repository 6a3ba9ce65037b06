use process_utils::live::Action;
use process_utils::live::Event;
use process_utils::live::LiveRun;
use process_utils::live::Phase;
use process_utils::live::Stream;
use process_utils::process::ExitStatus;
use process_utils::process::ProcessOutput;

fn begun(cmd: &str) -> LiveRun {
    let (run, action) = LiveRun::start(cmd);
    assert!(matches!(action, Action::Spawn));
    assert_eq!(run.phase(), Phase::Spawning);
    let (run, action) = run.step(Event::Spawned { stdout: true, stderr: true });
    assert!(matches!(action, Action::ReadLine { stdout: true, stderr: true }));
    assert_eq!(run.phase(), Phase::Reading);
    run
}

fn failure(action: Action) -> String {
    match action {
        Action::Finish { result: Err(error) } => error.to_string(),
        other => panic!("no failure: {:?}", other),
    }
}

fn waited(code: Option<i32>, stdout: &str, stderr: &str) -> Event {
    Event::Waited {
        output: ProcessOutput {
            status: ExitStatus::from_code(code),
            stdout: stdout.as_bytes().to_vec(),
            stderr: stderr.as_bytes().to_vec(),
        },
    }
}

#[test]
fn a_line_is_buffered_with_a_newline_and_offered_to_the_filter_as_it_is() {
    let run = begun("cmd");
    let (run, action) = run.step(Event::Line { stream: Stream::Stdout, text: "hello".to_owned() });
    match action {
        Action::Filter { line } => assert_eq!(line, "hello"),
        other => panic!("unexpected {:?}", other),
    }
    assert_eq!(run.buffer(), "hello\n");
    assert_eq!(run.phase(), Phase::Filtering);
}

#[test]
fn what_the_filter_renders_is_echoed_and_then_liveness_is_checked() {
    let run = begun("cmd");
    let (run, _) = run.step(Event::Line { stream: Stream::Stderr, text: "x".to_owned() });
    let (run, action) = run.step(Event::Filtered { rendered: Some(".".to_owned()) });
    match action {
        Action::Echo { text } => assert_eq!(text, "."),
        other => panic!("unexpected {:?}", other),
    }
    let (run, action) = run.step(Event::Flushed);
    assert!(matches!(action, Action::CheckExit));
    assert_eq!(run.phase(), Phase::Polling);
}

#[test]
fn a_silent_filter_leads_straight_to_the_liveness_check() {
    let run = begun("cmd");
    let (run, _) = run.step(Event::Line { stream: Stream::Stdout, text: "x".to_owned() });
    let (_run, action) = run.step(Event::Filtered { rendered: None });
    assert!(matches!(action, Action::CheckExit));
}

#[test]
fn reading_goes_on_after_exit_while_a_stream_is_open() {
    let run = begun("cmd");
    let (run, _) = run.step(Event::EndOfStream { stream: Stream::Stdout });
    let (run, action) = run.step(Event::Exited);
    assert!(matches!(action, Action::ReadLine { stdout: false, stderr: true }));
    let (run, _) = run.step(Event::Line { stream: Stream::Stderr, text: "late".to_owned() });
    let (run, _) = run.step(Event::Filtered { rendered: None });
    let (run, action) = run.step(Event::Running);
    assert!(matches!(action, Action::ReadLine { stdout: false, stderr: true }));
    let (run, action) = run.step(Event::EndOfStream { stream: Stream::Stderr });
    assert!(matches!(action, Action::CheckExit));
    let (run, action) = run.step(Event::Running);
    assert!(matches!(action, Action::WaitForExit));
    let (run, action) = run.step(waited(Some(0), "", ""));
    match action {
        Action::Finish { result: Ok((status, text)) } => {
            assert!(status.success());
            assert_eq!(text, "late\n");
        }
        other => panic!("unexpected {:?}", other),
    }
    assert_eq!(run.phase(), Phase::Done);
}

#[test]
fn both_streams_ended_is_not_yet_the_end() {
    let run = begun("cmd");
    let (run, _) = run.step(Event::EndOfStream { stream: Stream::Stdout });
    let (run, action) = run.step(Event::Running);
    assert!(matches!(action, Action::ReadLine { stdout: false, stderr: true }));
    let (run, _) = run.step(Event::EndOfStream { stream: Stream::Stderr });
    let (run, action) = run.step(Event::Running);
    assert!(matches!(action, Action::CheckExit));
    let (run, action) = run.step(Event::Running);
    assert!(matches!(action, Action::CheckExit));
    assert_eq!(run.phase(), Phase::Polling);
    let (run, action) = run.step(Event::Exited);
    assert!(matches!(action, Action::WaitForExit));
    let (_run, action) = run.step(waited(Some(42), "", ""));
    match action {
        Action::Finish { result: Ok((status, text)) } => {
            assert_eq!(status.code, Some(42));
            assert_eq!(text, "");
        }
        other => panic!("unexpected {:?}", other),
    }
}

#[test]
fn what_the_final_wait_collected_goes_behind_the_lines() {
    let run = begun("cmd");
    let (run, _) = run.step(Event::Line { stream: Stream::Stdout, text: "a".to_owned() });
    let (run, _) = run.step(Event::Filtered { rendered: None });
    let (run, _) = run.step(Event::Exited);
    let (run, _) = run.step(Event::EndOfStream { stream: Stream::Stdout });
    let (run, _) = run.step(Event::Exited);
    let (run, _) = run.step(Event::EndOfStream { stream: Stream::Stderr });
    let (run, action) = run.step(Event::Exited);
    assert!(matches!(action, Action::WaitForExit));
    let (_run, action) = run.step(waited(Some(1), "rest", "more"));
    match action {
        Action::Finish { result: Ok((status, text)) } => {
            assert_eq!(status.code, Some(1));
            assert_eq!(text, "a\nrestmore");
        }
        other => panic!("unexpected {:?}", other),
    }
}

#[test]
fn spawn_failure_names_the_command_and_keeps_the_cause() {
    let (run, _) = LiveRun::start("nix");
    let (run, action) = run.step(Event::SpawnFailed { cause: "NotFound".to_owned() });
    assert_eq!(failure(action), "Failed to spawn command 'nix'\n  caused by: NotFound");
    assert_eq!(run.phase(), Phase::Done);
}

#[test]
fn a_missing_pipe_is_a_failure_without_cause() {
    let (run, _) = LiveRun::start("nix");
    let (_, action) = run.step(Event::Spawned { stdout: false, stderr: true });
    assert_eq!(failure(action), "Could not take stdout for process 'nix' to exit");
    let (run, _) = LiveRun::start("nix");
    let (_, action) = run.step(Event::Spawned { stdout: true, stderr: false });
    assert_eq!(failure(action), "Could not take stderr for process 'nix' to exit");
    let (run, _) = LiveRun::start("nix");
    let (_, action) = run.step(Event::Spawned { stdout: false, stderr: false });
    assert_eq!(failure(action), "Could not take stdout for process 'nix' to exit");
}

#[test]
fn a_failed_read_ends_the_run_at_once() {
    let run = begun("nix");
    let (run, action) = run.step(Event::ReadFailed { stream: Stream::Stdout, cause: "broken".to_owned() });
    assert_eq!(failure(action), "Could not read next line from stdout for process 'nix'\n  caused by: broken");
    assert_eq!(run.phase(), Phase::Done);
    let run = begun("nix");
    let (_, action) = run.step(Event::ReadFailed { stream: Stream::Stderr, cause: "broken".to_owned() });
    assert_eq!(failure(action), "Could not read next line from stderr for process 'nix'\n  caused by: broken");
}

#[test]
fn a_failed_flush_ends_the_run() {
    let run = begun("nix");
    let (run, _) = run.step(Event::Line { stream: Stream::Stdout, text: "x".to_owned() });
    let (run, _) = run.step(Event::Filtered { rendered: Some("x".to_owned()) });
    let (_, action) = run.step(Event::FlushFailed { cause: "closed".to_owned() });
    assert_eq!(failure(action), "Failed to flush output buffer of 'nix'\n  caused by: closed");
}

#[test]
fn a_failed_liveness_check_ends_the_run() {
    let run = begun("nix");
    let (run, _) = run.step(Event::EndOfStream { stream: Stream::Stdout });
    let (_, action) = run.step(Event::LivenessFailed { cause: "gone".to_owned() });
    assert_eq!(failure(action), "Failed to wait for process 'nix' to exit\n  caused by: gone");
}

#[test]
fn a_failed_final_wait_ends_the_run() {
    let run = begun("nix");
    let (run, _) = run.step(Event::EndOfStream { stream: Stream::Stdout });
    let (run, _) = run.step(Event::Exited);
    let (run, _) = run.step(Event::EndOfStream { stream: Stream::Stderr });
    let (run, _) = run.step(Event::Exited);
    let (_, action) = run.step(Event::WaitFailed { cause: "gone".to_owned() });
    assert_eq!(failure(action), "Failed to wait for process 'nix' to exit\n  caused by: gone");
}

#[test]
fn only_the_answer_to_the_last_action_is_accepted() {
    let (run, _) = LiveRun::start("cmd");
    assert!(run.accepts(&Event::Spawned { stdout: true, stderr: true }));
    assert!(run.accepts(&Event::SpawnFailed { cause: String::new() }));
    assert!(!run.accepts(&Event::Exited));
    assert!(!run.accepts(&Event::Line { stream: Stream::Stdout, text: String::new() }));
    let run = begun("cmd");
    assert!(run.accepts(&Event::Line { stream: Stream::Stdout, text: String::new() }));
    assert!(run.accepts(&Event::EndOfStream { stream: Stream::Stderr }));
    assert!(!run.accepts(&Event::Filtered { rendered: None }));
    assert!(!run.accepts(&Event::Flushed));
    assert!(!run.accepts(&Event::Running));
    assert!(!run.accepts(&waited(Some(0), "", "")));
    let (run, _) = run.step(Event::EndOfStream { stream: Stream::Stdout });
    assert!(run.accepts(&Event::Running));
    assert!(run.accepts(&Event::Exited));
    assert!(run.accepts(&Event::LivenessFailed { cause: String::new() }));
    let (run, _) = run.step(Event::Running);
    assert!(!run.accepts(&Event::Line { stream: Stream::Stdout, text: String::new() }));
    assert!(!run.accepts(&Event::EndOfStream { stream: Stream::Stdout }));
    assert!(run.accepts(&Event::ReadFailed { stream: Stream::Stderr, cause: String::new() }));
}

#[test]
fn a_finished_run_accepts_nothing() {
    let (run, _) = LiveRun::start("cmd");
    let (run, _) = run.step(Event::SpawnFailed { cause: String::new() });
    assert!(!run.accepts(&Event::Spawned { stdout: true, stderr: true }));
    assert!(!run.accepts(&Event::Exited));
    assert!(!run.accepts(&waited(None, "", "")));
}

#[test]
fn a_silent_filter_never_echoes_and_the_buffer_holds_every_line() {
    let mut run = begun("cmd");
    let lines = [
        (Stream::Stdout, "o1"),
        (Stream::Stderr, "e1"),
        (Stream::Stderr, "e2"),
        (Stream::Stdout, "o2"),
    ];
    for (stream, text) in lines {
        let (next, action) = run.step(Event::Line { stream, text: text.to_owned() });
        assert!(matches!(action, Action::Filter { .. }));
        let (next, action) = next.step(Event::Filtered { rendered: None });
        assert!(matches!(action, Action::CheckExit));
        let (next, action) = next.step(Event::Running);
        assert!(matches!(action, Action::ReadLine { .. }));
        run = next;
    }
    assert_eq!(run.buffer(), "o1\ne1\ne2\no2\n");
}

#[test]
fn an_event_that_does_not_answer_changes_nothing() {
    let run = begun("cmd");
    let (run, action) = run.offer(Event::Exited);
    assert!(action.is_none());
    assert_eq!(run.phase(), Phase::Reading);
    assert_eq!(run.buffer(), "");
    let (run, action) = run.offer(Event::Line { stream: Stream::Stdout, text: "x".to_owned() });
    assert!(matches!(action, Some(Action::Filter { .. })));
    assert_eq!(run.buffer(), "x\n");
    let (run, action) = run.offer(Event::Line { stream: Stream::Stdout, text: "y".to_owned() });
    assert!(action.is_none());
    assert_eq!(run.buffer(), "x\n");
    assert_eq!(run.phase(), Phase::Filtering);
}

#[test]
fn the_filter_is_offered_each_line_once_and_in_order() {
    let mut run = begun("cmd");
    let mut offered = Vec::new();
    for (stream, text) in [(Stream::Stdout, "o1"), (Stream::Stderr, " e1 "), (Stream::Stdout, ""), (Stream::Stderr, "e2")] {
        let (next, action) = run.step(Event::Line { stream, text: text.to_owned() });
        match action {
            Action::Filter { line } => offered.push(line),
            other => panic!("unexpected {:?}", other),
        }
        let (next, _) = next.step(Event::Filtered { rendered: None });
        let (next, _) = next.step(Event::Running);
        run = next;
    }
    assert_eq!(offered, vec!["o1", " e1 ", "", "e2"]);
    assert_eq!(run.buffer(), "o1\n e1 \n\ne2\n");
}

#[test]
fn a_failure_with_a_cause_shows_it_as_foreign() {
    let run = begun("nix");
    let (_, action) = run.step(Event::ReadFailed { stream: Stream::Stdout, cause: "Kind(BrokenPipe)".to_owned() });
    match action {
        Action::Finish { result: Err(error) } => assert_eq!(
            error.to_debug_string(),
            "ErrorMessage { message: \"Could not read next line from stdout for process 'nix'\", cause: Some(Kind(BrokenPipe)) }"
        ),
        other => panic!("unexpected {:?}", other),
    }
    let (run, _) = LiveRun::start("nix");
    let (_, action) = run.step(Event::Spawned { stdout: false, stderr: true });
    match action {
        Action::Finish { result: Err(error) } => assert_eq!(
            error.to_debug_string(),
            "ErrorMessage { message: \"Could not take stdout for process 'nix' to exit\", cause: None }"
        ),
        other => panic!("unexpected {:?}", other),
    }
}
