use sheller::state::App;
use sheller::state::CommandRecord;
use sheller::state::Effect;
use sheller::state::Event;
use sheller::state::OutputAction;
use sheller::state::PreparedCommand;
use sheller::state::State;

fn type_str(app: &mut App, s: &str) {
    for c in s.chars() {
        let e = app.input(Event::Char(c));
        assert!(matches!(e, Effect::Continue));
    }
}

fn idle_text(app: &App) -> String {
    match app.state() {
        State::Idle { buffer, .. } => buffer.chars.iter().collect(),
        State::Running { .. } => panic!("expected Idle"),
    }
}

fn idle_cursor(app: &App) -> usize {
    match app.state() {
        State::Idle { buffer, .. } => buffer.cursor,
        State::Running { .. } => panic!("expected Idle"),
    }
}

fn running_stdin(app: &App) -> Vec<String> {
    match app.state() {
        State::Running { stdin, .. } => stdin.clone(),
        State::Idle { .. } => panic!("expected Running"),
    }
}

fn record(command: &str, stdout: Vec<&str>) -> CommandRecord {
    CommandRecord {
        prompt: String::from("$"),
        command: String::from(command),
        stdin: Vec::new(),
        stdout: stdout.into_iter().map(String::from).collect(),
        stderr: Vec::new(),
    }
}

/// Runs one full no-stdin submission of `command`, feeding `rec` back as
/// the executor's outcome.
fn submit_once(app: &mut App, command: &str, rec: CommandRecord) {
    type_str(app, command);
    let e = app.input(Event::Enter);
    let cmd = match e {
        Effect::NeedPrepare { command } => command,
        _ => panic!("expected NeedPrepare"),
    };
    assert_eq!(cmd, command);
    let e = app.apply_prepare(PreparedCommand { command: cmd, stdin_required: false });
    match e {
        Effect::NeedExecute { command: c, stdin } => {
            assert_eq!(c, command);
            assert!(stdin.is_none());
        }
        _ => panic!("expected NeedExecute"),
    }
    let e = app.apply_outcome(OutputAction::Command(rec));
    assert!(matches!(e, Effect::Continue));
}

#[test]
fn new_app_is_empty_idle() {
    let app = App::new();
    assert_eq!(idle_text(&app), "");
    assert_eq!(idle_cursor(&app), 0);
    assert!(app.history().is_empty());
}

#[test]
fn typing_inserts_at_cursor() {
    let mut app = App::new();
    type_str(&mut app, "ac");
    app.input(Event::Left);
    app.input(Event::Char('b'));
    assert_eq!(idle_text(&app), "abc");
    assert_eq!(idle_cursor(&app), 2);
}

#[test]
fn multibyte_characters_stay_whole() {
    let mut app = App::new();
    type_str(&mut app, "héllo");
    app.input(Event::Left);
    app.input(Event::Left);
    app.input(Event::Left);
    app.input(Event::Backspace);
    assert_eq!(idle_text(&app), "hllo");
    assert_eq!(idle_cursor(&app), 1);
    app.input(Event::Char('é'));
    assert_eq!(idle_text(&app), "héllo");
}

#[test]
fn move_left_at_zero_is_noop() {
    let mut app = App::new();
    type_str(&mut app, "ab");
    app.input(Event::Left);
    app.input(Event::Left);
    assert_eq!(idle_cursor(&app), 0);
    app.input(Event::Left);
    assert_eq!(idle_cursor(&app), 0);
    assert_eq!(idle_text(&app), "ab");
}

#[test]
fn move_right_at_end_is_noop() {
    let mut app = App::new();
    type_str(&mut app, "ab");
    assert_eq!(idle_cursor(&app), 2);
    app.input(Event::Right);
    assert_eq!(idle_cursor(&app), 2);
    assert_eq!(idle_text(&app), "ab");
}

#[test]
fn cursor_stays_in_bounds_over_many_operations() {
    let mut app = App::new();
    let events = [
        Event::Char('a'),
        Event::Left,
        Event::Left,
        Event::Right,
        Event::Right,
        Event::Right,
        Event::Char('b'),
        Event::Backspace,
        Event::Backspace,
        Event::Backspace,
        Event::Char('c'),
    ];
    for ev in events {
        app.input(ev);
        let (len, cursor) = match app.state() {
            State::Idle { buffer, .. } => (buffer.chars.len(), buffer.cursor),
            State::Running { .. } => panic!("expected Idle"),
        };
        assert!(cursor <= len);
    }
}

#[test]
fn backspace_at_zero_is_noop() {
    let mut app = App::new();
    app.input(Event::Backspace);
    assert_eq!(idle_text(&app), "");
    assert_eq!(idle_cursor(&app), 0);
}

#[test]
fn tab_at_end_requests_completion() {
    let mut app = App::new();
    type_str(&mut app, "gi");
    let e = app.input(Event::Tab);
    match e {
        Effect::NeedCompletion { text } => assert_eq!(text, "gi"),
        _ => panic!("expected NeedCompletion"),
    }
}

#[test]
fn tab_away_from_end_is_ignored() {
    let mut app = App::new();
    type_str(&mut app, "gi");
    app.input(Event::Left);
    let e = app.input(Event::Tab);
    assert!(matches!(e, Effect::Continue));
}

#[test]
fn completion_appends_fixed_suffix_and_sets_candidates() {
    let mut app = App::new();
    type_str(&mut app, "g");
    app.input(Event::Tab);
    app.apply_completion("it", vec![String::from(" add"), String::from(" push")]);
    assert_eq!(idle_text(&app), "git");
    assert_eq!(idle_cursor(&app), 3);
    match app.state() {
        State::Idle { completions, .. } => {
            assert_eq!(completions.as_ref().unwrap(), &vec![" add", " push"]);
        }
        State::Running { .. } => panic!("expected Idle"),
    }
}

#[test]
fn typing_narrows_candidates_locally() {
    let mut app = App::new();
    app.input(Event::Tab);
    app.apply_completion(
        "",
        vec![String::from("abc"), String::from("bcd"), String::from("axe")],
    );
    app.input(Event::Char('a'));
    match app.state() {
        State::Idle { completions, .. } => {
            assert_eq!(completions.as_ref().unwrap(), &vec!["bc", "xe"]);
        }
        State::Running { .. } => panic!("expected Idle"),
    }
    app.input(Event::Char('z'));
    match app.state() {
        State::Idle { completions, .. } => {
            assert_eq!(completions.as_ref().unwrap(), &Vec::<String>::new());
        }
        State::Running { .. } => panic!("expected Idle"),
    }
    // filtering the exhausted set keeps going without fault
    app.input(Event::Char('q'));
    match app.state() {
        State::Idle { completions, .. } => {
            assert_eq!(completions.as_ref().unwrap(), &Vec::<String>::new());
        }
        State::Running { .. } => panic!("expected Idle"),
    }
}

#[test]
fn moving_left_invalidates_candidates() {
    let mut app = App::new();
    type_str(&mut app, "a");
    app.input(Event::Tab);
    app.apply_completion("", vec![String::from("bc")]);
    app.input(Event::Left);
    match app.state() {
        State::Idle { completions, .. } => assert!(completions.is_none()),
        State::Running { .. } => panic!("expected Idle"),
    }
}

#[test]
fn backspace_invalidates_candidates() {
    let mut app = App::new();
    type_str(&mut app, "a");
    app.input(Event::Tab);
    app.apply_completion("", vec![String::from("bc")]);
    app.input(Event::Backspace);
    match app.state() {
        State::Idle { completions, .. } => assert!(completions.is_none()),
        State::Running { .. } => panic!("expected Idle"),
    }
}

#[test]
fn submit_without_stdin_appends_one_record() {
    let mut app = App::new();
    submit_once(&mut app, "ls", record("ls", vec!["a.txt", "b.txt"]));
    assert_eq!(app.history().len(), 1);
    assert_eq!(app.history()[0].command, "ls");
    assert_eq!(app.history()[0].stdout, vec!["a.txt", "b.txt"]);
    assert_eq!(idle_text(&app), "");
    assert_eq!(idle_cursor(&app), 0);
}

#[test]
fn submit_with_stdin_enters_running() {
    let mut app = App::new();
    type_str(&mut app, "cat");
    let e = app.input(Event::Enter);
    let cmd = match e {
        Effect::NeedPrepare { command } => command,
        _ => panic!("expected NeedPrepare"),
    };
    let e = app.apply_prepare(PreparedCommand { command: cmd, stdin_required: true });
    assert!(matches!(e, Effect::Continue));
    match app.state() {
        State::Running { prepared, stdin } => {
            assert_eq!(prepared.command, "cat");
            assert!(prepared.stdin_required);
            assert!(stdin.is_empty());
        }
        State::Idle { .. } => panic!("expected Running"),
    }
}

fn start_running(app: &mut App, command: &str) {
    type_str(app, command);
    let e = app.input(Event::Enter);
    let cmd = match e {
        Effect::NeedPrepare { command } => command,
        _ => panic!("expected NeedPrepare"),
    };
    let e = app.apply_prepare(PreparedCommand { command: cmd, stdin_required: true });
    assert!(matches!(e, Effect::Continue));
}

#[test]
fn interrupt_finalizes_with_typed_stdin() {
    let mut app = App::new();
    start_running(&mut app, "cat");
    type_str(&mut app, "one");
    app.input(Event::Enter);
    type_str(&mut app, "two");
    let e = app.input(Event::Interrupt);
    match e {
        Effect::NeedExecute { command, stdin } => {
            assert_eq!(command, "cat");
            assert_eq!(stdin.unwrap(), vec!["one", "two"]);
        }
        _ => panic!("expected NeedExecute"),
    }
    let mut rec = record("cat", vec![]);
    rec.stdin = vec![String::from("one"), String::from("two")];
    let e = app.apply_outcome(OutputAction::Command(rec));
    assert!(matches!(e, Effect::Continue));
    assert_eq!(app.history().len(), 1);
    assert_eq!(app.history()[0].stdin, vec!["one", "two"]);
    assert_eq!(idle_text(&app), "");
}

#[test]
fn running_backspaces_collapse_stdin_to_empty() {
    let mut app = App::new();
    start_running(&mut app, "abc");
    type_str(&mut app, "d");
    assert_eq!(running_stdin(&app), vec!["d"]);
    app.input(Event::Backspace);
    app.input(Event::Backspace);
    app.input(Event::Backspace);
    app.input(Event::Backspace);
    assert!(running_stdin(&app).is_empty());
}

#[test]
fn running_enter_commits_line_and_backspace_drops_empty_line() {
    let mut app = App::new();
    start_running(&mut app, "cat");
    type_str(&mut app, "ab");
    app.input(Event::Enter);
    assert_eq!(running_stdin(&app), vec!["ab", ""]);
    app.input(Event::Backspace);
    assert_eq!(running_stdin(&app), vec!["ab"]);
    app.input(Event::Backspace);
    assert_eq!(running_stdin(&app), vec!["a"]);
}

#[test]
fn interrupt_while_idle_exits() {
    let mut app = App::new();
    let e = app.input(Event::Interrupt);
    assert!(matches!(e, Effect::Exit));
}

#[test]
fn clear_view_empties_log_and_keeps_buffer() {
    let mut app = App::new();
    for i in 0..5 {
        let cmd = format!("cmd{}", i);
        submit_once(&mut app, &cmd, record(&cmd, vec![]));
    }
    assert_eq!(app.history().len(), 5);
    type_str(&mut app, "next");
    let e = app.input(Event::ClearView);
    assert!(matches!(e, Effect::Continue));
    assert!(app.history().is_empty());
    assert_eq!(idle_text(&app), "next");
    assert_eq!(idle_cursor(&app), 4);
}

#[test]
fn executor_clear_outcome_drops_history() {
    let mut app = App::new();
    submit_once(&mut app, "a", record("a", vec![]));
    submit_once(&mut app, "b", record("b", vec![]));
    assert_eq!(app.history().len(), 2);
    type_str(&mut app, "clear");
    let e = app.input(Event::Enter);
    let cmd = match e {
        Effect::NeedPrepare { command } => command,
        _ => panic!("expected NeedPrepare"),
    };
    app.apply_prepare(PreparedCommand { command: cmd, stdin_required: false });
    let e = app.apply_outcome(OutputAction::Clear);
    assert!(matches!(e, Effect::Continue));
    assert!(app.history().is_empty());
    assert_eq!(idle_text(&app), "");
}

#[test]
fn executor_exit_outcome_requests_exit() {
    let mut app = App::new();
    type_str(&mut app, "exit");
    let e = app.input(Event::Enter);
    let cmd = match e {
        Effect::NeedPrepare { command } => command,
        _ => panic!("expected NeedPrepare"),
    };
    app.apply_prepare(PreparedCommand { command: cmd, stdin_required: false });
    let e = app.apply_outcome(OutputAction::Exit);
    assert!(matches!(e, Effect::Exit));
    assert!(app.history().is_empty());
}

#[test]
fn unrecognized_keys_are_ignored() {
    let mut app = App::new();
    type_str(&mut app, "ab");
    let e = app.input(Event::Other);
    assert!(matches!(e, Effect::Continue));
    assert_eq!(idle_text(&app), "ab");
    assert_eq!(idle_cursor(&app), 2);
}
