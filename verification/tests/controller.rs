use rofi_snippets::config::{config_path, Config, Entry};
use rofi_snippets::mode::{Action, ConfigLoad, ConfigLoadError, Event, Mode, Reaction, Style, Task};
use rofi_snippets::snippet::{EvalError, Progress, RunOutcome, Snippet};

fn entry(key: &str, snippet: Snippet, description: Option<&str>) -> Entry {
    Entry { key: key.to_string(), snippet, description: description.map(|d| d.to_string()) }
}

fn sample() -> Mode {
    Mode {
        cfg: Config {
            shell: Some("bash".to_string()),
            entries: vec![
                entry("sig", Snippet::Text { value: "Kind regards".to_string() }, Some("signature")),
                entry("date", Snippet::Command { value: vec!["date".to_string(), "+%F".to_string()], trim: Some(true) }, None),
                entry("sig", Snippet::Shell { value: "echo $USER".to_string(), trim: None }, Some("")),
            ],
            delay: Some(150),
        },
    }
}

fn bare() -> Mode {
    Mode { cfg: Config::default() }
}

#[test]
fn default_config_is_empty() {
    let cfg = Config::default();
    assert_eq!(cfg.shell, None);
    assert!(cfg.entries.is_empty());
    assert_eq!(cfg.delay, None);
}

#[test]
fn missing_file_gives_defaults() {
    assert_eq!(Mode::init(ConfigLoad::Missing), Ok(Mode { cfg: Config::default() }));
}

#[test]
fn malformed_file_fails() {
    assert_eq!(Mode::init(ConfigLoad::Malformed), Err(ConfigLoadError));
}

#[test]
fn loaded_config_is_kept() {
    let started = Mode::init(ConfigLoad::Loaded(sample().cfg));
    assert_eq!(started, Ok(sample()));
}

#[test]
fn config_path_prefers_explicit_then_xdg_then_home() {
    let s = |t: &str| Some(t.to_string());
    assert_eq!(config_path(s("/tmp/c.json"), s("/x"), s("/h")), s("/tmp/c.json"));
    assert_eq!(config_path(None, s("/x"), s("/h")), s("/x/rofi-snippets/config.json"));
    assert_eq!(config_path(None, None, s("/h")), s("/h/.config/rofi-snippets/config.json"));
    assert_eq!(config_path(None, None, None), None);
    assert_eq!(config_path(s(""), None, None), s(""));
    assert_eq!(config_path(None, s(""), None), s("/rofi-snippets/config.json"));
}

#[test]
fn empty_config_lists_nothing() {
    assert_eq!(bare().entries(), 0);
}

#[test]
fn entries_counts_the_list() {
    assert_eq!(sample().entries(), 3);
}

#[test]
fn entry_content_wraps_the_description() {
    let mode = sample();
    assert_eq!(
        mode.entry_content(0),
        "sig <span weight='light' size='small' style='italic'>(signature)</span>"
    );
    assert_eq!(mode.entry_content(1), "date ");
    assert_eq!(mode.entry_content(2), "sig <span weight='light' size='small' style='italic'>()</span>");
    assert_eq!(mode.cfg.entries[1].display(), "date ");
}

#[test]
fn entries_carry_markup() {
    assert_eq!(sample().entry_style(0), Style::Markup);
    assert_eq!(sample().entry_style(2), Style::Markup);
}

#[test]
fn matching_reads_the_key_only() {
    let mode = sample();
    assert_eq!(mode.match_key(0), "sig");
    assert_eq!(mode.match_key(1), "date");
    assert_eq!(mode.match_key(2), "sig");
}

#[test]
fn cancel_exits() {
    let mode = sample();
    let mut input = "da".to_string();
    let r = mode.react(Event::Cancel { selected: Some(1) }, &mut input);
    assert_eq!(r, Reaction { action: Action::Exit, inject: None });
    assert_eq!(input, "da");
    let r = mode.react(Event::Cancel { selected: None }, &mut input);
    assert_eq!(r, Reaction { action: Action::Exit, inject: None });
}

#[test]
fn confirm_exits_and_names_the_entry() {
    let mode = sample();
    for i in 0..3usize {
        for alt in [false, true] {
            let mut input = "si".to_string();
            let r = mode.react(Event::Confirm { alt, selected: i }, &mut input);
            assert_eq!(r, Reaction { action: Action::Exit, inject: Some(i) });
            assert_eq!(input, "si");
        }
    }
}

#[test]
fn complete_sets_the_filter_to_the_key() {
    let mode = sample();
    let keys = ["sig", "date", "sig"];
    for i in 0..3usize {
        let mut input = "something typed".to_string();
        let r = mode.react(Event::Complete { selected: Some(i) }, &mut input);
        assert_eq!(r, Reaction { action: Action::Reload, inject: None });
        assert_eq!(input, keys[i]);
    }
}

#[test]
fn complete_without_selection_changes_nothing() {
    let mode = sample();
    let mut input = "da".to_string();
    let r = mode.react(Event::Complete { selected: None }, &mut input);
    assert_eq!(r, Reaction { action: Action::Reload, inject: None });
    assert_eq!(input, "da");
}

#[test]
fn other_events_reload() {
    let mode = sample();
    let events = [
        Event::CustomInput { alt: false, selected: Some(0) },
        Event::CustomInput { alt: true, selected: None },
        Event::DeleteEntry { selected: 1 },
        Event::CustomCommand { number: 3, selected: Some(2) },
    ];
    for e in events {
        let mut input = "xy".to_string();
        let r = mode.react(e, &mut input);
        assert_eq!(r, Reaction { action: Action::Reload, inject: None });
        assert_eq!(input, "xy");
    }
}

#[test]
fn compute_snippet_uses_the_configured_shell() {
    let mode = sample();
    let s = Snippet::Shell { value: "echo hi".to_string(), trim: Some(true) };
    assert_eq!(
        mode.compute_snippet(&s, &vec![]),
        Progress::Run { program: "bash".to_string(), args: vec!["-c".to_string(), "echo hi".to_string()] }
    );
    assert_eq!(
        bare().compute_snippet(&s, &vec![]),
        Progress::Run { program: "sh".to_string(), args: vec!["-c".to_string(), "echo hi".to_string()] }
    );
    assert_eq!(
        bare().compute_snippet(&s, &vec![RunOutcome::Output(b"hi\n".to_vec())]),
        Progress::Done("hi".to_string())
    );
}

#[test]
fn deferred_waits_first() {
    let mode = sample();
    assert_eq!(mode.deferred(0, false, &vec![]), Task::Sleep(150));
    assert_eq!(mode.deferred(1, false, &vec![]), Task::Sleep(150));
    assert_eq!(mode.deferred(0, true, &vec![]), Task::Type("Kind regards".to_string()));
}

#[test]
fn deferred_without_delay_starts_at_once() {
    let mut mode = sample();
    mode.cfg.delay = None;
    assert_eq!(mode.deferred(0, false, &vec![]), Task::Type("Kind regards".to_string()));
    assert_eq!(
        mode.deferred(1, false, &vec![]),
        Task::Run { program: "date".to_string(), args: vec!["+%F".to_string()] }
    );
}

#[test]
fn deferred_runs_then_types() {
    let mode = sample();
    assert_eq!(
        mode.deferred(2, true, &vec![]),
        Task::Run { program: "bash".to_string(), args: vec!["-c".to_string(), "echo $USER".to_string()] }
    );
    assert_eq!(
        mode.deferred(2, true, &vec![RunOutcome::Output(b"me\n".to_vec())]),
        Task::Type("me\n".to_string())
    );
    assert_eq!(
        mode.deferred(1, true, &vec![RunOutcome::Output(b"2024-05-01\n".to_vec())]),
        Task::Type("2024-05-01".to_string())
    );
}

#[test]
fn deferred_aborts_on_failure() {
    let mode = sample();
    assert_eq!(mode.deferred(1, true, &vec![RunOutcome::NotStarted]), Task::Abort(EvalError::Spawn));
    assert_eq!(
        mode.deferred(1, true, &vec![RunOutcome::Output(vec![0xff])]),
        Task::Abort(EvalError::Decode)
    );
}

#[test]
fn confirm_answer_does_not_depend_on_the_snippet() {
    let mode = Mode {
        cfg: Config {
            shell: None,
            entries: vec![entry("broken", Snippet::Command { value: vec![], trim: None }, None)],
            delay: None,
        },
    };
    let mut input = String::new();
    let r = mode.react(Event::Confirm { alt: false, selected: 0 }, &mut input);
    assert_eq!(r.action, Action::Exit);
    assert_eq!(mode.deferred(0, false, &vec![]), Task::Abort(EvalError::EmptyCommand));
}
