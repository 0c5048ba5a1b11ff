use botw_saveconv::answer::{confirms, confirms_trimmed};
use botw_saveconv::outcome::{conversion_outcome, converted_names, Outcome};
use botw_saveconv::platform::{destination, Platform};
use botw_saveconv::session::{Action, Event, Halt, Session, Stage};
use botw_saveconv::short_path::short_path;

fn converted(name: &str) -> Outcome {
    Outcome::Converted { name: name.to_string() }
}

fn session_at_prompt(from: Platform) -> Session {
    let (mut s, a) = Session::new(false);
    assert!(matches!(a, Action::CheckDetectionFile));
    let a = s.step(Event::DetectionFile { present: true });
    assert!(matches!(a, Action::DetectPlatform));
    let a = s.step(Event::Detected { platform: from });
    assert!(matches!(a, Action::Prompt { .. }));
    s
}

#[test]
fn destination_is_the_other_platform() {
    assert_eq!(destination(Platform::WiiU), Platform::Switch);
    assert_eq!(destination(Platform::Switch), Platform::WiiU);
}

#[test]
fn missing_detection_file_ends_run_without_work() {
    let (mut s, _) = Session::new(true);
    let a = s.step(Event::DetectionFile { present: false });
    assert!(matches!(a, Action::Stop { reason: Halt::NoDetectionFile }));
    assert_eq!(s.stage, Stage::Finished);
    let a = s.step(Event::Detected { platform: Platform::WiiU });
    assert!(matches!(a, Action::Wait));
    assert_eq!(s.stage, Stage::Finished);
}

#[test]
fn detection_failure_stops_with_error() {
    let (mut s, _) = Session::new(false);
    s.step(Event::DetectionFile { present: true });
    let a = s.step(Event::DetectionFailed);
    assert!(matches!(a, Action::Stop { reason: Halt::DetectionFailed }));
    assert_eq!(s.stage, Stage::Finished);
}

#[test]
fn prompt_names_both_platforms() {
    let (mut s, _) = Session::new(false);
    s.step(Event::DetectionFile { present: true });
    let a = s.step(Event::Detected { platform: Platform::Switch });
    assert!(matches!(a, Action::Prompt { from: Platform::Switch, to: Platform::WiiU }));
    assert_eq!(s.stage, Stage::Confirming { from: Platform::Switch, to: Platform::WiiU });
}

#[test]
fn auto_confirm_skips_prompt() {
    let (mut s, _) = Session::new(true);
    s.step(Event::DetectionFile { present: true });
    let a = s.step(Event::Detected { platform: Platform::WiiU });
    assert!(matches!(a, Action::Convert { from: Platform::WiiU, to: Platform::Switch }));
}

#[test]
fn declined_answers_start_no_work() {
    for line in ["n\n", "", "\n", "yes\n", " y\n", "x", "yy"] {
        let mut s = session_at_prompt(Platform::WiiU);
        let a = s.step(Event::Answered { line: line.to_string() });
        assert!(matches!(a, Action::Stop { reason: Halt::Declined }), "line {:?}", line);
        assert_eq!(s.stage, Stage::Finished);
        let a = s.step(Event::Answered { line: "y".to_string() });
        assert!(matches!(a, Action::Wait));
    }
}

#[test]
fn confirming_answers_start_conversion() {
    for line in ["y", "Y", "y\n", "Y\r\n", "y \t\n"] {
        let mut s = session_at_prompt(Platform::Switch);
        let a = s.step(Event::Answered { line: line.to_string() });
        assert!(matches!(a, Action::Convert { from: Platform::Switch, to: Platform::WiiU }), "line {:?}", line);
    }
}

#[test]
fn answer_is_trimmed_at_its_end() {
    assert!(confirms("y\r\n"));
    assert!(!confirms_trimmed("y\r\n"));
    assert!(confirms_trimmed("Y"));
    assert!(!confirms(""));
}

#[test]
fn all_converted_files_are_reported() {
    let (mut s, _) = Session::new(true);
    s.step(Event::DetectionFile { present: true });
    s.step(Event::Detected { platform: Platform::WiiU });
    let outcomes = vec![converted("a/1.sav"), converted("b/2.sav"), converted("option.sav")];
    match s.step(Event::Settled { outcomes }) {
        Action::Report { converted } => {
            assert_eq!(converted, vec!["a/1.sav", "b/2.sav", "option.sav"]);
        }
        other => panic!("unexpected action {:?}", other),
    }
    assert_eq!(s.stage, Stage::Finished);
}

#[test]
fn one_failure_does_not_hide_the_others() {
    let outcomes = vec![converted("0/game_data.sav"), Outcome::Failed, converted("1/game_data.sav")];
    assert_eq!(converted_names(&outcomes), vec!["0/game_data.sav", "1/game_data.sav"]);
}

#[test]
fn no_outcomes_report_nothing() {
    assert!(converted_names(&Vec::new()).is_empty());
    assert!(converted_names(&vec![Outcome::Failed, Outcome::Failed]).is_empty());
}

#[test]
fn short_path_keeps_directory_and_file() {
    assert_eq!(short_path("a/b/c.sav"), Some("b/c.sav".to_string()));
    assert_eq!(short_path("c.sav"), Some("c.sav".to_string()));
}

#[test]
fn short_path_edge_cases() {
    assert_eq!(short_path("/c.sav"), Some("c.sav".to_string()));
    assert_eq!(short_path("./c.sav"), Some("c.sav".to_string()));
    assert_eq!(short_path("../c.sav"), Some("c.sav".to_string()));
    assert_eq!(short_path("a/b/c.sav/"), Some("b/c.sav".to_string()));
    assert_eq!(short_path("x//./y/./c.sav"), Some("y/c.sav".to_string()));
    assert_eq!(short_path("sävé/データ.sav"), Some("sävé/データ.sav".to_string()));
    assert_eq!(short_path("a/.."), None);
    assert_eq!(short_path(""), None);
    assert_eq!(short_path("/"), None);
}

#[test]
fn conversion_outcome_follows_the_conversion() {
    assert!(matches!(conversion_outcome("save/0/game_data.sav", false), Outcome::Failed));
    match conversion_outcome("save/0/game_data.sav", true) {
        Outcome::Converted { name } => assert_eq!(name, "0/game_data.sav"),
        Outcome::Failed => panic!("expected a converted outcome"),
    }
    assert!(matches!(conversion_outcome("a/..", true), Outcome::Failed));
}
