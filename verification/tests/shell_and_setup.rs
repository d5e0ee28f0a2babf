use gcal_widget::refresh_state::{RefreshEvent, RefreshState};
use gcal_widget::refresh_url::refresh_url;
use gcal_widget::setup::{setup_error, SetupReply, SetupStage};
use gcal_widget::shell::{
    checked_page_load, load_event, menu_entry_quits, page_load, toggle_glance, PageLoad,
    GLANCE_AT_START, QUIT_ID,
};
use gcal_widget::window::WindowSlot;
use url::Url;

fn parsed(text: &str) -> Url {
    Url::parse(text).expect("test URL should parse")
}

#[test]
fn pressing_the_shortcut_toggles_both_windows() {
    assert!(!GLANCE_AT_START);
    let change = toggle_glance(GLANCE_AT_START, true);
    assert!(change.glance);
    assert_eq!(
        change.updates,
        vec![(WindowSlot::Primary, true), (WindowSlot::Buffer, true)]
    );
    let change = toggle_glance(change.glance, true);
    assert!(!change.glance);
    assert_eq!(
        change.updates,
        vec![(WindowSlot::Primary, false), (WindowSlot::Buffer, false)]
    );
}

#[test]
fn releasing_the_shortcut_changes_nothing() {
    for glance in [false, true] {
        let change = toggle_glance(glance, false);
        assert_eq!(change.glance, glance);
        assert_eq!(change.updates, vec![]);
    }
}

#[test]
fn only_finished_loads_count() {
    let url = parsed("http://example.test/?__gcal_refresh=4");
    assert_eq!(
        page_load(false, "gcal", &url),
        PageLoad {
            install_script: false,
            event: None
        }
    );
    assert_eq!(
        page_load(true, "gcal", &url),
        PageLoad {
            install_script: true,
            event: Some(RefreshEvent {
                window: WindowSlot::Primary,
                token: 4
            })
        }
    );
}

#[test]
fn strange_windows_and_urls_send_no_event() {
    let script_only = PageLoad {
        install_script: true,
        event: None,
    };
    let url = parsed("http://example.test/?__gcal_refresh=4");
    assert_eq!(page_load(true, "settings", &url), script_only);
    assert_eq!(
        page_load(true, "gcal-buffer", &parsed("http://example.test/")),
        script_only
    );
    assert_eq!(
        checked_page_load(true, "gcal-buffer", &parsed("http://example.test/")),
        Some(script_only)
    );
    assert_eq!(load_event("gcal", None), None);
    assert_eq!(load_event("other", Some(1)), None);
}

#[test]
fn loaded_page_reports_its_attempt() {
    let base = parsed("http://example.test/week?__gcal_refresh=77#today");
    let mut state = RefreshState::new();
    let target = state.begin();
    let url = refresh_url(&base, target.token);
    let load = checked_page_load(true, target.window.label(), &url).expect("a short URL");
    assert!(state.matches(load.event.expect("the page belongs to an attempt")));
}

#[test]
fn only_the_quit_entry_quits() {
    assert_eq!(QUIT_ID, "quit");
    assert!(menu_entry_quits("quit"));
    assert!(!menu_entry_quits("Quit"));
    assert!(!menu_entry_quits(""));
}

/// Runs the setup with the answer at the given number replaced.
fn run_setup(
    release: bool,
    replace: usize,
    reply: SetupReply,
) -> (usize, Vec<String>, Result<(), (String, bool)>) {
    let mut stage = SetupStage::FindPrimary;
    let mut notices = Vec::new();
    let mut replacement = Some(reply);
    let mut steps = 0;
    loop {
        if let SetupStage::Ended { result } = stage {
            return (
                steps,
                notices,
                result.map_err(|error| (error.message(), error.is_not_found())),
            );
        }
        let answer = if steps == replace {
            replacement.take().expect("used once")
        } else {
            SetupReply::Done
        };
        assert!(answer.fits(&stage));
        notices.extend(stage.notice(&answer));
        stage = stage.step(release, answer);
        steps += 1;
    }
}

fn failed(error: &str) -> SetupReply {
    SetupReply::Failed {
        error: error.to_owned(),
    }
}

#[test]
fn setup_runs_through() {
    assert_eq!(run_setup(true, 99, SetupReply::Done), (10, vec![], Ok(())));
    assert_eq!(run_setup(false, 99, SetupReply::Done), (9, vec![], Ok(())));
}

#[test]
fn setup_needs_the_primary_window() {
    assert_eq!(
        run_setup(true, 0, SetupReply::Missing),
        (
            1,
            vec![],
            Err(("primary calendar window is missing".to_owned(), true))
        )
    );
}

#[test]
fn fatal_failures_end_the_setup() {
    for (number, message) in [
        (1, "couldn't initialize interactive mode: boom"),
        (2, "couldn't read configured calendar URL: boom"),
        (5, "couldn't enable release autostart: boom"),
        (6, "couldn't create tray Quit item: boom"),
        (7, "couldn't create tray menu: boom"),
        (9, "couldn't create tray icon: boom"),
    ] {
        assert_eq!(
            run_setup(true, number, failed("boom")),
            (number + 1, vec![], Err((message.to_owned(), false)))
        );
    }
}

#[test]
fn shortcut_and_icon_are_optional() {
    assert_eq!(
        run_setup(true, 4, failed("taken")),
        (
            10,
            vec!["couldn't register Ctrl+Alt+C toggle: taken".to_owned()],
            Ok(())
        )
    );
    assert_eq!(
        run_setup(false, 7, SetupReply::Missing),
        (
            9,
            vec!["no default tray icon is configured; continuing without one".to_owned()],
            Ok(())
        )
    );
}

#[test]
fn development_build_never_enables_autostart() {
    let mut stage = SetupStage::FindPrimary;
    while !matches!(stage, SetupStage::Ended { .. }) {
        assert!(!matches!(stage, SetupStage::EnableAutostart));
        stage = stage.step(false, SetupReply::Done);
    }
}

#[test]
fn setup_errors_name_the_cause() {
    assert_eq!(setup_error("couldn't start", "no display"), "couldn't start: no display");
}
