use relais::error::Error;
use relais::util::state::{AppState, Conf, WindowData};
use relais::view::command;
use relais::view::ctrl::pin::{set_pin, toggle_pin};
use relais::view::ctrl::{get_status, settle};
use relais::view::event::{Action, Event, Focus, PairState};
use relais::view::pair::{on_window_event, pair_opened, view_close, view_create, Opening, PendingPair};
use relais::view::util::Position;

fn state() -> AppState {
    AppState::new("relaisrc.toml", |b| b.data(Conf::new()))
}

fn state_knowing_agents() -> AppState {
    AppState::new("relaisrc.toml", |b| {
        b.data(Conf {
            agent_desktop: String::from("desktop agent"),
            agent_mobile: String::from("mobile agent"),
            shortcut_key: String::from("ctrl+alt+r"),
            windows: Vec::new(),
        })
    })
}

fn create(st: &mut AppState, label: &str) {
    let pending = command::view_create(st, "example.com", None, Some(String::from(label)))
        .expect("accepted");
    let step = pair_opened(st, pending, Opening::Opened);
    assert_eq!(step.result, Ok(()));
}

const NO_FOCUS: Focus = Focus { content: false, ctrl: false };

#[test]
fn an_address_without_scheme_gets_https() {
    let st = state();
    let p = command::view_create(&st, "example.com", None, Some(String::from("window_a")))
        .expect("accepted");
    assert_eq!(p.url, "https://example.com/");
    assert_eq!(p.label, "window_a");
    assert_eq!(p.title, "");
}

#[test]
fn an_address_with_scheme_is_kept() {
    let st = state();
    let p = command::view_create(
        &st,
        "http://example.com/a?b=c#d",
        Some(String::from("a title")),
        Some(String::from("window_a")),
    )
    .expect("accepted");
    assert_eq!(p.url, "http://example.com/a?b=c#d");
    assert_eq!(p.title, "a title");
    let p = command::view_create(&st, "https://example.net", None, Some(String::from("w")))
        .expect("accepted");
    assert_eq!(p.url, "https://example.net/");
}

#[test]
fn what_is_no_address_is_refused() {
    let st = state();
    for bad in ["", "http://", "http://[:::1]", "exa mple.com", "http://example.com:99999"] {
        let r = command::view_create(&st, bad, None, Some(String::from("window_a")));
        assert_eq!(r.err(), Some(Error::InvalidUrl), "{:?}", bad);
    }
    assert!(st.get_windows().is_empty());
}

#[test]
fn an_invalid_address_is_told_before_a_taken_label() {
    let mut st = state();
    create(&mut st, "window_a");
    let r = command::view_create(&st, "http://", None, Some(String::from("window_a")));
    assert_eq!(r.err(), Some(Error::InvalidUrl));
}

#[test]
fn a_pair_without_label_gets_a_made_one() {
    let st = state();
    let p = command::view_create(&st, "example.com", None, None).expect("accepted");
    assert!(p.label.starts_with("window_"));
    assert_eq!(p.label.chars().count(), "window_".len() + 36);
    let q = command::view_create(&st, "example.com", None, None).expect("accepted");
    assert_ne!(p.label, q.label);
}

#[test]
fn accepting_a_creation_enters_no_record() {
    let st = state();
    let p = command::view_create(&st, "example.com", None, Some(String::from("window_a")))
        .expect("accepted");
    assert_eq!(p.state(), PairState::Creating);
    assert!(st.get_windows().is_empty());
    assert_eq!(get_status(&st, "window_a"), Err(Error::NotFound));
}

#[test]
fn a_created_pair_has_one_record_with_the_defaults() {
    let mut st = state();
    let pending = command::view_create(
        &st,
        "example.com",
        Some(String::from("a title")),
        Some(String::from("window_a")),
    )
    .expect("accepted");
    let step = pair_opened(&mut st, pending, Opening::Opened);
    assert_eq!(step.result, Ok(()));
    assert_eq!(step.state, PairState::Active);
    let with_label: Vec<_> =
        st.get_windows().into_iter().filter(|w| w.label == "window_a").collect();
    assert_eq!(with_label.len(), 1);
    assert_eq!(with_label[0].title, "a title");
    assert_eq!(with_label[0].url, "https://example.com/");
    assert_eq!(with_label[0].zoom, 100);
    assert_eq!(get_status(&st, "window_a"), Ok(((false, 127), false, false, false)));
}

#[test]
fn after_creation_the_user_agent_is_read_if_none_is_known() {
    let mut st = state();
    let pending =
        command::view_create(&st, "example.com", None, Some(String::from("window_a"))).unwrap();
    let step = pair_opened(&mut st, pending, Opening::Opened);
    assert_eq!(step.actions, vec![Action::Notify, Action::AlignCtrl, Action::ProbeUserAgent]);

    let mut st = state_knowing_agents();
    let pending =
        command::view_create(&st, "example.com", None, Some(String::from("window_a"))).unwrap();
    let step = pair_opened(&mut st, pending, Opening::Opened);
    assert_eq!(step.actions, vec![Action::Notify, Action::AlignCtrl]);
}

#[test]
fn a_content_window_that_failed_leaves_nothing() {
    let mut st = state();
    let pending =
        command::view_create(&st, "example.com", None, Some(String::from("window_a"))).unwrap();
    let step = pair_opened(&mut st, pending, Opening::ContentFailed);
    assert_eq!(step.result, Err(Error::OsOperationFailed));
    assert_eq!(step.state, PairState::Gone);
    assert!(step.actions.is_empty());
    assert!(st.get_windows().is_empty());
}

#[test]
fn a_control_window_that_failed_has_the_content_window_closed() {
    let mut st = state();
    let pending =
        command::view_create(&st, "example.com", None, Some(String::from("window_a"))).unwrap();
    let step = pair_opened(&mut st, pending, Opening::CtrlFailed);
    assert_eq!(step.result, Err(Error::OsOperationFailed));
    assert_eq!(step.state, PairState::Gone);
    assert_eq!(step.actions, vec![Action::CloseContent]);
    assert!(st.get_windows().is_empty());
    assert_eq!(get_status(&st, "window_a"), Err(Error::NotFound));
}

#[test]
fn the_same_label_twice_is_a_duplicate() {
    let mut st = state();
    create(&mut st, "window_a");
    let toggled = toggle_pin(&st, "window_a").unwrap();
    assert_eq!(settle(&mut st, toggled, true), Ok(()));

    let second = command::view_create(&st, "example.net", None, Some(String::from("window_a")));
    assert_eq!(second.err(), Some(Error::DuplicateLabel));
    let second =
        view_create(&st, String::from("https://example.net/"), None, String::from("window_a"));
    assert_eq!(second.err(), Some(Error::DuplicateLabel));

    assert_eq!(st.get_windows().len(), 1);
    assert_eq!(st.get_windows()[0].url, "https://example.com/");
    assert_eq!(get_status(&st, "window_a"), Ok(((false, 127), true, false, false)));
}

#[test]
fn windows_opened_for_a_taken_label_are_closed_again() {
    let mut st = state();
    let first =
        command::view_create(&st, "example.com", None, Some(String::from("window_a"))).unwrap();
    let second =
        command::view_create(&st, "example.net", None, Some(String::from("window_a"))).unwrap();
    assert_eq!(pair_opened(&mut st, first, Opening::Opened).result, Ok(()));
    let step = pair_opened(&mut st, second, Opening::Opened);
    assert_eq!(step.result, Err(Error::DuplicateLabel));
    assert_eq!(step.state, PairState::Gone);
    assert_eq!(step.actions, vec![Action::CloseCtrl, Action::CloseContent]);
    assert_eq!(st.get_windows().len(), 1);
    assert_eq!(st.get_windows()[0].url, "https://example.com/");
}

#[test]
fn a_pending_pair_made_by_hand_is_checked_all_the_same() {
    let mut st = state();
    create(&mut st, "window_a");
    let forged = PendingPair {
        label: String::from("window_a"),
        title: String::from("x"),
        url: String::from("y"),
    };
    let step = pair_opened(&mut st, forged, Opening::Opened);
    assert_eq!(step.result, Err(Error::DuplicateLabel));
    assert_eq!(st.get_windows().len(), 1);
}

#[test]
fn closing_removes_the_record() {
    let mut st = state();
    create(&mut st, "window_a");
    create(&mut st, "window_b");
    let step = view_close(&mut st, "window_a");
    assert_eq!(step.result, Ok(()));
    assert_eq!(step.state, PairState::Closing);
    assert_eq!(step.actions, vec![Action::CloseCtrl, Action::CloseContent, Action::Notify]);
    assert_eq!(get_status(&st, "window_a"), Err(Error::NotFound));
    assert_eq!(get_status(&st, "window_b"), Ok(((false, 127), false, false, false)));
    assert!(st.get_window_data("window_a").is_none());
    assert_eq!(set_pin(&st, "window_a", true).err(), Some(Error::NotFound));
}

#[test]
fn closing_what_is_gone_still_asks_for_the_windows_to_be_closed() {
    let mut st = state();
    create(&mut st, "window_a");
    assert_eq!(view_close(&mut st, "window_a").result, Ok(()));
    let step = view_close(&mut st, "window_a");
    assert_eq!(step.result, Err(Error::NotFound));
    assert_eq!(step.state, PairState::Gone);
    assert_eq!(step.actions, vec![Action::CloseCtrl, Action::CloseContent]);
    assert!(st.get_windows().is_empty());
}

#[test]
fn a_close_request_is_a_close() {
    let mut st = state();
    create(&mut st, "window_a");
    let step = on_window_event(&mut st, "window_a", Event::CloseRequested, NO_FOCUS);
    assert_eq!(step.result, Ok(()));
    assert_eq!(step.actions, vec![Action::CloseCtrl, Action::CloseContent, Action::Notify]);
    assert_eq!(get_status(&st, "window_a"), Err(Error::NotFound));
    let step = on_window_event(&mut st, "window_a", Event::CloseRequested, NO_FOCUS);
    assert_eq!(step.result, Err(Error::NotFound));
    assert_eq!(step.actions, vec![Action::CloseCtrl, Action::CloseContent]);
}

#[test]
fn a_moved_window_takes_its_control_window_along() {
    let mut st = state();
    create(&mut st, "window_a");
    let step =
        on_window_event(&mut st, "window_a", Event::Moved(Position { x: 300, y: 120 }), NO_FOCUS);
    assert_eq!(step.result, Ok(()));
    assert_eq!(step.state, PairState::Active);
    assert_eq!(step.actions, vec![Action::MoveCtrl(Position { x: 260, y: 120 })]);
    let again =
        on_window_event(&mut st, "window_a", Event::Moved(Position { x: 300, y: 120 }), NO_FOCUS);
    assert_eq!(again.actions, step.actions);
    let step =
        on_window_event(&mut st, "window_a", Event::Moved(Position { x: -8, y: -31 }), NO_FOCUS);
    assert_eq!(step.actions, vec![Action::MoveCtrl(Position { x: -48, y: -31 })]);
    assert_eq!(st.get_windows().len(), 1);
}

#[test]
fn a_window_at_the_left_end_of_the_range_moves_nothing() {
    let mut st = state();
    create(&mut st, "window_a");
    let at = |x: i32| Event::Moved(Position { x, y: 0 });
    let step = on_window_event(&mut st, "window_a", at(i32::MIN), NO_FOCUS);
    assert_eq!(step.result, Ok(()));
    assert!(step.actions.is_empty());
    let step = on_window_event(&mut st, "window_a", at(i32::MIN + 39), NO_FOCUS);
    assert!(step.actions.is_empty());
    let step = on_window_event(&mut st, "window_a", at(i32::MIN + 40), NO_FOCUS);
    assert_eq!(step.actions, vec![Action::MoveCtrl(Position { x: i32::MIN, y: 0 })]);
    let step = on_window_event(&mut st, "window_a", at(i32::MAX), NO_FOCUS);
    assert_eq!(step.actions, vec![Action::MoveCtrl(Position { x: i32::MAX - 40, y: 0 })]);
}

#[test]
fn focus_gained_shows_the_control_window_and_keeps_the_focus() {
    let mut st = state();
    create(&mut st, "window_a");
    for focus in [
        NO_FOCUS,
        Focus { content: true, ctrl: false },
        Focus { content: false, ctrl: true },
        Focus { content: true, ctrl: true },
    ] {
        let step = on_window_event(&mut st, "window_a", Event::Focused(true), focus);
        assert_eq!(step.result, Ok(()));
        assert_eq!(step.actions, vec![Action::ShowCtrl, Action::FocusContent]);
    }
}

#[test]
fn focus_lost_hides_the_control_window_only_if_neither_has_it() {
    let mut st = state();
    create(&mut st, "window_a");
    let lost = |st: &mut AppState, content: bool, ctrl: bool| {
        on_window_event(st, "window_a", Event::Focused(false), Focus { content, ctrl }).actions
    };
    assert_eq!(lost(&mut st, false, false), vec![Action::HideCtrl]);
    assert!(lost(&mut st, false, true).is_empty());
    assert!(lost(&mut st, true, false).is_empty());
    assert!(lost(&mut st, true, true).is_empty());
}

#[test]
fn resized_and_destroyed_ask_for_nothing() {
    let mut st = state();
    create(&mut st, "window_a");
    for event in [Event::Resized, Event::Destroyed] {
        let step = on_window_event(&mut st, "window_a", event, NO_FOCUS);
        assert_eq!(step.result, Ok(()));
        assert_eq!(step.state, PairState::Active);
        assert!(step.actions.is_empty());
    }
    assert_eq!(st.get_windows().len(), 1);
}

#[test]
fn events_of_a_pair_that_is_gone_are_errors() {
    let mut st = state();
    create(&mut st, "window_a");
    for event in [
        Event::Moved(Position { x: 1, y: 2 }),
        Event::Resized,
        Event::Focused(true),
        Event::Focused(false),
        Event::Destroyed,
    ] {
        let step = on_window_event(&mut st, "window_b", event, NO_FOCUS);
        assert_eq!(step.result, Err(Error::NotFound));
        assert_eq!(step.state, PairState::Gone);
        assert!(step.actions.is_empty());
    }
    assert_eq!(st.get_windows().len(), 1);
}

#[test]
fn a_record_entered_directly_is_seen_by_the_events() {
    let mut st = state();
    let w = WindowData::new(String::from(""), String::from("w"), String::from("https://e.com/"));
    assert_eq!(st.add_window(w), Ok(()));
    let step = on_window_event(&mut st, "w", Event::Focused(true), NO_FOCUS);
    assert_eq!(step.result, Ok(()));
}
