use systemmor::event::{Event, Key};
use systemmor::sampler::{poll_timeout_ms, sampler_emits, tick_due, TICK_RATE_MS};
use systemmor::scroll::{App, ScrollState};
use systemmor::state::{on_recv, FatalError, RunState, SessionEnd, Step, UiState};
use systemmor::tab::Tab;

fn apply_state(st: UiState, ev: Event) -> UiState {
    st.apply(ev).0
}

#[test]
fn startup_state_is_home_at_top() {
    let st = UiState::new();
    assert_eq!(st.tab, Tab::Home);
    assert_eq!(st.app.vertical_scroll, 0);
    assert_eq!(st.app.vertical_scroll_state.content_length, 0);
}

#[test]
fn tab_keys_select_their_tab() {
    let cases = [
        ('h', Tab::Home),
        ('c', Tab::Cpu),
        ('m', Tab::Memory),
        ('n', Tab::Network),
        ('p', Tab::Process),
        ('d', Tab::Disk),
        ('t', Tab::Temperature),
        ('b', Tab::Battery),
    ];
    for (key, tab) in cases {
        let st = UiState::new();
        let (next, run) = st.apply(Event::Input(Key::Char(key)));
        assert_eq!(next.tab, tab);
        assert_eq!(next.app, st.app);
        assert_eq!(run, RunState::Running);
    }
}

#[test]
fn tab_select_preserves_scroll_offset() {
    let mut st = UiState::new();
    for _ in 0..5 {
        st = apply_state(st, Event::Input(Key::Down));
    }
    assert_eq!(st.app.vertical_scroll, 5);
    let next = apply_state(st, Event::Input(Key::Char('n')));
    assert_eq!(next.tab, Tab::Network);
    assert_eq!(next.app.vertical_scroll, 5);
}

#[test]
fn unrecognized_keys_are_absorbed() {
    let st = apply_state(UiState::new(), Event::Input(Key::Char('c')));
    assert_eq!(apply_state(st, Event::Input(Key::Char('z'))), st);
    assert_eq!(apply_state(st, Event::Input(Key::Other)), st);
}

#[test]
fn tick_is_identity() {
    let mut st = UiState::new();
    st = apply_state(st, Event::Input(Key::Char('p')));
    st = apply_state(st, Event::Input(Key::Down));
    let (next, run) = st.apply(Event::Tick);
    assert_eq!(next, st);
    assert_eq!(run, RunState::Running);
}

#[test]
fn up_saturates_at_zero() {
    let mut st = UiState::new();
    st = apply_state(st, Event::Input(Key::Down));
    st = apply_state(st, Event::Input(Key::Down));
    for _ in 0..10 {
        st = apply_state(st, Event::Input(Key::Up));
    }
    assert_eq!(st.app.vertical_scroll, 0);
}

#[test]
fn scrollbar_state_builders_replace_one_field() {
    let s = ScrollState::default();
    assert_eq!(s, ScrollState { position: 0, content_length: 0 });
    let s = s.content_length(12);
    assert_eq!(s, ScrollState { position: 0, content_length: 12 });
    let s = s.position(4);
    assert_eq!(s, ScrollState { position: 4, content_length: 12 });
}

#[test]
fn render_clamps_offset_to_content() {
    let mut app = App {
        vertical_scroll: 60,
        vertical_scroll_state: ScrollState { position: 60, content_length: 0 },
    };
    app.sync_to_content(50);
    assert_eq!(app.vertical_scroll, 49);
    assert_eq!(app.vertical_scroll_state.position, 49);
    assert_eq!(app.vertical_scroll_state.content_length, 50);

    app.sync_to_content(10);
    assert_eq!(app.vertical_scroll, 9);

    app.sync_to_content(0);
    assert_eq!(app.vertical_scroll, 0);
    assert_eq!(app.vertical_scroll_state.content_length, 0);
}

#[test]
fn scenario_tab_switch_tick_and_scroll() {
    // Start at {Home, 0}; 'c' selects CPU with the offset untouched; a tick
    // changes nothing; three Down presses put the offset at 3.
    let st = UiState::new();
    let st = apply_state(st, Event::Input(Key::Char('c')));
    assert_eq!(st.tab, Tab::Cpu);
    assert_eq!(st.app.vertical_scroll, 0);
    let st = apply_state(st, Event::Tick);
    assert_eq!(st.tab, Tab::Cpu);
    assert_eq!(st.app.vertical_scroll, 0);
    let mut st = st;
    for _ in 0..3 {
        st = apply_state(st, Event::Input(Key::Down));
    }
    assert_eq!(st.app.vertical_scroll, 3);
}

#[test]
fn scenario_sixty_downs_clamp_to_forty_nine() {
    let mut st = UiState::new();
    st = apply_state(st, Event::Input(Key::Char('p')));
    for _ in 0..60 {
        st = apply_state(st, Event::Input(Key::Down));
    }
    assert_eq!(st.app.vertical_scroll, 60);
    let mut app = st.app;
    app.sync_to_content(50);
    assert_eq!(app.vertical_scroll, 49);
}

#[test]
fn scenario_shrinking_content_reclamps() {
    let mut app = App {
        vertical_scroll: 49,
        vertical_scroll_state: ScrollState { position: 49, content_length: 50 },
    };
    app.sync_to_content(10);
    assert_eq!(app.vertical_scroll, 9);
    assert_eq!(app.vertical_scroll_state.content_length, 10);
}

#[test]
fn scenario_quit_key_shuts_down_cleanly() {
    for st in [
        UiState::new(),
        apply_state(UiState::new(), Event::Input(Key::Char('t'))),
        apply_state(UiState::new(), Event::Input(Key::Down)),
    ] {
        let step = on_recv(st, Some(Event::Input(Key::Char('q'))));
        assert_eq!(step, Step::Quit(st));
    }
    assert_eq!(SessionEnd::CleanQuit.exit_code(), 0);
}

#[test]
fn scenario_closed_channel_is_fatal_nonzero() {
    let st = UiState::new();
    let step = on_recv(st, None);
    assert_eq!(step, Step::Fatal(FatalError::ChannelClosed));
    assert_ne!(SessionEnd::Failed(FatalError::ChannelClosed).exit_code(), 0);
}

#[test]
fn fatal_errors_have_distinct_messages_and_nonzero_exit() {
    let all = [
        FatalError::InputDevice,
        FatalError::TerminalMode,
        FatalError::ChannelClosed,
        FatalError::Draw,
    ];
    for (i, a) in all.iter().enumerate() {
        assert_ne!(SessionEnd::Failed(*a).exit_code(), 0);
        for b in all.iter().skip(i + 1) {
            assert_ne!(a.message(), b.message());
        }
    }
    assert_eq!(
        FatalError::ChannelClosed.message(),
        "the event channel closed unexpectedly"
    );
}

#[test]
fn ordinary_events_continue_the_loop() {
    let st = UiState::new();
    match on_recv(st, Some(Event::Input(Key::Char('m')))) {
        Step::Continue(next) => assert_eq!(next.tab, Tab::Memory),
        other => panic!("expected the loop to continue, got {:?}", other),
    }
    match on_recv(st, Some(Event::Tick)) {
        Step::Continue(next) => assert_eq!(next, st),
        other => panic!("expected the loop to continue, got {:?}", other),
    }
}

#[test]
fn poll_timeout_is_the_remainder_of_the_interval() {
    assert_eq!(TICK_RATE_MS, 250);
    assert_eq!(poll_timeout_ms(250, 0), 250);
    assert_eq!(poll_timeout_ms(250, 100), 150);
    assert_eq!(poll_timeout_ms(250, 250), 0);
    assert_eq!(poll_timeout_ms(250, 300), 0);
    assert!(!tick_due(250, 249));
    assert!(tick_due(250, 250));
}

#[test]
fn sampler_emits_key_before_tick() {
    let (events, reset) = sampler_emits(Some(Key::Char('x')), 300, 250);
    assert_eq!(events, vec![Event::Input(Key::Char('x')), Event::Tick]);
    assert!(reset);

    let (events, reset) = sampler_emits(Some(Key::Up), 100, 250);
    assert_eq!(events, vec![Event::Input(Key::Up)]);
    assert!(!reset);

    let (events, reset) = sampler_emits(None, 250, 250);
    assert_eq!(events, vec![Event::Tick]);
    assert!(reset);

    let (events, reset) = sampler_emits(None, 0, 250);
    assert!(events.is_empty());
    assert!(!reset);
}

#[test]
fn tab_indices_cover_the_menu() {
    let tabs = [
        Tab::Home,
        Tab::Cpu,
        Tab::Memory,
        Tab::Network,
        Tab::Process,
        Tab::Disk,
        Tab::Temperature,
        Tab::Battery,
        Tab::Quit,
    ];
    for (i, t) in tabs.iter().enumerate() {
        assert_eq!(t.index(), i);
    }
    assert_eq!(Tab::Temperature.title(), "Temperature");
    assert!(Tab::Process.scrollable());
    assert!(!Tab::Memory.scrollable());
    assert_eq!(Tab::for_key('q'), None);
    assert_eq!(Tab::for_key('d'), Some(Tab::Disk));
}
