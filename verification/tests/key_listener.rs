use native_shortcut::listener::{
    on_key_down, HostQuery, EVENT_TYPE_FLAGS_CHANGED, EVENT_TYPE_KEY_DOWN,
};
use native_shortcut::shortcut::{KEYCODE_ESC, KEYCODE_RIGHT_OPTION, EVENT_FLAG_ALTERNATE};
use native_shortcut::{KeyEvent, ListenerState, NativeShortcut, RecordingCommand, ShortcutConfig};

fn config(shortcut: &str, push_to_talk: bool) -> ShortcutConfig {
    ShortcutConfig { shortcut: shortcut.to_string(), push_to_talk }
}

fn flags_event(keycode: i64, flags: u64) -> KeyEvent {
    KeyEvent { event_type: EVENT_TYPE_FLAGS_CHANGED, keycode, flags }
}

fn key_down(keycode: i64) -> KeyEvent {
    KeyEvent { event_type: EVENT_TYPE_KEY_DOWN, keycode, flags: 0 }
}

const OPTION_DOWN: u64 = 0x0008_0100;
const NO_MODIFIER: u64 = 0x0000_0100;

#[test]
fn new_listener_runs_with_nothing_held() {
    let s = ListenerState::new();
    assert!(!s.paused);
    assert!(!s.shortcut_held);
}

#[test]
fn push_to_talk_press_starts_and_release_stops() {
    let cfg = config("RightOption", true);
    let mut s = ListenerState::new();
    let press = flags_event(KEYCODE_RIGHT_OPTION, OPTION_DOWN);
    let release = flags_event(KEYCODE_RIGHT_OPTION, NO_MODIFIER);
    assert_eq!(s.handle_key_event(press, Some(false), Some(&cfg)), Some(RecordingCommand::Start));
    assert!(s.shortcut_held);
    assert_eq!(s.handle_key_event(release, Some(true), Some(&cfg)), Some(RecordingCommand::Stop));
    assert!(!s.shortcut_held);
}

#[test]
fn toggle_press_toggles_and_release_does_nothing() {
    let cfg = config("right alt", false);
    let mut s = ListenerState::new();
    let press = flags_event(KEYCODE_RIGHT_OPTION, OPTION_DOWN);
    let release = flags_event(KEYCODE_RIGHT_OPTION, NO_MODIFIER);
    assert_eq!(s.handle_key_event(press, Some(false), Some(&cfg)), Some(RecordingCommand::Toggle));
    assert!(s.shortcut_held);
    assert_eq!(s.handle_key_event(release, Some(true), Some(&cfg)), None);
    assert!(!s.shortcut_held);
    // a second press toggles again
    assert_eq!(s.handle_key_event(press, Some(true), Some(&cfg)), Some(RecordingCommand::Toggle));
}

#[test]
fn repeated_press_acts_once() {
    let cfg = config("rightoption", true);
    let mut s = ListenerState::new();
    let press = flags_event(KEYCODE_RIGHT_OPTION, OPTION_DOWN);
    assert_eq!(s.handle_key_event(press, Some(false), Some(&cfg)), Some(RecordingCommand::Start));
    assert_eq!(s.handle_key_event(press, Some(true), Some(&cfg)), None);
    assert!(s.shortcut_held);
}

#[test]
fn release_without_press_does_nothing() {
    let cfg = config("rightoption", true);
    let mut s = ListenerState::new();
    let release = flags_event(KEYCODE_RIGHT_OPTION, NO_MODIFIER);
    assert_eq!(s.handle_key_event(release, Some(false), Some(&cfg)), None);
    assert!(!s.shortcut_held);
}

#[test]
fn other_keys_are_ignored() {
    let cfg = config("rightoption", true);
    let mut s = ListenerState::new();
    // the left Option key sets the same flag but is not the configured key
    let left = flags_event(58, OPTION_DOWN);
    assert_eq!(s.handle_key_event(left, Some(false), Some(&cfg)), None);
    assert_eq!(s, ListenerState::new());
}

#[test]
fn flags_of_another_family_do_not_count_as_press() {
    let cfg = config("leftcmd", true);
    let mut s = ListenerState::new();
    // left Command keycode with only the Option bit set
    let ev = flags_event(55, EVENT_FLAG_ALTERNATE);
    assert_eq!(s.handle_key_event(ev, Some(false), Some(&cfg)), None);
    assert!(!s.shortcut_held);
    let ev = flags_event(55, 0x0010_0000);
    assert_eq!(s.handle_key_event(ev, Some(false), Some(&cfg)), Some(RecordingCommand::Start));
}

#[test]
fn paused_listener_ignores_everything() {
    let cfg = config("rightoption", true);
    let mut s = ListenerState { paused: true, shortcut_held: false };
    let press = flags_event(KEYCODE_RIGHT_OPTION, OPTION_DOWN);
    assert_eq!(s.handle_key_event(press, Some(false), Some(&cfg)), None);
    assert_eq!(s.handle_key_event(key_down(KEYCODE_ESC), Some(true), Some(&cfg)), None);
    assert_eq!(s, ListenerState { paused: true, shortcut_held: false });
    let mut held = ListenerState { paused: true, shortcut_held: true };
    let release = flags_event(KEYCODE_RIGHT_OPTION, NO_MODIFIER);
    assert_eq!(held.handle_key_event(release, Some(true), Some(&cfg)), None);
    assert!(held.shortcut_held);
}

#[test]
fn escape_cancels_only_a_recording() {
    let cfg = config("rightoption", true);
    let mut s = ListenerState::new();
    assert_eq!(s.handle_key_event(key_down(KEYCODE_ESC), Some(true), Some(&cfg)), Some(RecordingCommand::Cancel));
    assert_eq!(s.handle_key_event(key_down(KEYCODE_ESC), Some(false), Some(&cfg)), None);
    assert_eq!(s.handle_key_event(key_down(KEYCODE_ESC), Some(true), None), Some(RecordingCommand::Cancel));
    assert_eq!(s.handle_key_event(key_down(0), Some(true), Some(&cfg)), None);
    assert_eq!(s, ListenerState::new());
    assert_eq!(on_key_down(KEYCODE_ESC, Some(true)), Some(RecordingCommand::Cancel));
    assert_eq!(on_key_down(KEYCODE_ESC, Some(false)), None);
    assert_eq!(on_key_down(KEYCODE_RIGHT_OPTION, Some(true)), None);
    // an unreadable recording state counts as not recording
    assert_eq!(on_key_down(KEYCODE_ESC, None), None);
    assert_eq!(s.handle_key_event(key_down(KEYCODE_ESC), None, Some(&cfg)), None);
}

#[test]
fn escape_keeps_the_held_flag() {
    let cfg = config("rightoption", true);
    let mut s = ListenerState { paused: false, shortcut_held: true };
    assert_eq!(s.handle_key_event(key_down(KEYCODE_ESC), Some(true), Some(&cfg)), Some(RecordingCommand::Cancel));
    assert!(s.shortcut_held);
}

#[test]
fn unreadable_or_non_native_config_does_nothing() {
    let mut s = ListenerState::new();
    let press = flags_event(KEYCODE_RIGHT_OPTION, OPTION_DOWN);
    assert_eq!(s.handle_key_event(press, Some(false), None), None);
    let cfg = config("CommandOrControl+Shift+Space", true);
    assert_eq!(s.handle_key_event(press, Some(false), Some(&cfg)), None);
    assert_eq!(s, ListenerState::new());
}

#[test]
fn other_event_types_are_ignored() {
    let cfg = config("rightoption", true);
    let mut s = ListenerState::new();
    let key_up = KeyEvent { event_type: 11, keycode: KEYCODE_RIGHT_OPTION, flags: OPTION_DOWN };
    assert_eq!(s.handle_key_event(key_up, Some(true), Some(&cfg)), None);
    // a key press of the shortcut's own key is not a modifier change
    assert_eq!(s.handle_key_event(key_down(KEYCODE_RIGHT_OPTION), Some(true), Some(&cfg)), None);
    assert_eq!(s, ListenerState::new());
}

#[test]
fn on_shortcut_flags_directly() {
    let mut s = ListenerState::new();
    assert_eq!(
        s.on_shortcut_flags(60, 0x0002_0000, NativeShortcut::RightShift, true),
        Some(RecordingCommand::Start)
    );
    assert_eq!(s.on_shortcut_flags(60, 0, NativeShortcut::RightShift, true), Some(RecordingCommand::Stop));
    assert_eq!(s.on_shortcut_flags(60, 0x0002_0000, NativeShortcut::RightShift, false), Some(RecordingCommand::Toggle));
    assert_eq!(s.on_shortcut_flags(60, 0, NativeShortcut::RightShift, false), None);
    assert!(!s.shortcut_held);
}

#[test]
fn event_type_numbers() {
    assert_eq!(EVENT_TYPE_KEY_DOWN, 10);
    assert_eq!(EVENT_TYPE_FLAGS_CHANGED, 12);
}

#[test]
fn host_query_asks_only_for_what_the_event_needs() {
    let running = ListenerState::new();
    let paused = ListenerState { paused: true, shortcut_held: false };
    assert_eq!(running.host_query(key_down(KEYCODE_ESC)), HostQuery::RecordingState);
    assert_eq!(running.host_query(key_down(KEYCODE_RIGHT_OPTION)), HostQuery::Nothing);
    assert_eq!(running.host_query(flags_event(KEYCODE_RIGHT_OPTION, OPTION_DOWN)), HostQuery::ShortcutConfig);
    assert_eq!(running.host_query(KeyEvent { event_type: 11, keycode: 0, flags: 0 }), HostQuery::Nothing);
    assert_eq!(paused.host_query(key_down(KEYCODE_ESC)), HostQuery::Nothing);
    assert_eq!(paused.host_query(flags_event(KEYCODE_RIGHT_OPTION, OPTION_DOWN)), HostQuery::Nothing);
}

#[test]
fn pause_events_resume_keeps_the_held_flag() {
    let cfg = config("rightoption", true);
    let mut s = ListenerState::new();
    let press = flags_event(KEYCODE_RIGHT_OPTION, OPTION_DOWN);
    let release = flags_event(KEYCODE_RIGHT_OPTION, NO_MODIFIER);
    assert_eq!(s.handle_key_event(press, Some(false), Some(&cfg)), Some(RecordingCommand::Start));
    s.pause();
    assert_eq!(s, ListenerState { paused: true, shortcut_held: true });
    for ev in [release, press, key_down(KEYCODE_ESC), release] {
        assert_eq!(s.handle_key_event(ev, Some(true), Some(&cfg)), None);
    }
    s.resume();
    assert_eq!(s, ListenerState { paused: false, shortcut_held: true });
    assert_eq!(s.handle_key_event(release, Some(true), Some(&cfg)), Some(RecordingCommand::Stop));
}

#[test]
fn push_to_talk_starts_and_stops_alternate_over_a_run() {
    let cfg = config("LeftShift", true);
    let mut s = ListenerState::new();
    let down = flags_event(56, 0x0002_0000);
    let up = flags_event(56, 0);
    let other = flags_event(60, 0x0002_0000);
    let run = [down, down, other, key_down(KEYCODE_ESC), up, up, down, other, up, down];
    let mut balance: i32 = 0;
    for ev in run {
        match s.handle_key_event(ev, Some(balance == 1), Some(&cfg)) {
            Some(RecordingCommand::Start) => balance += 1,
            Some(RecordingCommand::Stop) => balance -= 1,
            _ => {}
        }
        assert!(balance == 0 || balance == 1);
        assert_eq!(s.shortcut_held, balance == 1);
    }
    assert_eq!(balance, 1);
}
