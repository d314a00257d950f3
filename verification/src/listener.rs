use vstd::prelude::*;

use crate::shortcut::{
    KEYCODE_ESC, NativeShortcut, shortcut_named, spec_keycode, spec_modifier_down,
    spec_modifier_flag, unicode_lowercase,
};

verus! {

/// CoreGraphics event type of a key press.
pub const EVENT_TYPE_KEY_DOWN: u32 = 10;
/// CoreGraphics event type of a change of the modifier flags.
pub const EVENT_TYPE_FLAGS_CHANGED: u32 = 12;

/// What the keyboard listener asks the recorder to do.
#[derive(Debug, Clone, Copy, PartialEq, Eq, Structural)]
pub enum RecordingCommand {
    /// Start recording (push-to-talk press).
    Start,
    /// Stop recording and transcribe (push-to-talk release).
    Stop,
    /// Start or stop recording (toggle-mode press).
    Toggle,
    /// Stop recording without transcription (Escape while recording).
    Cancel,
}

/// The listener's own state: whether it is paused (while a new shortcut is
/// being captured) and whether the shortcut's modifier is currently held.
#[derive(Debug, Clone, Copy, PartialEq, Eq, Structural)]
pub struct ListenerState {
    pub paused: bool,
    pub shortcut_held: bool,
}

/// One keyboard event as the event tap delivers it: its CoreGraphics event
/// type, its virtual keycode and its modifier flags.
#[derive(Debug, Clone, Copy, PartialEq, Eq, Structural)]
pub struct KeyEvent {
    pub event_type: u32,
    pub keycode: i64,
    pub flags: u64,
}

/// The configured shortcut and recording mode.
#[derive(Debug, Clone)]
pub struct ShortcutConfig {
    pub shortcut: String,
    pub push_to_talk: bool,
}

/// The command that a key press with `keycode` gives: Escape cancels a
/// recording known to be in progress, and does nothing otherwise.
/// `is_recording` is `None` when the recording state could not be read.
pub open spec fn escape_command(keycode: i64, is_recording: Option<bool>) -> Option<
    RecordingCommand,
> {
    if keycode == KEYCODE_ESC && is_recording == Some(true) {
        Some(RecordingCommand::Cancel)
    } else {
        None
    }
}

/// How a modifier-flags event moves the held state of shortcut `s`, and the
/// command it gives. Only events for the shortcut's own key count; a press is
/// acted on only when the key was not already held, a release only when it
/// was.
pub open spec fn shortcut_step(
    held: bool,
    keycode: i64,
    flags: u64,
    s: NativeShortcut,
    push_to_talk: bool,
) -> (bool, Option<RecordingCommand>) {
    if keycode != spec_keycode(s) {
        (held, None)
    } else if spec_modifier_down(s, flags) && !held {
        (true, Some(if push_to_talk { RecordingCommand::Start } else { RecordingCommand::Toggle }))
    } else if !spec_modifier_down(s, flags) && held {
        (false, if push_to_talk { Some(RecordingCommand::Stop) } else { None })
    } else {
        (held, None)
    }
}

/// The shortcut and mode that a configuration selects: `None` when the
/// configuration could not be read or does not name a single modifier key.
pub open spec fn configured_shortcut(config: Option<&ShortcutConfig>) -> Option<
    (NativeShortcut, bool),
> {
    match config {
        None => None,
        Some(c) => match shortcut_named(unicode_lowercase(c.shortcut@)) {
            None => None,
            Some(s) => Some((s, c.push_to_talk)),
        },
    }
}

/// The decision on one keyboard event once the configured shortcut and mode
/// are known: the listener's next state and the command, if any.
pub open spec fn listener_step(
    state: ListenerState,
    event: KeyEvent,
    is_recording: Option<bool>,
    shortcut: Option<(NativeShortcut, bool)>,
) -> (ListenerState, Option<RecordingCommand>) {
    if state.paused {
        (state, None)
    } else if event.event_type == EVENT_TYPE_KEY_DOWN {
        (state, escape_command(event.keycode, is_recording))
    } else if event.event_type == EVENT_TYPE_FLAGS_CHANGED {
        match shortcut {
            None => (state, None),
            Some((s, push_to_talk)) => {
                let (held, cmd) = shortcut_step(
                    state.shortcut_held,
                    event.keycode,
                    event.flags,
                    s,
                    push_to_talk,
                );
                (ListenerState { paused: state.paused, shortcut_held: held }, cmd)
            },
        }
    } else {
        (state, None)
    }
}

/// The whole decision on one keyboard event: the listener's next state and
/// the command, if any. `is_recording` and `config` are `None` when they
/// could not be read.
pub open spec fn key_event_step(
    state: ListenerState,
    event: KeyEvent,
    is_recording: Option<bool>,
    config: Option<&ShortcutConfig>,
) -> (ListenerState, Option<RecordingCommand>) {
    listener_step(state, event, is_recording, configured_shortcut(config))
}

/// The listener `s` paused, with its held flag kept.
pub open spec fn paused_state(s: ListenerState) -> ListenerState {
    ListenerState { paused: true, shortcut_held: s.shortcut_held }
}

/// The listener `s` running again, with its held flag kept.
pub open spec fn resumed_state(s: ListenerState) -> ListenerState {
    ListenerState { paused: false, shortcut_held: s.shortcut_held }
}

/// Which part of the host's state an event needs to be decided.
#[derive(Debug, Clone, Copy, PartialEq, Eq, Structural)]
pub enum HostQuery {
    /// Nothing: the event is decided from the listener's state alone.
    Nothing,
    /// Whether a recording is in progress (an Escape press).
    RecordingState,
    /// The configured shortcut and mode (a modifier-flags change).
    ShortcutConfig,
}

/// The host state that `listener_step` reads for `event` in `state`.
pub open spec fn host_query_for(state: ListenerState, event: KeyEvent) -> HostQuery {
    if state.paused {
        HostQuery::Nothing
    } else if event.event_type == EVENT_TYPE_KEY_DOWN && event.keycode == KEYCODE_ESC {
        HostQuery::RecordingState
    } else if event.event_type == EVENT_TYPE_FLAGS_CHANGED {
        HostQuery::ShortcutConfig
    } else {
        HostQuery::Nothing
    }
}

/// The command that a key press gives: cancel on Escape while recording.
/// A recording state that could not be read counts as not recording.
pub fn on_key_down(keycode: i64, is_recording: Option<bool>) -> (cmd: Option<RecordingCommand>)
    ensures
        cmd == escape_command(keycode, is_recording),
        keycode != KEYCODE_ESC ==> cmd is None,
        cmd is Some ==> cmd == Some(RecordingCommand::Cancel) && is_recording == Some(true),
{
    if keycode == KEYCODE_ESC {
        let recording = match is_recording {
            Some(r) => r,
            None => false,
        };
        if recording {
            return Some(RecordingCommand::Cancel);
        }
    }
    None
}

impl ListenerState {
    /// A listener that is running and sees no key held.
    pub fn new() -> (s: ListenerState)
        ensures
            !s.paused,
            !s.shortcut_held,
    {
        ListenerState { paused: false, shortcut_held: false }
    }

    /// Pause the listener (while a new shortcut is being captured).
    pub fn pause(&mut self)
        ensures
            *final(self) == paused_state(*old(self)),
    {
        self.paused = true;
    }

    /// Resume the listener.
    pub fn resume(&mut self)
        ensures
            *final(self) == resumed_state(*old(self)),
    {
        self.paused = false;
    }

    /// Which part of the host's state the decision on `event` reads. The
    /// decision does not depend on the part that is not asked for.
    pub fn host_query(&self, event: KeyEvent) -> (q: HostQuery)
        ensures
            q == host_query_for(*self, event),
            q != HostQuery::RecordingState ==> forall|r1: Option<bool>, r2: Option<bool>, sc: Option<(NativeShortcut, bool)>|
                #[trigger] listener_step(*self, event, r1, sc) == #[trigger] listener_step(*self, event, r2, sc),
            q != HostQuery::ShortcutConfig ==> forall|r: Option<bool>, a: Option<(NativeShortcut, bool)>, b: Option<(NativeShortcut, bool)>|
                #[trigger] listener_step(*self, event, r, a) == #[trigger] listener_step(*self, event, r, b),
    {
        if self.paused {
            HostQuery::Nothing
        } else if event.event_type == EVENT_TYPE_KEY_DOWN && event.keycode == KEYCODE_ESC {
            HostQuery::RecordingState
        } else if event.event_type == EVENT_TYPE_FLAGS_CHANGED {
            HostQuery::ShortcutConfig
        } else {
            HostQuery::Nothing
        }
    }

    /// Apply a modifier-flags event for the configured shortcut `shortcut`.
    pub fn on_shortcut_flags(
        &mut self,
        keycode: i64,
        flags: u64,
        shortcut: NativeShortcut,
        push_to_talk: bool,
    ) -> (cmd: Option<RecordingCommand>)
        ensures
            final(self).paused == old(self).paused,
            (final(self).shortcut_held, cmd) == shortcut_step(
                old(self).shortcut_held,
                keycode,
                flags,
                shortcut,
                push_to_talk,
            ),
            // a start or toggle marks the key as newly held, a stop as newly released
            cmd == Some(RecordingCommand::Start) || cmd == Some(RecordingCommand::Toggle)
                ==> !old(self).shortcut_held && final(self).shortcut_held,
            cmd == Some(RecordingCommand::Stop) ==> old(self).shortcut_held
                && !final(self).shortcut_held && push_to_talk,
            cmd != Some(RecordingCommand::Cancel),
            final(self).shortcut_held != old(self).shortcut_held ==> keycode == spec_keycode(
                shortcut,
            ),
            // an event for any other key changes nothing, in both modes
            keycode != spec_keycode(shortcut) ==> cmd is None && *final(self) == *old(self),
            // with the modifier up, the only possible command is a stop; a release of a key
            // that was not held does nothing
            !(flags & spec_modifier_flag(shortcut) == spec_modifier_flag(shortcut)) ==> (cmd is None
                || cmd == Some(RecordingCommand::Stop)),
            !(flags & spec_modifier_flag(shortcut) == spec_modifier_flag(shortcut))
                && !old(self).shortcut_held ==> cmd is None && !final(self).shortcut_held,
            // with the modifier down, nothing is ever stopped
            flags & spec_modifier_flag(shortcut) == spec_modifier_flag(shortcut) ==> cmd != Some(
                RecordingCommand::Stop,
            ),
    {
        if keycode == shortcut.keycode() {
            let pressed = shortcut.modifier_pressed(flags);
            if pressed && !self.shortcut_held {
                self.shortcut_held = true;
                if push_to_talk {
                    Some(RecordingCommand::Start)
                } else {
                    Some(RecordingCommand::Toggle)
                }
            } else if !pressed && self.shortcut_held {
                self.shortcut_held = false;
                if push_to_talk {
                    Some(RecordingCommand::Stop)
                } else {
                    None
                }
            } else {
                None
            }
        } else {
            None
        }
    }

    /// Decide on one keyboard event: the listener's next state and the
    /// command for the recorder. The event itself is always passed on.
    /// `is_recording` and `config` are `None` when the host's state could not
    /// be read.
    pub fn handle_key_event(
        &mut self,
        event: KeyEvent,
        is_recording: Option<bool>,
        config: Option<&ShortcutConfig>,
    ) -> (cmd: Option<RecordingCommand>)
        ensures
            (*final(self), cmd) == key_event_step(*old(self), event, is_recording, config),
            // a paused listener ignores every event
            old(self).paused ==> *final(self) == *old(self) && cmd is None,
            // Escape cancels only a recording in progress and moves no key state
            cmd == Some(RecordingCommand::Cancel) ==> event.event_type == EVENT_TYPE_KEY_DOWN
                && event.keycode == KEYCODE_ESC && is_recording == Some(true) && *final(self)
                == *old(self),
            final(self).paused == old(self).paused,
            // a key press other than Escape does nothing
            event.event_type == EVENT_TYPE_KEY_DOWN && event.keycode != KEYCODE_ESC ==> cmd is None
                && *final(self) == *old(self),
            // a modifier change of any key but the configured one does nothing, in both modes
            event.event_type == EVENT_TYPE_FLAGS_CHANGED ==> (configured_shortcut(config) matches Some(
                (s, _),
            ) ==> (event.keycode != spec_keycode(s) ==> cmd is None && *final(self) == *old(self))),
            // other event types do nothing
            event.event_type != EVENT_TYPE_KEY_DOWN && event.event_type != EVENT_TYPE_FLAGS_CHANGED
                ==> cmd is None && *final(self) == *old(self),
    {
        if self.paused {
            return None;
        }
        if event.event_type == EVENT_TYPE_KEY_DOWN {
            return on_key_down(event.keycode, is_recording);
        }
        if event.event_type == EVENT_TYPE_FLAGS_CHANGED {
            match config {
                None => None,
                Some(c) => match NativeShortcut::from_string(c.shortcut.as_str()) {
                    None => None,
                    Some(s) => self.on_shortcut_flags(event.keycode, event.flags, s, c.push_to_talk),
                },
            }
        } else {
            None
        }
    }
}

/// In push-to-talk mode, pressing the shortcut's key starts a recording and
/// releasing it stops it, leaving the key state as it was before the press.
pub proof fn law_push_to_talk_press_then_release(
    s: NativeShortcut,
    press_flags: u64,
    release_flags: u64,
)
    requires
        spec_modifier_down(s, press_flags),
        !spec_modifier_down(s, release_flags),
    ensures
        shortcut_step(false, spec_keycode(s), press_flags, s, true) == (
        true,
        Some(RecordingCommand::Start),
        ),
        shortcut_step(
            shortcut_step(false, spec_keycode(s), press_flags, s, true).0,
            spec_keycode(s),
            release_flags,
            s,
            true,
        ) == (false, Some(RecordingCommand::Stop)),
{
}

/// In toggle mode, pressing the shortcut's key toggles recording and
/// releasing it does nothing but mark the key as released.
pub proof fn law_toggle_press_then_release(s: NativeShortcut, press_flags: u64, release_flags: u64)
    requires
        spec_modifier_down(s, press_flags),
        !spec_modifier_down(s, release_flags),
    ensures
        shortcut_step(false, spec_keycode(s), press_flags, s, false) == (
        true,
        Some(RecordingCommand::Toggle),
        ),
        shortcut_step(
            shortcut_step(false, spec_keycode(s), press_flags, s, false).0,
            spec_keycode(s),
            release_flags,
            s,
            false,
        ) == (false, None::<RecordingCommand>),
{
}

/// A second press report while the key is still held gives no further
/// command: one physical press acts once.
pub proof fn law_repeated_press_acts_once(
    s: NativeShortcut,
    flags1: u64,
    flags2: u64,
    push_to_talk: bool,
)
    requires
        spec_modifier_down(s, flags1),
        spec_modifier_down(s, flags2),
    ensures
        shortcut_step(
            shortcut_step(false, spec_keycode(s), flags1, s, push_to_talk).0,
            spec_keycode(s),
            flags2,
            s,
            push_to_talk,
        ) == (true, None::<RecordingCommand>),
{
}

/// One keyboard event together with what the host reported when it was
/// decided: the recording state and the configured shortcut and mode.
pub open spec fn input_step(
    state: ListenerState,
    input: (KeyEvent, Option<bool>, Option<(NativeShortcut, bool)>),
) -> (ListenerState, Option<RecordingCommand>) {
    listener_step(state, input.0, input.1, input.2)
}

/// The listener's state after deciding a run of events in order.
pub open spec fn run_listener(
    state: ListenerState,
    inputs: Seq<(KeyEvent, Option<bool>, Option<(NativeShortcut, bool)>)>,
) -> ListenerState
    decreases inputs.len(),
{
    if inputs.len() == 0 {
        state
    } else {
        run_listener(input_step(state, inputs[0]).0, inputs.drop_first())
    }
}

/// How many times a run of events gives command `c`.
pub open spec fn count_commands(
    state: ListenerState,
    inputs: Seq<(KeyEvent, Option<bool>, Option<(NativeShortcut, bool)>)>,
    c: RecordingCommand,
) -> nat
    decreases inputs.len(),
{
    if inputs.len() == 0 {
        0
    } else {
        let (next, cmd) = input_step(state, inputs[0]);
        (if cmd == Some(c) { 1nat } else { 0nat }) + count_commands(next, inputs.drop_first(), c)
    }
}

/// While paused, any number of events leaves the listener exactly as it was
/// (in particular whether the shortcut is held) and gives no command.
pub proof fn law_paused_run_changes_nothing(
    state: ListenerState,
    inputs: Seq<(KeyEvent, Option<bool>, Option<(NativeShortcut, bool)>)>,
    c: RecordingCommand,
)
    requires
        state.paused,
    ensures
        run_listener(state, inputs) == state,
        count_commands(state, inputs, c) == 0,
    decreases inputs.len(),
{
    if inputs.len() > 0 {
        law_paused_run_changes_nothing(state, inputs.drop_first(), c);
    }
}

/// Pausing, any number of events, then resuming gives back a running
/// listener whose held flag is what it was before the pause.
pub proof fn law_pause_then_resume_restores(
    state: ListenerState,
    inputs: Seq<(KeyEvent, Option<bool>, Option<(NativeShortcut, bool)>)>,
)
    ensures
        resumed_state(run_listener(paused_state(state), inputs)) == resumed_state(state),
{
    law_paused_run_changes_nothing(paused_state(state), inputs, RecordingCommand::Start);
}

/// The step of the alternation law: from a running listener configured for
/// push-to-talk on `s`, the starts minus the stops that a run gives, added to
/// 1 when the key starts held, stay 0 or 1 and tell whether the key ends held.
proof fn lemma_push_to_talk_balance(
    state: ListenerState,
    s: NativeShortcut,
    inputs: Seq<(KeyEvent, Option<bool>, Option<(NativeShortcut, bool)>)>,
)
    requires
        !state.paused,
        forall|i: int| 0 <= i < inputs.len() ==> #[trigger] inputs[i].2 == Some((s, true)),
    ensures
        ({
            let d = (if state.shortcut_held { 1int } else { 0int }) + count_commands(
                state,
                inputs,
                RecordingCommand::Start,
            ) - count_commands(state, inputs, RecordingCommand::Stop);
            &&& 0 <= d <= 1
            &&& run_listener(state, inputs).shortcut_held == (d == 1)
            &&& !run_listener(state, inputs).paused
        }),
    decreases inputs.len(),
{
    if inputs.len() > 0 {
        let rest = inputs.drop_first();
        assert(inputs[0].2 == Some((s, true)));
        assert forall|i: int| 0 <= i < rest.len() implies #[trigger] rest[i].2 == Some((s, true)) by {
            assert(rest[i] == inputs[i + 1]);
        }
        let next = input_step(state, inputs[0]).0;
        lemma_push_to_talk_balance(next, s, rest);
    }
}

/// In push-to-talk mode the starts and stops that a running listener gives
/// alternate, beginning with a start: after every prefix of a run of events
/// from a fresh listener, the starts exceed the stops by 0 or 1, and by 1
/// exactly when the shortcut's key is held.
pub proof fn law_push_to_talk_starts_and_stops_alternate(
    s: NativeShortcut,
    inputs: Seq<(KeyEvent, Option<bool>, Option<(NativeShortcut, bool)>)>,
    k: int,
)
    requires
        forall|i: int| 0 <= i < inputs.len() ==> #[trigger] inputs[i].2 == Some((s, true)),
        0 <= k <= inputs.len(),
    ensures
        ({
            let fresh = ListenerState { paused: false, shortcut_held: false };
            let prefix = inputs.take(k);
            let d = count_commands(fresh, prefix, RecordingCommand::Start) - count_commands(
                fresh,
                prefix,
                RecordingCommand::Stop,
            );
            &&& 0 <= d <= 1
            &&& run_listener(fresh, prefix).shortcut_held == (d == 1)
        }),
{
    let prefix = inputs.take(k);
    assert forall|i: int| 0 <= i < prefix.len() implies #[trigger] prefix[i].2 == Some((s, true)) by {
        assert(prefix[i] == inputs[i]);
    }
    lemma_push_to_talk_balance(ListenerState { paused: false, shortcut_held: false }, s, prefix);
}

/// Only Escape acts on a key press: any other key press gives no command,
/// and Escape can give nothing but a cancel of a recording known to be in progress.
pub proof fn law_only_escape_acts_on_key_down(
    state: ListenerState,
    keycode: i64,
    is_recording: Option<bool>,
    shortcut: Option<(NativeShortcut, bool)>,
)
    ensures
        keycode != KEYCODE_ESC ==> escape_command(keycode, is_recording) is None,
        escape_command(keycode, is_recording) is Some ==> escape_command(keycode, is_recording)
            == Some(RecordingCommand::Cancel) && is_recording == Some(true),
        keycode != KEYCODE_ESC ==> listener_step(
            state,
            KeyEvent { event_type: EVENT_TYPE_KEY_DOWN, keycode, flags: 0 },
            is_recording,
            shortcut,
        ) == (state, None::<RecordingCommand>),
{
}

/// A modifier change of any key but the configured shortcut's own key changes
/// nothing and gives no command, in push-to-talk and in toggle mode alike
/// (the left and right keys of one family are told apart by keycode).
pub proof fn law_other_keys_change_nothing(
    state: ListenerState,
    event: KeyEvent,
    is_recording: Option<bool>,
    s: NativeShortcut,
    push_to_talk: bool,
)
    requires
        event.event_type == EVENT_TYPE_FLAGS_CHANGED,
        event.keycode != spec_keycode(s),
    ensures
        listener_step(state, event, is_recording, Some((s, push_to_talk))) == (
        state,
        None::<RecordingCommand>,
        ),
{
}

/// With the shortcut's modifier up, the only command ever given is a stop,
/// and only for a key that was held: a release of a key that was not held
/// does nothing and leaves it not held, in both modes. With the modifier
/// down, nothing is ever stopped.
pub proof fn law_release_never_starts(
    held: bool,
    keycode: i64,
    flags: u64,
    s: NativeShortcut,
    push_to_talk: bool,
)
    ensures
        !(flags & spec_modifier_flag(s) == spec_modifier_flag(s)) ==> {
            let (h, cmd) = shortcut_step(held, keycode, flags, s, push_to_talk);
            &&& cmd is None || (cmd == Some(RecordingCommand::Stop) && held && !h)
            &&& !held ==> h == false && cmd is None
        },
        flags & spec_modifier_flag(s) == spec_modifier_flag(s) ==> shortcut_step(
            held,
            keycode,
            flags,
            s,
            push_to_talk,
        ).1 != Some(RecordingCommand::Stop),
{
}

} // verus!
