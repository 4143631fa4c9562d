use vstd::prelude::*;
use crate::hotkey::{all_pressed, hotkey_is, hotkey_outcome, key_in, HotkeyOutcome, Key, ParsedHotkey};
use crate::input::{InputState, Mode, VoiceError};
use crate::text::{push_all, push_str, string_of};

verus! {

/// How long a hotkey must be held before it starts a recording, in milliseconds.
pub const HOTKEY_DELAY_THRESHOLD_MS: u64 = 300;

/// Something the keyboard listener asks its surroundings to do right away.
#[derive(Clone, Copy, Debug, PartialEq, Eq, Structural)]
pub enum KeyAction {
    /// Tell the user interface that the input state changed.
    EmitState(InputState),
    /// Keep the clipboard's content, unless some is kept already.
    SaveClipboard,
}

/// The work the listener starts when its state has changed since the last event.
#[derive(Clone, Copy, Debug, PartialEq, Eq, Structural)]
pub enum Reaction {
    Nothing,
    /// Start recording audio.
    StartRecording,
    /// Stop recording, transcribe and type the text; then call `finish_work`.
    Transcribe,
    /// Stop recording, translate and type the text; then call `finish_work`.
    Translate,
    /// Start recording and a streaming session; call `streaming_failed` if the session
    /// cannot start.
    StartStreaming,
    /// Finish the streaming session and type its text; then call `finish_work`.
    FinalizeStreaming,
}

/// What one keyboard event led to.
pub struct KeyStep {
    pub actions: Vec<KeyAction>,
    pub reaction: Reaction,
}

/// The listener's state as the specification sees it.
pub struct ListenerView {
    pub state: InputState,
    /// The state the last reaction was chosen for.
    pub last_state: InputState,
    /// The keys held down, each once.
    pub pressed: Seq<Key>,
    /// A hotkey started a recording that has not been finished.
    pub recording_started: bool,
    /// When a matching hotkey was first seen held, in milliseconds.
    pub press_time: Option<u64>,
    /// When the current recording started, in milliseconds.
    pub hotkey_start: Option<u64>,
}

/// The decision core of the keyboard manager: which keys are held, which hotkeys are
/// configured, and what the input state is.  The surroundings feed it key events with
/// the time they happened and carry out what it asks for.
pub struct KeyboardManager {
    state: InputState,
    last_state: InputState,
    pressed_keys: Vec<Key>,
    recording_started: bool,
    hotkey_press_time: Option<u64>,
    hotkey_start_time: Option<u64>,
    transcribe_hotkey: Option<ParsedHotkey>,
    translate_hotkey: Option<ParsedHotkey>,
    streaming_enabled: bool,
    save_wav_files: bool,
    streaming_chunk_interval_ms: u64,
}

/// `k` added to the held keys, unless it is held already.
pub open spec fn add_key(s: Seq<Key>, k: Key) -> Seq<Key> {
    if s.contains(k) {
        s
    } else {
        s.push(k)
    }
}

/// The held keys without `k`.
pub open spec fn remove_key(s: Seq<Key>, k: Key) -> Seq<Key>
    decreases s.len(),
{
    if s.len() == 0 {
        s
    } else {
        let r = remove_key(s.drop_last(), k);
        if s.last() == k {
            r
        } else {
            r.push(s.last())
        }
    }
}

/// The keys of a configured hotkey, if one is configured.
pub open spec fn hotkey_keys(h: Option<ParsedHotkey>) -> Option<Seq<Key>> {
    match h {
        Some(p) => Some(p.key_combination@),
        None => None,
    }
}

/// The state a hotkey's trigger moves to.
pub open spec fn trigger_state(transcribe: bool, streaming: bool) -> InputState {
    if !transcribe {
        InputState::RecordingTranslate
    } else if streaming {
        InputState::Streaming
    } else {
        InputState::Recording
    }
}

/// One hotkey check on a key press (which happens only while idle): the hotkey matches
/// the held keys and no recording is under way.  Its first match only notes the time; a match at least
/// `HOTKEY_DELAY_THRESHOLD_MS` later starts a recording, forgets the held keys and tells
/// the user interface.  Every match asks to keep the clipboard.
pub open spec fn hotkey_check(
    v: ListenerView,
    hk: Option<Seq<Key>>,
    target: InputState,
    now: u64,
) -> (ListenerView, Seq<KeyAction>) {
    match hk {
        Some(c) => if all_pressed(c, v.pressed) && !v.recording_started {
            match v.press_time {
                Some(t) => if now >= t + HOTKEY_DELAY_THRESHOLD_MS {
                    (
                        ListenerView {
                            state: target,
                            pressed: Seq::<Key>::empty(),
                            recording_started: true,
                            press_time: None,
                            hotkey_start: Some(now),
                            ..v
                        },
                        seq![KeyAction::EmitState(target), KeyAction::SaveClipboard],
                    )
                } else {
                    (v, seq![KeyAction::SaveClipboard])
                },
                None => (ListenerView { press_time: Some(now), ..v }, seq![KeyAction::SaveClipboard]),
            }
        } else {
            (v, Seq::<KeyAction>::empty())
        },
        None => (v, Seq::<KeyAction>::empty()),
    }
}

/// A key press: ignored unless idle; otherwise the key is held and the transcribe
/// hotkey, then the translate hotkey, are checked.
pub open spec fn press_step(
    v: ListenerView,
    transcribe: Option<Seq<Key>>,
    translate: Option<Seq<Key>>,
    streaming: bool,
    key: Key,
    now: u64,
) -> (ListenerView, Seq<KeyAction>) {
    if v.state != InputState::Idle {
        (v, Seq::<KeyAction>::empty())
    } else {
        let v1 = ListenerView { pressed: add_key(v.pressed, key), ..v };
        let (v2, a1) = hotkey_check(v1, transcribe, trigger_state(true, streaming), now);
        let (v3, a2) = hotkey_check(v2, translate, trigger_state(false, streaming), now);
        (v3, a1 + a2)
    }
}

/// The state that letting go of every key moves to.
pub open spec fn release_state(s: InputState) -> InputState {
    match s {
        InputState::Recording => InputState::Processing,
        InputState::RecordingTranslate => InputState::Translating,
        InputState::Streaming => InputState::StreamingFinalizing,
        _ => s,
    }
}

/// A key release: heeded only while idle or recording; when no key is held any more,
/// the press time is forgotten and a recording moves on to its processing.
pub open spec fn release_step(v: ListenerView, key: Key) -> (ListenerView, Seq<KeyAction>) {
    if !(v.state == InputState::Recording || v.state == InputState::RecordingTranslate || v.state
        == InputState::Streaming || v.state == InputState::Idle) {
        (v, Seq::<KeyAction>::empty())
    } else {
        let keys = remove_key(v.pressed, key);
        if keys.len() == 0 {
            let next = release_state(v.state);
            (
                ListenerView { pressed: keys, press_time: None, state: next, ..v },
                if next != v.state {
                    seq![KeyAction::EmitState(next)]
                } else {
                    Seq::<KeyAction>::empty()
                },
            )
        } else {
            (ListenerView { pressed: keys, ..v }, Seq::<KeyAction>::empty())
        }
    }
}

/// The work that a state calls for when it is new.
pub open spec fn reaction_for(s: InputState) -> Reaction {
    match s {
        InputState::Recording => Reaction::StartRecording,
        InputState::RecordingTranslate => Reaction::StartRecording,
        InputState::Processing => Reaction::Transcribe,
        InputState::Translating => Reaction::Translate,
        InputState::Streaming => Reaction::StartStreaming,
        InputState::StreamingFinalizing => Reaction::FinalizeStreaming,
        _ => Reaction::Nothing,
    }
}

/// After every event: a state that differs from the last one seen is noted and its work
/// is started.
pub open spec fn react_step(v: ListenerView) -> (ListenerView, Reaction) {
    if v.state != v.last_state {
        (ListenerView { last_state: v.state, ..v }, reaction_for(v.state))
    } else {
        (v, Reaction::Nothing)
    }
}

impl View for KeyboardManager {
    type V = ListenerView;

    closed spec fn view(&self) -> ListenerView {
        ListenerView {
            state: self.state,
            last_state: self.last_state,
            pressed: self.pressed_keys@,
            recording_started: self.recording_started,
            press_time: self.hotkey_press_time,
            hotkey_start: self.hotkey_start_time,
        }
    }
}


/// The view after the work of a processing state is done: idle again, with no recording.
pub open spec fn finished(v: ListenerView) -> ListenerView {
    ListenerView { state: InputState::Idle, recording_started: false, hotkey_start: None, ..v }
}

fn remove_key_exec(keys: &Vec<Key>, k: Key) -> (r: Vec<Key>)
    ensures
        r@ == remove_key(keys@, k),
{
    let mut out: Vec<Key> = Vec::new();
    let mut i: usize = 0;
    while i < keys.len()
        invariant
            i <= keys@.len(),
            out@ == remove_key(keys@.take(i as int), k),
        decreases keys@.len() - i,
    {
        proof {
            assert(keys@.take(i + 1).drop_last() =~= keys@.take(i as int));
        }
        if keys[i] != k {
            out.push(keys[i]);
        }
        i = i + 1;
    }
    assert(keys@.take(keys@.len() as int) =~= keys@);
    out
}

impl KeyboardManager {
    /// The keys of the transcribe hotkey, if one is set.
    pub closed spec fn transcribe_keys(&self) -> Option<Seq<Key>> {
        hotkey_keys(self.transcribe_hotkey)
    }

    /// The keys of the translate hotkey, if one is set.
    pub closed spec fn translate_keys(&self) -> Option<Seq<Key>> {
        hotkey_keys(self.translate_hotkey)
    }

    /// Streaming mode is on.
    pub closed spec fn streaming_on(&self) -> bool {
        self.streaming_enabled
    }

    /// Recordings are kept as WAV files.
    pub closed spec fn saves_wav_files(&self) -> bool {
        self.save_wav_files
    }

    /// The interval between streaming passes, in milliseconds.
    pub closed spec fn chunk_interval(&self) -> u64 {
        self.streaming_chunk_interval_ms
    }

    /// The configuration is the same in both.
    pub open spec fn same_config(&self, other: &KeyboardManager) -> bool {
        &&& self.transcribe_keys() == other.transcribe_keys()
        &&& self.translate_keys() == other.translate_keys()
        &&& self.streaming_on() == other.streaming_on()
        &&& self.saves_wav_files() == other.saves_wav_files()
        &&& self.chunk_interval() == other.chunk_interval()
    }

    /// An idle manager with no hotkeys, streaming off, recordings not saved, and
    /// streaming passes every 500 ms.
    pub fn new() -> (m: Self)
        ensures
            m@ == (ListenerView {
                state: InputState::Idle,
                last_state: InputState::Idle,
                pressed: Seq::<Key>::empty(),
                recording_started: false,
                press_time: None,
                hotkey_start: None,
            }),
            m.transcribe_keys() is None,
            m.translate_keys() is None,
            !m.streaming_on(),
            !m.saves_wav_files(),
            m.chunk_interval() == 500,
    {
        KeyboardManager {
            state: InputState::Idle,
            last_state: InputState::Idle,
            pressed_keys: Vec::new(),
            recording_started: false,
            hotkey_press_time: None,
            hotkey_start_time: None,
            transcribe_hotkey: None,
            translate_hotkey: None,
            streaming_enabled: false,
            save_wav_files: false,
            streaming_chunk_interval_ms: 500,
        }
    }

    /// The current input state.
    pub fn get_state(&self) -> (s: InputState)
        ensures
            s == self@.state,
    {
        self.state
    }

    /// When the current recording started, in milliseconds.
    pub fn get_hotkey_start_time(&self) -> (t: Option<u64>)
        ensures
            t == self@.hotkey_start,
    {
        self.hotkey_start_time
    }

    /// Whether streaming mode is on.
    pub fn is_streaming_enabled(&self) -> (b: bool)
        ensures
            b == self.streaming_on(),
    {
        self.streaming_enabled
    }

    /// Whether recordings are kept as WAV files.
    pub fn get_save_wav_files(&self) -> (b: bool)
        ensures
            b == self.saves_wav_files(),
    {
        self.save_wav_files
    }

    /// The interval between streaming passes, in milliseconds.
    pub fn get_streaming_chunk_interval(&self) -> (ms: u64)
        ensures
            ms == self.chunk_interval(),
    {
        self.streaming_chunk_interval_ms
    }

    fn check_hotkey(&mut self, transcribe: bool, now_ms: u64) -> (r: Vec<KeyAction>)
        ensures
            final(self).same_config(old(self)),
            (final(self)@, r@) == hotkey_check(
                old(self)@,
                if transcribe {
                    old(self).transcribe_keys()
                } else {
                    old(self).translate_keys()
                },
                trigger_state(transcribe, old(self).streaming_on()),
                now_ms,
            ),
    {
        let mut actions: Vec<KeyAction> = Vec::new();
        let matched = if transcribe {
            match &self.transcribe_hotkey {
                Some(h) => h.matches(self.pressed_keys.as_slice()),
                None => false,
            }
        } else {
            match &self.translate_hotkey {
                Some(h) => h.matches(self.pressed_keys.as_slice()),
                None => false,
            }
        };
        if matched && !self.recording_started {
            match self.hotkey_press_time {
                Some(t) => {
                    if now_ms >= t && now_ms - t >= HOTKEY_DELAY_THRESHOLD_MS {
                        let target = if !transcribe {
                            InputState::RecordingTranslate
                        } else if self.streaming_enabled {
                            InputState::Streaming
                        } else {
                            InputState::Recording
                        };
                        self.pressed_keys = Vec::new();
                        self.hotkey_start_time = Some(now_ms);
                        self.state = target;
                        self.recording_started = true;
                        self.hotkey_press_time = None;
                        actions.push(KeyAction::EmitState(target));
                    }
                },
                None => {
                    self.hotkey_press_time = Some(now_ms);
                },
            }
            actions.push(KeyAction::SaveClipboard);
        }
        proof {
            let ghost seen = if transcribe {
                old(self).transcribe_keys()
            } else {
                old(self).translate_keys()
            };
            assert(actions@ == hotkey_check(
                old(self)@,
                seen,
                trigger_state(transcribe, old(self).streaming_on()),
                now_ms,
            ).1);
        }
        actions
    }

    fn react(&mut self) -> (r: Reaction)
        ensures
            final(self).same_config(old(self)),
            (final(self)@, r) == react_step(old(self)@),
    {
        if self.state != self.last_state {
            self.last_state = self.state;
            match self.state {
                InputState::Recording => Reaction::StartRecording,
                InputState::RecordingTranslate => Reaction::StartRecording,
                InputState::Processing => Reaction::Transcribe,
                InputState::Translating => Reaction::Translate,
                InputState::Streaming => Reaction::StartStreaming,
                InputState::StreamingFinalizing => Reaction::FinalizeStreaming,
                _ => Reaction::Nothing,
            }
        } else {
            Reaction::Nothing
        }
    }

    /// A key went down at `now_ms`.
    pub fn on_key_press(&mut self, key: Key, now_ms: u64) -> (r: KeyStep)
        ensures
            final(self).same_config(old(self)),
            ({
                let (v1, acts) = press_step(
                    old(self)@,
                    old(self).transcribe_keys(),
                    old(self).translate_keys(),
                    old(self).streaming_on(),
                    key,
                    now_ms,
                );
                let (v2, re) = react_step(v1);
                final(self)@ == v2 && r.actions@ == acts && r.reaction == re
            }),
    {
        let mut actions: Vec<KeyAction> = Vec::new();
        if self.state == InputState::Idle {
            if !key_in(self.pressed_keys.as_slice(), key) {
                self.pressed_keys.push(key);
            }
            let a1 = self.check_hotkey(true, now_ms);
            let a2 = self.check_hotkey(false, now_ms);
            actions = a1;
            let mut a2m = a2;
            actions.append(&mut a2m);
        }
        let reaction = self.react();
        KeyStep { actions, reaction }
    }

    /// A key went up.
    pub fn on_key_release(&mut self, key: Key) -> (r: KeyStep)
        ensures
            final(self).same_config(old(self)),
            ({
                let (v1, acts) = release_step(old(self)@, key);
                let (v2, re) = react_step(v1);
                final(self)@ == v2 && r.actions@ == acts && r.reaction == re
            }),
    {
        let mut actions: Vec<KeyAction> = Vec::new();
        if self.state == InputState::Recording || self.state == InputState::RecordingTranslate
            || self.state == InputState::Streaming || self.state == InputState::Idle {
            let keys = remove_key_exec(&self.pressed_keys, key);
            self.pressed_keys = keys;
            if self.pressed_keys.len() == 0 {
                self.hotkey_press_time = None;
                let next = match self.state {
                    InputState::Recording => InputState::Processing,
                    InputState::RecordingTranslate => InputState::Translating,
                    InputState::Streaming => InputState::StreamingFinalizing,
                    s => s,
                };
                if next != self.state {
                    actions.push(KeyAction::EmitState(next));
                }
                self.state = next;
            }
        }
        let reaction = self.react();
        KeyStep { actions, reaction }
    }

    /// The work of `Transcribe`, `Translate` or `FinalizeStreaming` is done: the manager
    /// is idle again and tells the user interface so.
    pub fn finish_work(&mut self) -> (r: Vec<KeyAction>)
        ensures
            final(self).same_config(old(self)),
            final(self)@ == finished(old(self)@),
            r@ == seq![KeyAction::EmitState(InputState::Idle)],
    {
        self.state = InputState::Idle;
        self.recording_started = false;
        self.hotkey_start_time = None;
        let mut r: Vec<KeyAction> = Vec::new();
        r.push(KeyAction::EmitState(InputState::Idle));
        r
    }

    /// The streaming session of `StartStreaming` could not start: the manager is idle
    /// again, without telling the user interface.
    pub fn streaming_failed(&mut self)
        ensures
            final(self).same_config(old(self)),
            final(self)@ == finished(old(self)@),
    {
        self.state = InputState::Idle;
        self.recording_started = false;
        self.hotkey_start_time = None;
    }

    /// Back to idle with no key held and no recording start time.
    pub fn reset_state(&mut self)
        ensures
            final(self).same_config(old(self)),
            final(self)@ == (ListenerView {
                state: InputState::Idle,
                pressed: Seq::<Key>::empty(),
                hotkey_start: None,
                ..old(self)@
            }),
    {
        self.state = InputState::Idle;
        self.pressed_keys = Vec::new();
        self.hotkey_start_time = None;
    }

    /// Turns streaming mode on or off.
    pub fn set_streaming_enabled(&mut self, enabled: bool)
        ensures
            final(self)@ == old(self)@,
            final(self).streaming_on() == enabled,
            final(self).transcribe_keys() == old(self).transcribe_keys(),
            final(self).translate_keys() == old(self).translate_keys(),
            final(self).saves_wav_files() == old(self).saves_wav_files(),
            final(self).chunk_interval() == old(self).chunk_interval(),
    {
        self.streaming_enabled = enabled;
    }

    /// Sets the interval between streaming passes, in milliseconds.
    pub fn set_streaming_chunk_interval(&mut self, interval_ms: u64)
        ensures
            final(self)@ == old(self)@,
            final(self).chunk_interval() == interval_ms,
            final(self).streaming_on() == old(self).streaming_on(),
            final(self).transcribe_keys() == old(self).transcribe_keys(),
            final(self).translate_keys() == old(self).translate_keys(),
            final(self).saves_wav_files() == old(self).saves_wav_files(),
    {
        self.streaming_chunk_interval_ms = interval_ms;
    }

    /// Sets whether recordings are kept as WAV files.
    pub fn set_save_wav_files(&mut self, save_wav_files: bool)
        ensures
            final(self)@ == old(self)@,
            final(self).saves_wav_files() == save_wav_files,
            final(self).streaming_on() == old(self).streaming_on(),
            final(self).transcribe_keys() == old(self).transcribe_keys(),
            final(self).translate_keys() == old(self).translate_keys(),
            final(self).chunk_interval() == old(self).chunk_interval(),
    {
        self.save_wav_files = save_wav_files;
    }
}


/// The message that setting a pair of hotkeys fails with, if it fails: the transcribe
/// hotkey is read first.
pub open spec fn hotkeys_error(transcribe: Seq<char>, translate: Seq<char>) -> Option<Seq<char>> {
    match hotkey_outcome(transcribe) {
        HotkeyOutcome::Failed(m) => Some("Failed to parse transcribe hotkey: "@ + m),
        _ => match hotkey_outcome(translate) {
            HotkeyOutcome::Failed(m) => Some("Failed to parse translate hotkey: "@ + m),
            _ => None,
        },
    }
}

/// The keys that a string parses to, if it parses.
pub open spec fn parsed_keys(s: Seq<char>) -> Option<Seq<Key>> {
    match hotkey_outcome(s) {
        HotkeyOutcome::Parsed(_, _, c) => Some(c),
        _ => None,
    }
}

impl KeyboardManager {
    /// Parses and sets both hotkeys; when either fails to parse, neither is set.
    pub fn set_hotkeys(&mut self, transcribe_key: &str, translate_key: &str) -> (r: Result<
        (),
        VoiceError,
    >)
        requires
            !(hotkey_outcome(transcribe_key@) is Panics),
            !(hotkey_outcome(translate_key@) is Panics),
        ensures
            final(self)@ == old(self)@,
            final(self).streaming_on() == old(self).streaming_on(),
            final(self).saves_wav_files() == old(self).saves_wav_files(),
            final(self).chunk_interval() == old(self).chunk_interval(),
            match r {
                Ok(()) => {
                    &&& hotkeys_error(transcribe_key@, translate_key@) is None
                    &&& final(self).transcribe_keys() == parsed_keys(transcribe_key@)
                    &&& final(self).translate_keys() == parsed_keys(translate_key@)
                    &&& final(self).transcribe_keys() is Some
                    &&& final(self).translate_keys() is Some
                },
                Err(e) => {
                    &&& final(self).same_config(old(self))
                    &&& e matches VoiceError::Audio(m) && hotkeys_error(
                        transcribe_key@,
                        translate_key@,
                    ) == Some(m@)
                },
            },
    {
        let t = ParsedHotkey::parse(transcribe_key);
        let t = match t {
            Ok(h) => h,
            Err(e) => {
                let mut msg: Vec<char> = Vec::new();
                push_str(&mut msg, "Failed to parse transcribe hotkey: ");
                push_str(&mut msg, e.as_str());
                return Err(VoiceError::Audio(string_of(msg.as_slice())));
            },
        };
        let l = ParsedHotkey::parse(translate_key);
        let l = match l {
            Ok(h) => h,
            Err(e) => {
                let mut msg: Vec<char> = Vec::new();
                push_str(&mut msg, "Failed to parse translate hotkey: ");
                push_str(&mut msg, e.as_str());
                return Err(VoiceError::Audio(string_of(msg.as_slice())));
            },
        };
        self.transcribe_hotkey = Some(t);
        self.translate_hotkey = Some(l);
        Ok(())
    }

    /// Checks that a transcribe hotkey string parses.
    pub fn set_transcribe_hotkey(&self, hotkey_str: &str) -> (r: Result<(), VoiceError>)
        requires
            !(hotkey_outcome(hotkey_str@) is Panics),
        ensures
            match r {
                Ok(()) => hotkey_outcome(hotkey_str@) is Parsed,
                Err(e) => e matches VoiceError::Other(m) && hotkey_outcome(hotkey_str@)
                    == HotkeyOutcome::Failed(m@),
            },
    {
        match ParsedHotkey::parse(hotkey_str) {
            Ok(_) => Ok(()),
            Err(e) => Err(VoiceError::Other(e)),
        }
    }

    /// Checks that a translate hotkey string parses.
    pub fn set_translate_hotkey(&self, hotkey_str: &str) -> (r: Result<(), VoiceError>)
        requires
            !(hotkey_outcome(hotkey_str@) is Panics),
        ensures
            match r {
                Ok(()) => hotkey_outcome(hotkey_str@) is Parsed,
                Err(e) => e matches VoiceError::Other(m) && hotkey_outcome(hotkey_str@)
                    == HotkeyOutcome::Failed(m@),
            },
    {
        match ParsedHotkey::parse(hotkey_str) {
            Ok(_) => Ok(()),
            Err(e) => Err(VoiceError::Other(e)),
        }
    }
}

/// Key presses are ignored entirely unless the input is idle.
pub proof fn lemma_press_ignored_unless_idle(
    v: ListenerView,
    transcribe: Option<Seq<Key>>,
    translate: Option<Seq<Key>>,
    streaming: bool,
    key: Key,
    now: u64,
)
    requires
        v.state != InputState::Idle,
    ensures
        press_step(v, transcribe, translate, streaming, key, now) == (v, Seq::<KeyAction>::empty()),
{
}

/// Against accidental touches, the first press that completes a hotkey never starts a
/// recording: it only notes the time.
pub proof fn lemma_first_match_never_triggers(
    v: ListenerView,
    transcribe: Option<Seq<Key>>,
    translate: Option<Seq<Key>>,
    streaming: bool,
    key: Key,
    now: u64,
)
    requires
        v.press_time is None,
    ensures
        press_step(v, transcribe, translate, streaming, key, now).0.state == v.state,
{
}

/// A key press changes the input state only from idle, only when a hotkey was first seen
/// held at least `HOTKEY_DELAY_THRESHOLD_MS` earlier, and only to a recording state;
/// it then forgets the held keys, marks the recording as started and tells the user
/// interface.
pub proof fn lemma_trigger_needs_hold(
    v: ListenerView,
    transcribe: Option<Seq<Key>>,
    translate: Option<Seq<Key>>,
    streaming: bool,
    key: Key,
    now: u64,
)
    ensures
        ({
            let (w, acts) = press_step(v, transcribe, translate, streaming, key, now);
            w.state != v.state ==> {
                &&& v.state == InputState::Idle
                &&& !v.recording_started
                &&& v.press_time matches Some(t) && now >= t + HOTKEY_DELAY_THRESHOLD_MS
                &&& w.state == InputState::Recording || w.state == InputState::Streaming
                    || w.state == InputState::RecordingTranslate
                &&& w.pressed.len() == 0
                &&& w.recording_started
                &&& w.hotkey_start == Some(now)
                &&& acts.contains(KeyAction::EmitState(w.state))
            }
        }),
{
    let (w, acts) = press_step(v, transcribe, translate, streaming, key, now);
    if w.state != v.state {
        let v1 = ListenerView { pressed: add_key(v.pressed, key), ..v };
        let (v2, a1) = hotkey_check(v1, transcribe, trigger_state(true, streaming), now);
        let (v3, a2) = hotkey_check(v2, translate, trigger_state(false, streaming), now);
        if v2.state != v1.state {
            assert(v3 == v2);
            assert(a1[0] == KeyAction::EmitState(w.state));
            assert(acts[0] == a1[0]);
        } else {
            assert(a2[0] == KeyAction::EmitState(w.state));
            assert(acts[a1.len() as int] == a2[0]);
        }
    }
}

/// Releasing keys never starts a recording: when it changes the state, a recording moves
/// on to its processing, and the user interface is told.
pub proof fn lemma_release_moves_to_processing(v: ListenerView, key: Key)
    ensures
        ({
            let (w, acts) = release_step(v, key);
            w.state != v.state ==> {
                &&& w.pressed.len() == 0
                &&& (v.state == InputState::Recording && w.state == InputState::Processing)
                    || (v.state == InputState::RecordingTranslate && w.state
                    == InputState::Translating) || (v.state == InputState::Streaming && w.state
                    == InputState::StreamingFinalizing)
                &&& acts == seq![KeyAction::EmitState(w.state)]
            }
        }),
{
}

/// Every state change is answered once: right after an event the last state seen is the
/// current one, and a new state's work is started exactly when the state is new.
pub proof fn lemma_reaction_once(v: ListenerView)
    ensures
        react_step(v).0.last_state == v.state,
        react_step(v).0.state == v.state,
        react_step(react_step(v).0).1 == Reaction::Nothing,
        v.state == v.last_state ==> react_step(v).1 == Reaction::Nothing,
{
}

/// Each new state starts its own work: entering a recording state, for a transcription
/// or for a translation, starts the recorder; a finished recording is transcribed or
/// translated; streaming starts a streaming session and its end finishes it; going back
/// to idle starts nothing.
pub proof fn lemma_new_state_work(v: ListenerView)
    requires
        v.state != v.last_state,
    ensures
        v.state == InputState::Recording ==> react_step(v).1 == Reaction::StartRecording,
        v.state == InputState::RecordingTranslate ==> react_step(v).1 == Reaction::StartRecording,
        v.state == InputState::Processing ==> react_step(v).1 == Reaction::Transcribe,
        v.state == InputState::Translating ==> react_step(v).1 == Reaction::Translate,
        v.state == InputState::Streaming ==> react_step(v).1 == Reaction::StartStreaming,
        v.state == InputState::StreamingFinalizing ==> react_step(v).1
            == Reaction::FinalizeStreaming,
        v.state == InputState::Idle ==> react_step(v).1 == Reaction::Nothing,
{
}

/// A press held long enough starts what its hotkey is for: the transcribe hotkey starts
/// a recording for transcription (streaming when streaming is on), otherwise the
/// translate hotkey starts a recording for translation; with neither held the input
/// stays idle.
pub proof fn lemma_press_triggers(
    v: ListenerView,
    transcribe: Option<Seq<Key>>,
    translate: Option<Seq<Key>>,
    streaming: bool,
    key: Key,
    now: u64,
)
    requires
        v.state == InputState::Idle,
        !v.recording_started,
        v.press_time is Some,
        now >= v.press_time->0 + HOTKEY_DELAY_THRESHOLD_MS,
    ensures
        ({
            let held = add_key(v.pressed, key);
            let w = press_step(v, transcribe, translate, streaming, key, now).0;
            let t_on = transcribe is Some && all_pressed(transcribe->0, held);
            let r_on = translate is Some && all_pressed(translate->0, held);
            &&& (t_on && streaming) ==> w.state == InputState::Streaming
            &&& (t_on && !streaming) ==> w.state == InputState::Recording
            &&& (!t_on && r_on) ==> w.state == InputState::RecordingTranslate
            &&& (!t_on && !r_on) ==> w.state == InputState::Idle
        }),
{
}

/// A key press that starts a recording, for a transcription or for a translation, starts
/// the recorder; one that starts streaming starts a streaming session.
pub proof fn lemma_press_starts_recorder(
    v: ListenerView,
    transcribe: Option<Seq<Key>>,
    translate: Option<Seq<Key>>,
    streaming: bool,
    key: Key,
    now: u64,
)
    requires
        v.last_state == v.state,
    ensures
        ({
            let (w, acts) = press_step(v, transcribe, translate, streaming, key, now);
            &&& w.state != v.state && (w.state == InputState::Recording || w.state
                == InputState::RecordingTranslate) ==> react_step(w).1 == Reaction::StartRecording
            &&& w.state != v.state && w.state == InputState::Streaming ==> react_step(w).1
                == Reaction::StartStreaming
            &&& w.state == v.state ==> react_step(w).1 == Reaction::Nothing
        }),
{
    let (w, acts) = press_step(v, transcribe, translate, streaming, key, now);
    lemma_trigger_needs_hold(v, transcribe, translate, streaming, key, now);
    if w.state != v.state {
        assert(w.last_state == v.last_state) by {
            let v1 = ListenerView { pressed: add_key(v.pressed, key), ..v };
            let (v2, a1) = hotkey_check(v1, transcribe, trigger_state(true, streaming), now);
            assert(v2.last_state == v1.last_state);
        }
        lemma_new_state_work(w);
    } else {
        assert(w.last_state == v.last_state) by {
            if v.state == InputState::Idle {
                let v1 = ListenerView { pressed: add_key(v.pressed, key), ..v };
                let (v2, a1) = hotkey_check(v1, transcribe, trigger_state(true, streaming), now);
                assert(v2.last_state == v1.last_state);
            }
        }
    }
}

/// Letting go of the keys of a recording has it transcribed, or translated when it was
/// for a translation; letting go during streaming finishes the streaming session.
pub proof fn lemma_release_starts_work(v: ListenerView, key: Key)
    requires
        v.last_state == v.state,
    ensures
        ({
            let (w, acts) = release_step(v, key);
            &&& w.state != v.state && v.state == InputState::Recording ==> react_step(w).1
                == Reaction::Transcribe
            &&& w.state != v.state && v.state == InputState::RecordingTranslate ==> react_step(w).1
                == Reaction::Translate
            &&& w.state != v.state && v.state == InputState::Streaming ==> react_step(w).1
                == Reaction::FinalizeStreaming
            &&& w.state == v.state ==> react_step(w).1 == Reaction::Nothing
        }),
{
    let (w, acts) = release_step(v, key);
    lemma_release_moves_to_processing(v, key);
    if w.state != v.state {
        lemma_new_state_work(w);
    }
}

/// What is typed in place of recognising a finished recording, if anything: a
/// transcription needs a recorder holding at least one sample; a translation goes ahead
/// in any case.
pub fn recording_gate(mode: Mode, has_recorder: bool, sample_count: usize) -> (r: Option<String>)
    ensures
        mode == Mode::Translations ==> r is None,
        mode == Mode::Transcriptions ==> (if !has_recorder {
            r matches Some(m) && m@ == "No recorder available"@
        } else if sample_count == 0 {
            r matches Some(m) && m@ == "No audio recorded - please check microphone"@
        } else {
            r is None
        }),
{
    match mode {
        Mode::Translations => None,
        Mode::Transcriptions => {
            if !has_recorder {
                Some(String::from_str("No recorder available"))
            } else if sample_count == 0 {
                Some(String::from_str("No audio recorded - please check microphone"))
            } else {
                None
            }
        },
    }
}

/// Where recognising a recording failed, with the error's text.
pub enum RecognitionError {
    /// Turning the samples into WAV data failed.
    Conversion(String),
    /// The recogniser failed.
    Recognition(String),
}

/// The text typed after recognising a recording: the recognised text, or a message
/// that says what failed.
pub open spec fn recognition_message(mode: Mode, result: Result<Seq<char>, (bool, Seq<char>)>) -> Seq<char> {
    match result {
        Ok(t) => t,
        Err((conversion, e)) => if mode == Mode::Transcriptions {
            if conversion {
                "Audio conversion error: "@ + e
            } else {
                "ASR Error: "@ + e
            }
        } else {
            if conversion {
                "\u{274c} Audio conversion failed: "@ + e
            } else {
                "\u{274c} Translation failed: "@ + e
            }
        },
    }
}

/// The text typed after recognising a recording in the given mode.
pub fn recognition_text(mode: Mode, result: Result<String, RecognitionError>) -> (r: String)
    ensures
        r@ == recognition_message(
            mode,
            match result {
                Ok(t) => Ok(t@),
                Err(RecognitionError::Conversion(e)) => Err((true, e@)),
                Err(RecognitionError::Recognition(e)) => Err((false, e@)),
            },
        ),
{
    match result {
        Ok(t) => t,
        Err(err) => {
            let (conversion, e) = match err {
                RecognitionError::Conversion(e) => (true, e),
                RecognitionError::Recognition(e) => (false, e),
            };
            let mut m: Vec<char> = Vec::new();
            match mode {
                Mode::Transcriptions => if conversion {
                    push_str(&mut m, "Audio conversion error: ");
                } else {
                    push_str(&mut m, "ASR Error: ");
                },
                Mode::Translations => if conversion {
                    push_str(&mut m, "\u{274c} Audio conversion failed: ");
                } else {
                    push_str(&mut m, "\u{274c} Translation failed: ");
                },
            }
            push_str(&mut m, e.as_str());
            string_of(m.as_slice())
        },
    }
}

} // verus!
