use crate::player::PlayerState;
use crate::player::TermiPlayer;
use vstd::prelude::*;

verus! {

/// Relies on `String::push`: appends one character.
pub assume_specification[ String::push ](s: &mut String, ch: char)
    ensures
        final(s)@ == old(s)@.push(ch),
;

/// Relies on `String::pop`: removes and returns the last character, if any.
pub assume_specification[ String::pop ](s: &mut String) -> (r: Option<char>)
    ensures
        old(s)@.len() == 0 ==> r is None && final(s)@ == old(s)@,
        old(s)@.len() > 0 ==> r == Some(old(s)@.last()) && final(s)@ == old(s)@.drop_last(),
;

/// What the main loop does after a key was handled.
#[derive(PartialEq, Eq, Structural, Clone, Copy, Debug)]
pub enum EventHandlerResponse {
    /// Read the next key without redrawing.
    Continue,
    /// Leave the program.
    Break,
    /// Redraw and go on.
    Proceed,
}

/// Work that a key asks of the caller, beyond the player's own state.
#[derive(PartialEq, Eq, Debug)]
pub enum UiRequest {
    Nothing,
    /// Replace the typed path with the clipboard's text (see `paste`).
    Paste,
    /// Find out what lies at this path and hand it to `TermiPlayer::open`.
    Open(String),
}

/// The keys the interface reacts to.
#[derive(PartialEq, Eq, Structural, Clone, Copy, Debug)]
pub enum KeyInput {
    Char(char),
    Backspace,
    Enter,
    Esc,
    Left,
    Right,
    Up,
    Down,
    Other,
}

/// A key press: the key, whether Control was held, and whether no modifier
/// but possibly Shift was held.
#[derive(PartialEq, Eq, Structural, Clone, Copy, Debug)]
pub struct KeyPress {
    pub code: KeyInput,
    pub control: bool,
    pub plain: bool,
}

/// The terminal interface's state: the player, and the path being typed
/// while the player is `Empty`.
pub struct TermiUi {
    pub player: TermiPlayer,
    pub path_input: String,
}

/// Whole minutes and the remaining seconds of `secs`.
pub fn minutes_seconds(secs: u64) -> (r: (u64, u64))
    ensures
        r.0 == secs / 60,
        r.1 == secs % 60,
        r.0 * 60 + r.1 == secs,
{
    (secs / 60, secs % 60)
}

impl TermiUi {
    pub open spec fn wf(self) -> bool {
        self.player.wf()
    }

    pub fn new() -> (r: Self)
        ensures
            r.wf(),
            r.player.state == PlayerState::Empty,
            r.path_input@.len() == 0,
    {
        TermiUi { player: TermiPlayer::new(), path_input: String::new() }
    }

    /// Replaces the typed path with pasted text.
    pub fn paste(&mut self, text: String)
        requires
            old(self).wf(),
        ensures
            final(self).wf(),
            final(self).path_input == text,
            final(self).player == old(self).player,
    {
        self.path_input = text;
    }

    /// Keys while no playlist is open: typing edits the path, Enter asks to
    /// open it, Control-V asks for a paste, Esc leaves.
    pub fn event_handler_empty_state(&mut self, key: KeyPress) -> (r: (
        EventHandlerResponse,
        UiRequest,
    ))
        requires
            old(self).wf(),
        ensures
            final(self).wf(),
            final(self).player == old(self).player,
            key.code == KeyInput::Char('v') && key.control ==> {
                &&& r == (EventHandlerResponse::Continue, UiRequest::Paste)
                &&& final(self).path_input == old(self).path_input
            },
            !(key.code == KeyInput::Char('v') && key.control) ==> match key.code {
                KeyInput::Char(c) => if key.plain {
                    &&& r == (EventHandlerResponse::Proceed, UiRequest::Nothing)
                    &&& final(self).path_input@ == old(self).path_input@.push(c)
                } else {
                    &&& r == (EventHandlerResponse::Proceed, UiRequest::Nothing)
                    &&& final(self).path_input == old(self).path_input
                },
                KeyInput::Backspace => {
                    &&& r == (EventHandlerResponse::Proceed, UiRequest::Nothing)
                    &&& final(self).path_input@ == if old(self).path_input@.len() == 0 {
                        old(self).path_input@
                    } else {
                        old(self).path_input@.drop_last()
                    }
                },
                KeyInput::Enter => {
                    &&& r == (EventHandlerResponse::Proceed, UiRequest::Open(old(self).path_input))
                    &&& final(self).path_input@.len() == 0
                },
                KeyInput::Esc => {
                    &&& r == (EventHandlerResponse::Break, UiRequest::Nothing)
                    &&& final(self).path_input == old(self).path_input
                },
                _ => {
                    &&& r == (EventHandlerResponse::Proceed, UiRequest::Nothing)
                    &&& final(self).path_input == old(self).path_input
                },
            },
    {
        if key.code == KeyInput::Char('v') && key.control {
            return (EventHandlerResponse::Continue, UiRequest::Paste);
        }
        match key.code {
            KeyInput::Char(c) => {
                if key.plain {
                    self.path_input.push(c);
                }
                (EventHandlerResponse::Proceed, UiRequest::Nothing)
            },
            KeyInput::Backspace => {
                let _ = self.path_input.pop();
                (EventHandlerResponse::Proceed, UiRequest::Nothing)
            },
            KeyInput::Enter => {
                let path = self.path_input.clone();
                self.path_input = String::new();
                (EventHandlerResponse::Proceed, UiRequest::Open(path))
            },
            KeyInput::Esc => (EventHandlerResponse::Break, UiRequest::Nothing),
            _ => (EventHandlerResponse::Proceed, UiRequest::Nothing),
        }
    }

    /// Keys while a playlist is open: Esc leaves, `o` goes back to typing a
    /// path, space toggles playback, Left and Right move through the
    /// playlist, Up and Down change the volume.
    pub fn event_handler_main_state(&mut self, key: KeyPress) -> (r: EventHandlerResponse)
        requires
            old(self).wf(),
        ensures
            final(self).wf(),
            final(self).path_input == old(self).path_input,
            r == if key.code == KeyInput::Esc {
                EventHandlerResponse::Break
            } else {
                EventHandlerResponse::Proceed
            },
            key.code == KeyInput::Char('o') ==> {
                &&& final(self).player.state == PlayerState::Empty
                &&& final(self).player.playlist@.len() == 0
            },
            key.code == KeyInput::Char(' ') && old(self).player.state == PlayerState::Play ==> {
                &&& final(self).player.state == PlayerState::Pause
                &&& exists|now: u64|
                    final(self).player.engine.position
                        == #[trigger] old(self).player.engine.position.paused(now)
            },
            key.code == KeyInput::Char(' ') && (old(self).player.state == PlayerState::Pause
                || old(self).player.state == PlayerState::Ready) ==> {
                &&& final(self).player.state == PlayerState::Play
                &&& exists|now: u64|
                    final(self).player.engine.position
                        == #[trigger] old(self).player.engine.position.played(now)
            },
            key.code == KeyInput::Right && old(self).player.playlist@.len() > 0 ==> {
                &&& final(self).player.current_index == crate::player::next_index(
                    old(self).player.current_index as int,
                    old(self).player.playlist@.len() as int,
                )
                &&& final(self).player.state == PlayerState::Loading
            },
            key.code == KeyInput::Left && old(self).player.playlist@.len() > 0 ==> {
                &&& final(self).player.current_index == crate::player::previous_index(
                    old(self).player.current_index as int,
                    old(self).player.playlist@.len() as int,
                )
                &&& final(self).player.state == PlayerState::Loading
            },
            key.code == KeyInput::Up ==> final(self).player.engine.volume
                == crate::engine::clamp_volume(
                old(self).player.engine.volume + crate::engine::VOLUME_STEP,
            ),
            key.code == KeyInput::Down ==> final(self).player.engine.volume
                == crate::engine::clamp_volume(
                old(self).player.engine.volume - crate::engine::VOLUME_STEP,
            ),
            match key.code {
                KeyInput::Char(c) => c != 'o' && c != ' ',
                KeyInput::Left | KeyInput::Right | KeyInput::Up | KeyInput::Down => false,
                _ => true,
            } ==> final(self).player == old(self).player,
    {
        match key.code {
            KeyInput::Esc => {
                return EventHandlerResponse::Break;
            },
            KeyInput::Char('o') => self.player.request_open(),
            KeyInput::Char(' ') => self.player.toggle_play(),
            KeyInput::Left => self.player.previous(),
            KeyInput::Right => self.player.next(),
            KeyInput::Up => self.player.volume_up(),
            KeyInput::Down => self.player.volume_down(),
            _ => {},
        }
        EventHandlerResponse::Proceed
    }
}

} // verus!
