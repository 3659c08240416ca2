//! Life cycle of the speech engine and the choice between its two voices.
//!
//! The engine is a native library that has to be found, loaded, started and
//! given a voice model before it can speak. The caller owns the state of that
//! sequence and performs each action; the functions here decide what the
//! result of an action leads to, and which way a text is spoken.

use vstd::prelude::*;
use vstd::string::*;

verus! {

/// Speaker whose voice model is loaded.
pub const SPEAKER_ID: u32 = 3;

/// How far the engine has been brought up. Each state names what has been
/// done; the action that follows is the next one in the list.
#[derive(Debug, Clone, Copy, PartialEq, Eq, Structural)]
pub enum EngineState {
    /// Nothing has been done yet.
    Unloaded,
    /// The library file was found.
    Located,
    /// The library is loaded and its entry points are resolved.
    Loaded,
    /// The engine is started.
    Started,
    /// The voice model is loaded: the engine can speak.
    Ready,
}

/// Why the speech engine cannot be used.
#[derive(Debug, Clone, Copy, PartialEq, Eq, Structural)]
pub enum SpeechError {
    /// Speech was asked for before the library was loaded.
    NotInitialized,
    /// The library file does not exist.
    LibraryMissing,
    /// The library could not be loaded, or lacks an entry point.
    LibraryUnusable,
    /// The engine refused to start; carries its result code.
    EngineStart(i32),
    /// The voice model could not be loaded; carries the result code.
    ModelLoad(i32),
}

/// The way a text is spoken.
#[derive(Debug, Clone, Copy, PartialEq, Eq, Structural)]
pub enum SpeechBackend {
    /// The speech engine synthesises the text.
    Primary,
    /// The platform's own text-to-speech speaks it.
    Fallback,
}

impl EngineState {
    /// The state that follows when the action of this state succeeds.
    pub open spec fn successor(self) -> EngineState {
        match self {
            EngineState::Unloaded => EngineState::Located,
            EngineState::Located => EngineState::Loaded,
            EngineState::Loaded => EngineState::Started,
            EngineState::Started => EngineState::Ready,
            EngineState::Ready => EngineState::Ready,
        }
    }

    /// The error that a failed action of this state stands for.
    pub open spec fn failure(self, status: i32) -> SpeechError {
        match self {
            EngineState::Unloaded => SpeechError::LibraryMissing,
            EngineState::Located => SpeechError::LibraryUnusable,
            EngineState::Loaded => SpeechError::EngineStart(status),
            _ => SpeechError::ModelLoad(status),
        }
    }

    /// What the result of this state's action leads to: status 0 is success.
    /// Nothing is left to do in the last state, whatever the status.
    pub open spec fn after(self, status: i32) -> Result<EngineState, SpeechError> {
        if self is Ready || status == 0 {
            Ok(self.successor())
        } else {
            Err(self.failure(status))
        }
    }

    /// The library is loaded, so a service handle exists.
    pub open spec fn has_handle(self) -> bool {
        self is Loaded || self is Started || self is Ready
    }

    /// Number of actions still to perform.
    pub open spec fn remaining(self) -> nat {
        match self {
            EngineState::Unloaded => 4,
            EngineState::Located => 3,
            EngineState::Loaded => 2,
            EngineState::Started => 1,
            EngineState::Ready => 0,
        }
    }
}

/// Takes the status of the action that `state` called for and gives the
/// state that follows, or the error that ends the bring-up. Status 0 means
/// that the action succeeded. Once the engine is ready it stays ready.
pub fn advance(state: EngineState, status: i32) -> (result: Result<EngineState, SpeechError>)
    ensures
        result == state.after(status),
        result is Ok <==> state is Ready || status == 0,
        result matches Ok(next) ==> next.remaining() <= state.remaining() && (state is Ready
            || next.remaining() < state.remaining()),
{
    match state {
        EngineState::Ready => Ok(EngineState::Ready),
        EngineState::Unloaded => if status == 0 {
            Ok(EngineState::Located)
        } else {
            Err(SpeechError::LibraryMissing)
        },
        EngineState::Located => if status == 0 {
            Ok(EngineState::Loaded)
        } else {
            Err(SpeechError::LibraryUnusable)
        },
        EngineState::Loaded => if status == 0 {
            Ok(EngineState::Started)
        } else {
            Err(SpeechError::EngineStart(status))
        },
        EngineState::Started => if status == 0 {
            Ok(EngineState::Ready)
        } else {
            Err(SpeechError::ModelLoad(status))
        },
    }
}

/// Tells whether the engine can speak: only once its voice model is loaded.
pub fn is_available(state: &EngineState) -> (available: bool)
    ensures
        available == (*state is Ready),
{
    match state {
        EngineState::Ready => true,
        _ => false,
    }
}

/// The way to speak in a given state.
pub open spec fn backend_for(state: EngineState) -> Result<SpeechBackend, SpeechError> {
    if state is Ready {
        Ok(SpeechBackend::Primary)
    } else if state.has_handle() {
        Ok(SpeechBackend::Fallback)
    } else {
        Err(SpeechError::NotInitialized)
    }
}

/// Chooses the way to speak. A ready engine speaks itself; one that is
/// loaded and not ready leaves the text to the fallback; without a loaded
/// library there is no speech at all.
pub fn choose_backend(state: &EngineState) -> (result: Result<SpeechBackend, SpeechError>)
    ensures
        result == backend_for(*state),
{
    match state {
        EngineState::Ready => Ok(SpeechBackend::Primary),
        EngineState::Loaded | EngineState::Started => Ok(SpeechBackend::Fallback),
        _ => Err(SpeechError::NotInitialized),
    }
}

/// Decides who speaks after the engine tried to synthesise: the engine's
/// own wave on result code 0, the fallback on any other.
pub fn backend_after_synthesis(code: i32) -> (backend: SpeechBackend)
    ensures
        backend == if code == 0 {
            SpeechBackend::Primary
        } else {
            SpeechBackend::Fallback
        },
{
    if code == 0 {
        SpeechBackend::Primary
    } else {
        SpeechBackend::Fallback
    }
}

/// `text` with every occurrence of `from` replaced by `to`.
pub open spec fn replaced(text: Seq<char>, from: char, to: Seq<char>) -> Seq<char>
    decreases text.len(),
{
    if text.len() == 0 {
        Seq::empty()
    } else {
        replaced(text.drop_last(), from, to) + if text.last() == from {
            to
        } else {
            seq![text.last()]
        }
    }
}

/// Calls `str::replace` with a character as the pattern.
///
/// Trusted: the result is the text with each occurrence of that character
/// replaced by `to`, and every other character kept in place.
#[verifier::external_body]
fn replace_char(text: &str, from: char, to: &str) -> (out: String)
    ensures
        out@ == replaced(text@, from, to@),
{
    text.replace(from, to)
}

/// `text` as it stands between single quotes in a shell script: each single
/// quote doubled.
pub open spec fn quoted(text: Seq<char>) -> Seq<char> {
    replaced(text, '\'', seq!['\'', '\''])
}

/// Doubles every single quote of `text`, so that it can stand between single
/// quotes in a shell script.
pub fn escape_quotes(text: &str) -> (out: String)
    ensures
        out@ == quoted(text@),
{
    proof {
        reveal_strlit("''");
        assert("''"@ =~= seq!['\'', '\'']);
    }
    replace_char(text, '\'', "''")
}

/// Start of the script that speaks a text with the platform's own voice.
pub open spec fn speak_script_head() -> Seq<char> {
    "Add-Type -AssemblyName System.Speech; $synth = New-Object System.Speech.Synthesis.SpeechSynthesizer; $synth.Speak('"@
}

/// End of the script that speaks a text.
pub open spec fn speak_script_tail() -> Seq<char> {
    "')"@
}

/// Builds the script that speaks `text` with the platform's own voice. The
/// text stands between single quotes, with its own single quotes doubled.
pub fn fallback_script(text: &str) -> (script: String)
    ensures
        script@ == speak_script_head() + quoted(text@) + speak_script_tail(),
{
    let escaped = escape_quotes(text);
    let mut script = String::from_str(
        "Add-Type -AssemblyName System.Speech; $synth = New-Object System.Speech.Synthesis.SpeechSynthesizer; $synth.Speak('",
    );
    script.append(escaped.as_str());
    script.append("')");
    script
}

/// Start of the script that plays a wave file.
pub open spec fn play_script_head() -> Seq<char> {
    "$player = New-Object System.Media.SoundPlayer '"@
}

/// End of the script that plays a wave file.
pub open spec fn play_script_tail() -> Seq<char> {
    "'; $player.PlaySync()"@
}

/// Builds the script that plays the wave file at `path` and waits for it.
pub fn playback_script(path: &str) -> (script: String)
    ensures
        script@ == play_script_head() + path@ + play_script_tail(),
{
    let mut script = String::from_str("$player = New-Object System.Media.SoundPlayer '");
    script.append(path);
    script.append("'; $player.PlaySync()");
    script
}

} // verus!
