use mynacard::voicevox::{
    advance, backend_after_synthesis, choose_backend, escape_quotes, fallback_script,
    is_available, playback_script, EngineState, SpeechBackend, SpeechError, SPEAKER_ID,
};

#[test]
fn engine_comes_up_in_four_steps() {
    let mut state = EngineState::Unloaded;
    let expected =
        [EngineState::Located, EngineState::Loaded, EngineState::Started, EngineState::Ready];
    for next in expected {
        assert!(!is_available(&state));
        state = advance(state, 0).unwrap();
        assert_eq!(state, next);
    }
    assert!(is_available(&state));
}

#[test]
fn engine_stays_ready() {
    assert_eq!(advance(EngineState::Ready, 0), Ok(EngineState::Ready));
    assert_eq!(advance(EngineState::Ready, 7), Ok(EngineState::Ready));
    assert_eq!(advance(EngineState::Ready, -1), Ok(EngineState::Ready));
}

#[test]
fn engine_failure_names_the_step_and_keeps_the_code() {
    assert_eq!(advance(EngineState::Unloaded, 1), Err(SpeechError::LibraryMissing));
    assert_eq!(advance(EngineState::Located, 1), Err(SpeechError::LibraryUnusable));
    assert_eq!(advance(EngineState::Loaded, 5), Err(SpeechError::EngineStart(5)));
    assert_eq!(advance(EngineState::Loaded, -3), Err(SpeechError::EngineStart(-3)));
    assert_eq!(advance(EngineState::Started, 9), Err(SpeechError::ModelLoad(9)));
    assert_eq!(advance(EngineState::Started, i32::MIN), Err(SpeechError::ModelLoad(i32::MIN)));
}

#[test]
fn only_a_ready_engine_is_available() {
    assert!(!is_available(&EngineState::Unloaded));
    assert!(!is_available(&EngineState::Located));
    assert!(!is_available(&EngineState::Loaded));
    assert!(!is_available(&EngineState::Started));
    assert!(is_available(&EngineState::Ready));
}

#[test]
fn backend_follows_the_engine_state() {
    assert_eq!(choose_backend(&EngineState::Unloaded), Err(SpeechError::NotInitialized));
    assert_eq!(choose_backend(&EngineState::Located), Err(SpeechError::NotInitialized));
    assert_eq!(choose_backend(&EngineState::Loaded), Ok(SpeechBackend::Fallback));
    assert_eq!(choose_backend(&EngineState::Started), Ok(SpeechBackend::Fallback));
    assert_eq!(choose_backend(&EngineState::Ready), Ok(SpeechBackend::Primary));
}

#[test]
fn failed_synthesis_falls_back() {
    assert_eq!(backend_after_synthesis(0), SpeechBackend::Primary);
    assert_eq!(backend_after_synthesis(1), SpeechBackend::Fallback);
    assert_eq!(backend_after_synthesis(-1), SpeechBackend::Fallback);
}

#[test]
fn speaker_is_the_third_voice() {
    assert_eq!(SPEAKER_ID, 3);
}

#[test]
fn escape_doubles_each_single_quote() {
    assert_eq!(escape_quotes("it's"), "it''s");
    assert_eq!(escape_quotes("''"), "''''");
    assert_eq!(escape_quotes("'a'b'"), "''a''b''");
    assert_eq!(escape_quotes("plain \"text\""), "plain \"text\"");
    assert_eq!(escape_quotes(""), "");
    assert_eq!(escape_quotes("山田'太郎"), "山田''太郎");
}

#[test]
fn fallback_script_quotes_the_text() {
    assert_eq!(
        fallback_script("it's 山田"),
        "Add-Type -AssemblyName System.Speech; $synth = New-Object System.Speech.Synthesis.SpeechSynthesizer; $synth.Speak('it''s 山田')"
    );
    assert_eq!(
        fallback_script(""),
        "Add-Type -AssemblyName System.Speech; $synth = New-Object System.Speech.Synthesis.SpeechSynthesizer; $synth.Speak('')"
    );
}

#[test]
fn playback_script_names_the_file() {
    assert_eq!(
        playback_script("C:\\Temp\\readthecard_tts.wav"),
        "$player = New-Object System.Media.SoundPlayer 'C:\\Temp\\readthecard_tts.wav'; $player.PlaySync()"
    );
}
