use varys::engine::{Action, Event, Interactor, InteractorInstance, Query, Step};
use varys::error::Error;
use varys::recognise::Model;

fn engine(voices: &[&str]) -> Interactor {
    Interactor::new(
        "en0".to_string(),
        voices.iter().map(|v| v.to_string()).collect(),
        10000,
        Model::Large,
        "./data".to_string(),
    )
}

fn query(text: &str, category: &str) -> Query {
    Query { text: text.to_string(), category: category.to_string() }
}

/// Drive one interaction through its happy path; `recognise_error` injects a
/// failure at the recognition step instead of a transcript.
fn drive_interaction(
    inst: &mut InteractorInstance,
    id: u32,
    now: u64,
    recognise_error: Option<Error>,
) -> Option<Action> {
    let a = inst.step(Event::PingDone);
    assert_eq!(a, Some(Action::CreateRow));
    let a = inst.step(Event::RowCreated { id, now });
    assert_eq!(a, Some(Action::StartSniffer));
    let a = inst.step(Event::SnifferStarted {
        capture_path: format!("{}/s1i{}-capture-ts.pcap", inst.session_path, id),
    });
    assert_eq!(a, Some(Action::StartQueryRecording));
    let a = inst.step(Event::RecordingStarted);
    assert_eq!(a, Some(Action::Say));
    let a = inst.step(Event::Said { duration_ms: 1200 });
    assert_eq!(a, Some(Action::SaveQueryAudio));
    let a = inst.step(Event::QueryAudioSaved {
        file_name: format!("s1i{id}-query-audio-ts.opus"),
    });
    assert_eq!(a, Some(Action::UpdateRow));
    let a = inst.step(Event::RowUpdated);
    assert_eq!(a, Some(Action::RecordResponse));
    let a = inst.step(Event::ResponseRecorded {
        file_name: format!("s1i{id}-response-audio-ts.opus"),
        duration_ms: 2500,
    });
    assert_eq!(a, Some(Action::UpdateRow));
    let a = inst.step(Event::RowUpdated);
    assert_eq!(a, Some(Action::StopSniffer));
    let a = inst.step(Event::SnifferStopped);
    assert_eq!(a, Some(Action::Recognise));
    let a = match recognise_error {
        None => {
            let a = inst.step(Event::Recognised { text: "six".to_string() });
            assert_eq!(a, Some(Action::UpdateRow));
            let a = inst.step(Event::RowUpdated);
            assert_eq!(a, Some(Action::CompleteRow));
            a
        },
        Some(error) => {
            // a recognition failure still completes the row
            let a = inst.step(Event::StepFailed { error });
            assert_eq!(a, Some(Action::CompleteRow));
            a
        },
    };
    let _ = a;
    inst.step(Event::RowCompleted { now: now + 5000 })
}

#[test]
fn empty_query_list_completes_the_session_at_once() {
    let mut inst = engine(&["Zoe"]).begin_session(1, 1000).ok().unwrap();
    let action = inst.start(Vec::new());
    assert_eq!(action, Action::CompleteSession);
    let action = inst.step(Event::SessionCompleted { now: 1500 });
    assert_eq!(action, None);
    assert_eq!(inst.step, Step::Finished);
    assert_eq!(inst.session.ended, Some(1500));
    assert!(inst.rows.is_empty());
    assert!(inst.outcome.is_none());
}

#[test]
fn happy_single_query_fills_every_field() {
    let mut inst = engine(&["Zoe"]).begin_session(1, 1000).ok().unwrap();
    assert_eq!(inst.session.config.voice, "Zoe");
    assert_eq!(inst.session.config.interface, "en0");
    assert_eq!(inst.session.config.sensitivity, "10000");
    assert_eq!(inst.session.config.model, "large");
    assert_eq!(inst.session.data_dir.as_deref(), Some("./data/sessions/session_1"));

    let action = inst.start(vec![query("Hey Siri. Roll a die", "randomness")]);
    assert_eq!(action, Action::Ping);
    let action = drive_interaction(&mut inst, 1, 1001, None);
    assert_eq!(action, Some(Action::CompleteSession));
    let action = inst.step(Event::SessionCompleted { now: 9000 });
    assert_eq!(action, None);

    assert_eq!(inst.rows.len(), 1);
    let row = &inst.rows[0];
    assert_eq!(row.id, 1);
    assert_eq!(row.session_id, 1);
    assert_eq!(row.query, "Hey Siri. Roll a die");
    assert_eq!(row.query_duration, Some(1200));
    assert_eq!(row.response_duration, Some(2500));
    assert_eq!(row.response.as_deref(), Some("six"));
    assert_eq!(row.query_file.as_deref(), Some("s1i1-query-audio-ts.opus"));
    assert_eq!(row.response_file.as_deref(), Some("s1i1-response-audio-ts.opus"));
    assert_eq!(row.capture_file.as_deref(), Some("s1i1-capture-ts.pcap"));
    assert_eq!(row.started, 1001);
    assert_eq!(row.ended, Some(6001));
    assert_eq!(inst.session.ended, Some(9000));
}

#[test]
fn voice_rotation_over_three_sessions() {
    let inst = engine(&["A", "B"]).begin_session(1, 100).ok().unwrap();
    assert_eq!(inst.session.config.voice, "A");
    let inst2 = inst.interactor.begin_session(2, 200).ok().unwrap();
    assert_eq!(inst2.session.config.voice, "B");
    let inst3 = inst2.interactor.begin_session(3, 300).ok().unwrap();
    assert_eq!(inst3.session.config.voice, "A");
}

#[test]
fn empty_roster_is_refused() {
    let engine = engine(&[]);
    let (_, e) = engine.begin_session(1, 100).err().unwrap();
    assert_eq!(e, Error::NoVoiceProvided);
}

#[test]
fn recogniser_failure_is_isolated_to_its_interaction() {
    let mut inst = engine(&["Zoe"]).begin_session(1, 1000).ok().unwrap();
    let action = inst.start(vec![
        query("Hey Siri. What time is it?", "time"),
        query("Hey Siri. Roll a die", "randomness"),
        query("Hey Siri. Flip a coin", "randomness"),
    ]);
    assert_eq!(action, Action::Ping);
    let action = drive_interaction(&mut inst, 1, 1001, None);
    assert_eq!(action, Some(Action::Ping));
    let action = drive_interaction(&mut inst, 2, 2001, Some(Error::Recognition));
    assert_eq!(action, Some(Action::Ping));
    let action = drive_interaction(&mut inst, 3, 3001, None);
    assert_eq!(action, Some(Action::CompleteSession));
    let action = inst.step(Event::SessionCompleted { now: 9000 });
    assert_eq!(action, None);

    assert_eq!(inst.rows.len(), 3);
    assert!(inst.rows[0].response.is_some());
    assert!(inst.rows[0].ended.is_some());
    // the failed interaction keeps its audio files but no transcript, and
    // still closed
    assert!(inst.rows[1].response.is_none());
    assert!(inst.rows[1].query_file.is_some());
    assert!(inst.rows[1].response_file.is_some());
    assert!(inst.rows[1].ended.is_some());
    assert!(inst.rows[2].response.is_some());
    assert!(inst.rows[2].ended.is_some());
    assert_eq!(inst.last_error, Some(Error::Recognition));
    assert_eq!(inst.session.ended, Some(9000));
}

#[test]
fn speaker_failure_stops_recording_and_capture_then_moves_on() {
    let mut inst = engine(&["Zoe"]).begin_session(1, 1000).ok().unwrap();
    inst.start(vec![query("Hey Siri. Roll a die", "randomness"), query("Hey Siri. Meow", "banter")]);
    let a = inst.step(Event::PingDone);
    assert_eq!(a, Some(Action::CreateRow));
    let a = inst.step(Event::RowCreated { id: 1, now: 1001 });
    assert_eq!(a, Some(Action::StartSniffer));
    let a = inst.step(Event::SnifferStarted { capture_path: "c.pcap".to_string() });
    assert_eq!(a, Some(Action::StartQueryRecording));
    let a = inst.step(Event::RecordingStarted);
    assert_eq!(a, Some(Action::Say));
    // the synthesizer fails: the query recording is stopped and discarded,
    // then the capture is stopped, then the next query begins
    let a = inst.step(Event::StepFailed { error: Error::SpeakerError });
    assert_eq!(a, Some(Action::StopQueryRecordingDiscard));
    let a = inst.step(Event::CleanupDone);
    assert_eq!(a, Some(Action::StopSniffer));
    let a = inst.step(Event::CleanupDone);
    assert_eq!(a, Some(Action::Ping));
    assert_eq!(inst.last_error, Some(Error::SpeakerError));
    // the abandoned row was never closed and got no file references
    assert_eq!(inst.rows.len(), 1);
    assert!(inst.rows[0].ended.is_none());
    assert!(inst.rows[0].query_file.is_none());
    assert!(inst.rows[0].capture_file.is_none());
}

#[test]
fn failed_session_close_is_a_session_error() {
    let mut inst = engine(&["Zoe"]).begin_session(1, 1000).ok().unwrap();
    let action = inst.start(Vec::new());
    assert_eq!(action, Action::CompleteSession);
    let action = inst.step(Event::StepFailed { error: Error::Store(varys::error::StoreError::Query) });
    assert_eq!(action, None);
    assert_eq!(inst.outcome, Some(Error::Store(varys::error::StoreError::Query)));
    assert!(inst.session.ended.is_none());
}

#[test]
fn same_session_id_yields_the_same_directory() {
    let inst = engine(&["A", "B"]).begin_session(7, 100).ok().unwrap();
    let first_path = inst.session_path.clone();
    // after a crash the session is begun again under the same id: the
    // directory path is the same, so the directory is reused
    let inst2 = inst.interactor.begin_session(7, 200).ok().unwrap();
    assert_eq!(inst2.session_path, first_path);
    assert_eq!(Interactor::session_dir("./data", 7), "./data/sessions/session_7");
}

#[test]
fn sniffer_start_failure_abandons_the_row_and_moves_on() {
    let mut inst = engine(&["Zoe"]).begin_session(1, 1000).ok().unwrap();
    inst.start(vec![query("Hey Siri. Roll a die", "randomness"), query("Hey Siri. Meow", "banter")]);
    let a = inst.step(Event::PingDone);
    assert_eq!(a, Some(Action::CreateRow));
    let a = inst.step(Event::RowCreated { id: 1, now: 1001 });
    assert_eq!(a, Some(Action::StartSniffer));
    // nothing is live yet, so nothing needs cleaning; the next query begins
    let a = inst.step(Event::StepFailed { error: Error::SnifferError });
    assert_eq!(a, Some(Action::Ping));
    assert_eq!(inst.last_error, Some(Error::SnifferError));
    assert_eq!(inst.rows.len(), 1);
    assert!(inst.rows[0].ended.is_none());
    assert!(inst.rows[0].capture_file.is_none());
    assert_eq!(inst.next_query, 1);
}
