use std::collections::VecDeque;

use vstd::prelude::*;

use crate::digits::{spec_u64_string, u64_to_string};
use crate::error::Error;
use crate::files::{file_name_or_full, spec_file_name_or_full};
use crate::recognise::{Model, Recogniser};
use crate::roster::{rotate_voices, rotated, used_voice, voice_views};
use crate::store::{Interaction, InteractorConfig, Session};

verus! {

/// How long a silence must last before a response recording stops, in ms.
pub const SILENCE_DURATION_MS: u64 = 2000;

/// A (text, category) pair to put to the assistant. Immutable once loaded.
pub struct Query {
    pub text: String,
    pub category: String,
}

/// The interaction engine: the configuration it drives sessions with and the
/// voice roster it rotates through. The peripherals it orchestrates (the
/// microphone, the speech synthesis, the packet capture, the store) act
/// through the actions its session flow emits.
pub struct Interactor {
    pub interface: String,
    pub voices: VecDeque<String>,
    /// The silence threshold, on the fixed-point amplitude scale.
    pub sensitivity: u32,
    pub model: Model,
    pub data_dir: String,
    pub recogniser: Recogniser,
    /// The roster as it was when the engine was built.
    pub initial_roster: Ghost<Seq<Seq<char>>>,
    /// How many sessions have been begun.
    pub rotations: Ghost<nat>,
}

impl Interactor {
    /// The queue always holds the initial roster, rotated once per session
    /// begun.
    pub open spec fn wf(self) -> bool {
        &&& self.initial_roster@.len() == self.voices@.len()
        &&& self.voices@.len() >= 1 ==> voice_views(self.voices@) == rotated(
            self.initial_roster@,
            self.rotations@,
        )
    }

    /// Create an interactor over a roster of voices.
    pub fn new(
        interface: String,
        voices: Vec<String>,
        sensitivity: u32,
        model: Model,
        data_dir: String,
    ) -> (r: Interactor)
        ensures
            r.wf(),
            r.interface == interface,
            r.voices@ == voices@,
            r.sensitivity == sensitivity,
            r.model == model,
            r.data_dir == data_dir,
            r.recogniser.model_path@ == Recogniser::spec_model_path(model),
            r.initial_roster@ == voice_views(voices@),
            r.rotations@ == 0,
    {
        let ghost all = voices@;
        let mut rest = voices;
        let mut queue: VecDeque<String> = VecDeque::new();
        while rest.len() != 0
            invariant
                rest@.len() + queue@.len() == all.len(),
                queue@ == all.subrange(rest@.len() as int, all.len() as int),
                rest@ == all.subrange(0, rest@.len() as int),
            decreases rest@.len(),
        {
            if let Some(x) = rest.pop() {
                queue.push_front(x);
                proof {
                    assert(rest@ =~= all.subrange(0, rest@.len() as int));
                    assert(queue@ =~= all.subrange(rest@.len() as int, all.len() as int));
                }
            }
        }
        proof {
            assert(queue@ =~= all);
        }
        let r = Interactor {
            interface,
            voices: queue,
            sensitivity,
            model,
            data_dir,
            recogniser: Recogniser::with_model(model),
            initial_roster: Ghost(voice_views(all)),
            rotations: Ghost(0),
        };
        proof {
            if r.voices@.len() >= 1 {
                crate::roster::lemma_rotated_zero(r.initial_roster@);
            }
        }
        r
    }

    /// Rotate the roster: the session speaks with the head voice, which then
    /// goes to the back of the queue.
    pub fn next_voice(&mut self) -> (r: Result<String, Error>)
        requires
            old(self).wf(),
        ensures
            final (self).wf(),
            final (self).interface == old(self).interface,
            final (self).sensitivity == old(self).sensitivity,
            final (self).model == old(self).model,
            final (self).data_dir == old(self).data_dir,
            final (self).recogniser == old(self).recogniser,
            final (self).initial_roster == old(self).initial_roster,
            match r {
                Ok(v) => {
                    &&& old(self).voices@.len() >= 1
                    &&& v@ == used_voice(old(self).initial_roster@, old(self).rotations@)
                    &&& final (self).rotations@ == old(self).rotations@ + 1
                    &&& final (self).voices@.len() == old(self).voices@.len()
                },
                Err(e) => {
                    &&& e == Error::NoVoiceProvided
                    &&& old(self).voices@.len() == 0
                    &&& final (self).voices@ == old(self).voices@
                    &&& final (self).rotations == old(self).rotations
                },
            },
    {
        let v = rotate_voices(&mut self.voices)?;
        proof {
            crate::roster::lemma_rotated_step(self.initial_roster@, self.rotations@);
            assert(voice_views(self.voices@) =~= rotated(
                self.initial_roster@,
                self.rotations@ + 1,
            )) by {
                assert(voice_views(old(self).voices@).subrange(
                    1,
                    old(self).voices@.len() as int,
                ).push(old(self).voices@[0]@) == rotated(
                    self.initial_roster@,
                    self.rotations@ + 1,
                ));
            }
            assert(v@ == used_voice(self.initial_roster@, self.rotations@)) by {
                assert(voice_views(old(self).voices@)[0] == rotated(
                    self.initial_roster@,
                    self.rotations@,
                )[0]);
            }
        }
        self.rotations = Ghost(self.rotations@ + 1);
        Ok(v)
    }

    /// Where a session's artifacts are stored.
    pub open spec fn spec_session_dir(data_dir: Seq<char>, session_id: nat) -> Seq<char> {
        data_dir + "/sessions/session_"@ + spec_u64_string(session_id)
    }

    /// The directory a session stores its artifacts under. The path depends
    /// on the data directory and the session id alone, so beginning the same
    /// session again yields the same directory.
    pub fn session_dir(data_dir: &str, session_id: u32) -> (r: String)
        ensures
            r@ == Self::spec_session_dir(data_dir@, session_id as nat),
    {
        let mut r = String::from_str(data_dir);
        r.append("/sessions/session_");
        r.append(u64_to_string(session_id as u64).as_str());
        r
    }

    /// Begin a session: rotate the voice queue, snapshot the configuration
    /// into a session row stamped `started = now`, and bind the session's
    /// data directory. Fails with `NoVoiceProvided` on an empty roster.
    ///
    /// The caller owns the outside steps around this: inserting the row (which
    /// assigns `session_id`), creating the directory — an already existing
    /// directory is reused — and writing the directory back to the row.
    pub fn begin_session(self, session_id: u32, now: u64) -> (r: Result<
        InteractorInstance,
        (Interactor, Error),
    >)
        requires
            self.wf(),
        ensures
            match r {
                Ok(inst) => {
                    &&& self.voices@.len() >= 1
                    &&& inst.wf()
                    &&& inst.interactor.wf()
                    &&& inst.interactor.rotations@ == self.rotations@ + 1
                    &&& inst.interactor.initial_roster == self.initial_roster
                    &&& inst.session.id == session_id
                    &&& inst.session.started == now
                    &&& inst.session.ended is None
                    &&& inst.session.config.interface@ == self.interface@
                    &&& inst.session.config.voice@ == used_voice(
                        self.initial_roster@,
                        self.rotations@,
                    )
                    &&& inst.session.config.sensitivity@ == spec_u64_string(
                        self.sensitivity as nat,
                    )
                    &&& inst.session.config.model@ == match self.model {
                        Model::Large => "large"@,
                        Model::Medium => "medium"@,
                    }
                    &&& inst.session.data_dir matches Some(d) && d@ == Self::spec_session_dir(
                        self.data_dir@,
                        session_id as nat,
                    )
                    &&& inst.session_path@ == Self::spec_session_dir(
                        self.data_dir@,
                        session_id as nat,
                    )
                    &&& inst.queries@.len() == 0
                    &&& inst.rows@.len() == 0
                    &&& inst.step == Step::Ready
                },
                Err((back, e)) => {
                    &&& e == Error::NoVoiceProvided
                    &&& self.voices@.len() == 0
                    &&& back.interface == self.interface
                    &&& back.voices@ == self.voices@
                    &&& back.sensitivity == self.sensitivity
                    &&& back.model == self.model
                    &&& back.data_dir == self.data_dir
                    &&& back.recogniser == self.recogniser
                    &&& back.initial_roster == self.initial_roster
                    &&& back.rotations == self.rotations
                },
            },
    {
        let mut engine = self;
        let voice = match engine.next_voice() {
            Ok(v) => v,
            Err(e) => {
                return Err((engine, e));
            },
        };
        let config = InteractorConfig {
            interface: engine.interface.clone(),
            voice,
            sensitivity: u64_to_string(engine.sensitivity as u64),
            model: engine.model.name(),
        };
        let mut session = Session::create(session_id, config, now);
        let session_path = Interactor::session_dir(engine.data_dir.as_str(), session_id);
        session.data_dir = Some(session_path.clone());
        Ok(
            InteractorInstance {
                interactor: engine,
                session,
                session_path,
                queries: Vec::new(),
                next_query: 0,
                rows: Vec::new(),
                step: Step::Ready,
                row: None,
                capture_path: None,
                last_error: None,
                outcome: None,
            },
        )
    }
}

/// Where a running interaction stands: which event its last action awaits.
#[derive(Clone, Copy, Debug, PartialEq, Eq, Structural)]
pub enum Step {
    /// No queries handed over yet.
    Ready,
    /// The monitoring ping is out; its outcome does not matter.
    Pinging,
    /// The interaction row is being inserted.
    CreatingRow,
    /// The packet capture is starting.
    StartingSniffer,
    /// The query recording is starting.
    StartingQueryRec,
    /// The query is being spoken.
    Saying,
    /// The query recording is being stopped and written out.
    SavingQueryAudio,
    /// The row is being updated after the query audio was written.
    UpdatingAfterQuery,
    /// The response is being recorded until silence and written out.
    RecordingResponse,
    /// The row is being updated after the response audio was written.
    UpdatingAfterResponse,
    /// The packet capture is being stopped and flushed.
    StoppingSniffer,
    /// The response audio is being recognised.
    Recognising,
    /// The row is being updated after recognition.
    UpdatingAfterRecognise,
    /// The row is being closed.
    CompletingRow,
    /// A failure occurred while the query recording ran; it is being stopped
    /// and its output discarded.
    CleanupQueryRec,
    /// A failure occurred while the capture ran; it is being stopped so the
    /// capture is not leaked.
    CleanupSniffer,
    /// All queries have been attempted; the session row is being closed.
    CompletingSession,
    /// The session is over.
    Finished,
}

/// What the engine asks its peripherals to do next.
#[derive(Clone, Copy, Debug, PartialEq, Eq, Structural)]
pub enum Action {
    /// Send the best-effort monitoring ping for the current query.
    Ping,
    /// Insert an interaction row for the current query; report its id.
    CreateRow,
    /// Start the packet capture; report the capture file's path.
    StartSniffer,
    /// Start recording the query audio.
    StartQueryRecording,
    /// Speak the current query, blocking; report the utterance's duration.
    Say,
    /// Stop the query recording, write its audio out, report the file name.
    SaveQueryAudio,
    /// Write the current row's fields to the store.
    UpdateRow,
    /// Record the response until silence, write its audio out; report the
    /// file name and the audio's duration.
    RecordResponse,
    /// Stop the packet capture and flush it.
    StopSniffer,
    /// Recognise the response audio; report the transcript.
    Recognise,
    /// Close the current row: set its end time and write it out.
    CompleteRow,
    /// Stop the query recording and discard its output.
    StopQueryRecordingDiscard,
    /// Close the session row: set its end time and write it out.
    CompleteSession,
}

/// What a peripheral reports back after performing an action.
pub enum Event {
    /// The ping went out, or could not be sent; both count.
    PingDone,
    /// The row was inserted: its assigned id and its start time.
    RowCreated { id: u32, now: u64 },
    /// The capture runs and writes to the given path.
    SnifferStarted { capture_path: String },
    /// The query recording runs.
    RecordingStarted,
    /// The query was spoken; the utterance took this long, in ms.
    Said { duration_ms: u64 },
    /// The query audio was written under this file name.
    QueryAudioSaved { file_name: String },
    /// The store took the row update.
    RowUpdated,
    /// The response audio was written under this file name; it lasts this
    /// long, in ms.
    ResponseRecorded { file_name: String, duration_ms: u64 },
    /// The capture was stopped and flushed.
    SnifferStopped,
    /// Recognition produced this transcript.
    Recognised { text: String },
    /// The row was closed at this time.
    RowCompleted { now: u64 },
    /// The session row was closed at this time.
    SessionCompleted { now: u64 },
    /// A cleanup stop finished, successfully or not.
    CleanupDone,
    /// The awaited action failed with this error.
    StepFailed { error: Error },
}

/// A session in progress: the engine, the session row, and the state of the
/// interaction being driven. The caller performs each emitted action against
/// the real peripherals and hands the outcome back.
pub struct InteractorInstance {
    pub interactor: Interactor,
    pub session: Session,
    pub session_path: String,
    pub queries: Vec<Query>,
    /// The index of the query the current interaction is about.
    pub next_query: usize,
    /// Every interaction row created this session, closed or abandoned.
    pub rows: Vec<Interaction>,
    pub step: Step,
    /// The row of the interaction in progress.
    pub row: Option<Interaction>,
    /// Where the running capture writes, once the sniffer started.
    pub capture_path: Option<String>,
    /// The error that ended the last failed interaction, if any.
    pub last_error: Option<Error>,
    /// The session-level failure, if closing the session row failed.
    pub outcome: Option<Error>,
}

impl InteractorInstance {
    /// Rows are well formed and belong to this session; the flow state is
    /// consistent with what is live; and no file reference or recognition
    /// result is set before the step that reports it done.
    pub open spec fn wf(self) -> bool {
        &&& self.session.wf()
        &&& self.next_query <= self.queries@.len()
        &&& forall|i: int|
            0 <= i < self.rows@.len() ==> (#[trigger] self.rows@[i]).wf() && self.rows@[i].session_id
                == self.session.id
        &&& match self.row {
            Some(r) => r.wf() && r.session_id == self.session.id,
            None => true,
        }
        &&& self.row is Some <==> !(self.step == Step::Ready || self.step == Step::Pinging
            || self.step == Step::CreatingRow || self.step == Step::CompletingSession || self.step
            == Step::Finished)
        &&& match self.step {
            Step::Ready | Step::Pinging | Step::CreatingRow | Step::StartingSniffer => true,
            Step::CompletingSession | Step::Finished => true,
            _ => self.capture_path is Some,
        }
        &&& (self.step != Step::Ready && self.step != Step::CompletingSession && self.step
            != Step::Finished ==> self.next_query < self.queries@.len())
        &&& match self.step {
            Step::StartingSniffer | Step::StartingQueryRec | Step::Saying | Step::SavingQueryAudio
                | Step::UpdatingAfterQuery | Step::RecordingResponse
                | Step::UpdatingAfterResponse | Step::StoppingSniffer | Step::Recognising => {
                match self.row {
                    Some(r) => r.response is None,
                    None => true,
                }
            },
            _ => true,
        }
        &&& match self.step {
            Step::StartingSniffer | Step::StartingQueryRec | Step::Saying
                | Step::SavingQueryAudio => {
                match self.row {
                    Some(r) => r.query_file is None,
                    None => true,
                }
            },
            _ => true,
        }
        &&& match self.step {
            Step::StartingSniffer | Step::StartingQueryRec | Step::Saying | Step::SavingQueryAudio
                | Step::UpdatingAfterQuery | Step::RecordingResponse => {
                match self.row {
                    Some(r) => r.response_file is None && r.response_duration is None,
                    None => true,
                }
            },
            _ => true,
        }
        &&& match self.step {
            Step::StartingSniffer | Step::StartingQueryRec | Step::Saying | Step::SavingQueryAudio
                | Step::UpdatingAfterQuery | Step::RecordingResponse
                | Step::UpdatingAfterResponse | Step::StoppingSniffer => {
                match self.row {
                    Some(r) => r.capture_file is None,
                    None => true,
                }
            },
            _ => true,
        }
    }

    /// The text of the query the current interaction is about.
    pub fn current_query_text(&self) -> (r: &str)
        requires
            self.next_query < self.queries@.len(),
        ensures
            r@ == self.queries@[self.next_query as int].text@,
    {
        self.queries[self.next_query].text.as_str()
    }

    /// Hand the session its queries and get the first action. An empty list
    /// closes the session at once, with no interaction rows.
    pub fn start(&mut self, queries: Vec<Query>) -> (action: Action)
        requires
            old(self).wf(),
            old(self).step == Step::Ready,
        ensures
            final (self).wf(),
            final (self).queries == queries,
            final (self).rows == old(self).rows,
            final (self).session == old(self).session,
            final (self).interactor == old(self).interactor,
            final (self).session_path == old(self).session_path,
            queries@.len() == 0 ==> action == Action::CompleteSession && final (self).step
                == Step::CompletingSession,
            queries@.len() > 0 ==> action == Action::Ping && final (self).step == Step::Pinging
                && final (self).next_query == 0,
    {
        self.queries = queries;
        self.next_query = 0;
        if self.queries.len() == 0 {
            self.step = Step::CompletingSession;
            Action::CompleteSession
        } else {
            self.step = Step::Pinging;
            Action::Ping
        }
    }

    /// Whether an event is the one the current step awaits.
    pub open spec fn expects(self, event: Event) -> bool {
        match (self.step, event) {
            (Step::Pinging, Event::PingDone) => true,
            (Step::CreatingRow, Event::RowCreated { .. }) => true,
            (Step::StartingSniffer, Event::SnifferStarted { .. }) => true,
            (Step::StartingQueryRec, Event::RecordingStarted) => true,
            (Step::Saying, Event::Said { .. }) => true,
            (Step::SavingQueryAudio, Event::QueryAudioSaved { .. }) => true,
            (Step::UpdatingAfterQuery, Event::RowUpdated) => true,
            (Step::RecordingResponse, Event::ResponseRecorded { .. }) => true,
            (Step::UpdatingAfterResponse, Event::RowUpdated) => true,
            (Step::StoppingSniffer, Event::SnifferStopped) => true,
            (Step::Recognising, Event::Recognised { .. }) => true,
            (Step::UpdatingAfterRecognise, Event::RowUpdated) => true,
            (Step::CompletingRow, Event::RowCompleted { .. }) => true,
            (Step::CleanupQueryRec, Event::CleanupDone) => true,
            (Step::CleanupSniffer, Event::CleanupDone) => true,
            (Step::CompletingSession, Event::SessionCompleted { .. }) => true,
            (s, Event::StepFailed { .. }) => s != Step::Ready && s != Step::Finished,
            _ => false,
        }
    }

    /// Book the current row as attempted and move to the next query: ping for
    /// the next interaction, or close the session when none is left.
    fn advance(&mut self) -> (action: Action)
        requires
            old(self).wf(),
            old(self).step != Step::Ready,
            old(self).step != Step::CompletingSession,
            old(self).step != Step::Finished,
        ensures
            final (self).wf(),
            final (self).interactor == old(self).interactor,
            final (self).session == old(self).session,
            final (self).session_path == old(self).session_path,
            final (self).queries == old(self).queries,
            final (self).last_error == old(self).last_error,
            final (self).outcome == old(self).outcome,
            final (self).capture_path is None,
            final (self).row is None,
            final (self).rows@ == match old(self).row {
                Some(r) => old(self).rows@.push(r),
                None => old(self).rows@,
            },
            final (self).next_query == old(self).next_query + 1,
            old(self).next_query + 1 < old(self).queries@.len() ==> action == Action::Ping
                && final (self).step == Step::Pinging,
            old(self).next_query + 1 == old(self).queries@.len() ==> action
                == Action::CompleteSession && final (self).step == Step::CompletingSession,
    {
        if let Some(r) = self.row.take() {
            self.rows.push(r);
        }
        self.capture_path = None;
        let n = self.queries.len();
        self.next_query = self.next_query + 1;
        if self.next_query < n {
            self.step = Step::Pinging;
            Action::Ping
        } else {
            self.step = Step::CompletingSession;
            Action::CompleteSession
        }
    }

    /// Fail the current interaction with an error: remember it, clean up
    /// whatever is still live, and otherwise move on to the next query. The
    /// session survives per-query failures.
    fn fail(&mut self, error: Error) -> (action: Action)
        requires
            old(self).wf(),
            old(self).step != Step::Ready,
            old(self).step != Step::CompletingSession,
            old(self).step != Step::Finished,
            old(self).step != Step::CleanupQueryRec,
            old(self).step != Step::CleanupSniffer,
        ensures
            final (self).wf(),
            final (self).interactor == old(self).interactor,
            final (self).session == old(self).session,
            final (self).session_path == old(self).session_path,
            final (self).queries == old(self).queries,
            final (self).last_error == Some(error),
            final (self).outcome == old(self).outcome,
            match old(self).step {
                Step::Saying => {
                    &&& action == Action::StopQueryRecordingDiscard
                    &&& final (self).step == Step::CleanupQueryRec
                    &&& final (self).row == old(self).row
                    &&& final (self).rows == old(self).rows
                    &&& final (self).next_query == old(self).next_query
                    &&& final (self).capture_path == old(self).capture_path
                },
                Step::StartingQueryRec | Step::SavingQueryAudio | Step::UpdatingAfterQuery
                    | Step::RecordingResponse | Step::UpdatingAfterResponse => {
                    &&& action == Action::StopSniffer
                    &&& final (self).step == Step::CleanupSniffer
                    &&& final (self).row == old(self).row
                    &&& final (self).rows == old(self).rows
                    &&& final (self).next_query == old(self).next_query
                    &&& final (self).capture_path == old(self).capture_path
                },
                _ => {
                    &&& final (self).row is None
                    &&& final (self).capture_path is None
                    &&& final (self).rows@ == match old(self).row {
                        Some(r) => old(self).rows@.push(r),
                        None => old(self).rows@,
                    }
                    &&& final (self).next_query == old(self).next_query + 1
                    &&& (old(self).next_query + 1 < old(self).queries@.len() ==> action
                        == Action::Ping && final (self).step == Step::Pinging)
                    &&& (old(self).next_query + 1 == old(self).queries@.len() ==> action
                        == Action::CompleteSession && final (self).step == Step::CompletingSession)
                },
            },
    {
        self.last_error = Some(error);
        match self.step {
            Step::Saying => {
                self.step = Step::CleanupQueryRec;
                Action::StopQueryRecordingDiscard
            },
            Step::StartingQueryRec | Step::SavingQueryAudio | Step::UpdatingAfterQuery
                | Step::RecordingResponse | Step::UpdatingAfterResponse => {
                self.step = Step::CleanupSniffer;
                Action::StopSniffer
            },
            _ => self.advance(),
        }
    }

    /// Drive the session one step: take the outcome of the last action and
    /// say what to do next. `None` means the session is over.
    ///
    /// Per-query failures are remembered and the loop continues with the next
    /// query; only closing the session row can fail the session itself.
    pub fn step(&mut self, event: Event) -> (action: Option<Action>)
        requires
            old(self).wf(),
            old(self).expects(event),
        ensures
            final (self).wf(),
            final (self).interactor == old(self).interactor,
            final (self).session_path == old(self).session_path,
            final (self).queries == old(self).queries,
            final (self).session.id == old(self).session.id,
            final (self).session.config == old(self).session.config,
            final (self).session.started == old(self).session.started,
            final (self).session.data_dir == old(self).session.data_dir,
            match (old(self).step, event) {
                (Step::Pinging, Event::PingDone) | (Step::Pinging, Event::StepFailed { .. }) => {
                    &&& action == Some(Action::CreateRow)
                    &&& *final (self) == InteractorInstance { step: Step::CreatingRow, ..*old(self) }
                },
                (Step::CreatingRow, Event::RowCreated { id, now }) => {
                    &&& action == Some(Action::StartSniffer)
                    &&& final (self).step == Step::StartingSniffer
                    &&& final (self).row matches Some(r) && r.id == id && r.session_id == old(
                        self,
                    ).session.id && r.query@ == old(self).queries@[old(
                        self,
                    ).next_query as int].text@ && r.started == now && r.ended is None
                        && r.response is None && r.query_file is None && r.response_file is None
                        && r.capture_file is None && r.query_duration is None
                        && r.response_duration is None
                    &&& final (self).rows == old(self).rows
                    &&& final (self).next_query == old(self).next_query
                    &&& final (self).session == old(self).session
                    &&& final (self).capture_path == old(self).capture_path
                    &&& final (self).last_error == old(self).last_error
                    &&& final (self).outcome == old(self).outcome
                },
                (Step::StartingSniffer, Event::SnifferStarted { capture_path }) => {
                    &&& action == Some(Action::StartQueryRecording)
                    &&& *final (self) == InteractorInstance {
                        step: Step::StartingQueryRec,
                        capture_path: Some(capture_path),
                        ..*old(self)
                    }
                },
                (Step::StartingQueryRec, Event::RecordingStarted) => {
                    &&& action == Some(Action::Say)
                    &&& *final (self) == InteractorInstance { step: Step::Saying, ..*old(self) }
                },
                (Step::Saying, Event::Said { duration_ms }) => {
                    &&& action == Some(Action::SaveQueryAudio)
                    &&& final (self).step == Step::SavingQueryAudio
                    &&& final (self).row matches Some(r) && old(self).row matches Some(r0) && r
                        == Interaction { query_duration: Some(duration_ms), ..r0 }
                    &&& final (self).rows == old(self).rows
                    &&& final (self).session == old(self).session
                    &&& final (self).next_query == old(self).next_query
                    &&& final (self).capture_path == old(self).capture_path
                    &&& final (self).last_error == old(self).last_error
                    &&& final (self).outcome == old(self).outcome
                },
                (Step::SavingQueryAudio, Event::QueryAudioSaved { file_name }) => {
                    &&& action == Some(Action::UpdateRow)
                    &&& final (self).step == Step::UpdatingAfterQuery
                    &&& final (self).row matches Some(r) && old(self).row matches Some(r0) && r
                        == Interaction { query_file: Some(file_name), ..r0 }
                    &&& final (self).rows == old(self).rows
                    &&& final (self).session == old(self).session
                    &&& final (self).next_query == old(self).next_query
                    &&& final (self).capture_path == old(self).capture_path
                    &&& final (self).last_error == old(self).last_error
                    &&& final (self).outcome == old(self).outcome
                },
                (Step::UpdatingAfterQuery, Event::RowUpdated) => {
                    &&& action == Some(Action::RecordResponse)
                    &&& *final (self) == InteractorInstance {
                        step: Step::RecordingResponse,
                        ..*old(self)
                    }
                },
                (Step::RecordingResponse, Event::ResponseRecorded { file_name, duration_ms }) => {
                    &&& action == Some(Action::UpdateRow)
                    &&& final (self).step == Step::UpdatingAfterResponse
                    &&& final (self).row matches Some(r) && old(self).row matches Some(r0) && r
                        == Interaction {
                        response_file: Some(file_name),
                        response_duration: Some(duration_ms),
                        ..r0
                    }
                    &&& final (self).rows == old(self).rows
                    &&& final (self).session == old(self).session
                    &&& final (self).next_query == old(self).next_query
                    &&& final (self).capture_path == old(self).capture_path
                    &&& final (self).last_error == old(self).last_error
                    &&& final (self).outcome == old(self).outcome
                },
                (Step::UpdatingAfterResponse, Event::RowUpdated) => {
                    &&& action == Some(Action::StopSniffer)
                    &&& *final (self) == InteractorInstance {
                        step: Step::StoppingSniffer,
                        ..*old(self)
                    }
                },
                (Step::StoppingSniffer, Event::SnifferStopped) => {
                    &&& action == Some(Action::Recognise)
                    &&& final (self).step == Step::Recognising
                    &&& final (self).row matches Some(r) && old(self).row matches Some(r0) && old(
                        self,
                    ).capture_path matches Some(p) && (r == Interaction {
                        capture_file: r.capture_file,
                        ..r0
                    }) && (r.capture_file matches Some(f) && f@ == spec_file_name_or_full(p@))
                    &&& final (self).rows == old(self).rows
                    &&& final (self).session == old(self).session
                    &&& final (self).next_query == old(self).next_query
                    &&& final (self).capture_path == old(self).capture_path
                    &&& final (self).last_error == old(self).last_error
                    &&& final (self).outcome == old(self).outcome
                },
                (Step::Recognising, Event::Recognised { text }) => {
                    &&& action == Some(Action::UpdateRow)
                    &&& final (self).step == Step::UpdatingAfterRecognise
                    &&& final (self).row matches Some(r) && old(self).row matches Some(r0) && r
                        == Interaction { response: Some(text), ..r0 }
                    &&& final (self).rows == old(self).rows
                    &&& final (self).session == old(self).session
                    &&& final (self).next_query == old(self).next_query
                    &&& final (self).capture_path == old(self).capture_path
                    &&& final (self).last_error == old(self).last_error
                    &&& final (self).outcome == old(self).outcome
                },
                (Step::Recognising, Event::StepFailed { error }) => {
                    &&& action == Some(Action::CompleteRow)
                    &&& final (self).step == Step::CompletingRow
                    &&& final (self).row == old(self).row
                    &&& final (self).row matches Some(r) && r.response is None
                    &&& final (self).last_error == Some(error)
                    &&& final (self).capture_path == old(self).capture_path
                    &&& final (self).outcome == old(self).outcome
                    &&& final (self).rows == old(self).rows
                    &&& final (self).session == old(self).session
                    &&& final (self).next_query == old(self).next_query
                },
                (Step::UpdatingAfterRecognise, Event::RowUpdated) => {
                    &&& action == Some(Action::CompleteRow)
                    &&& *final (self) == InteractorInstance {
                        step: Step::CompletingRow,
                        ..*old(self)
                    }
                },
                (Step::CompletingRow, Event::RowCompleted { now }) => {
                    &&& final (self).row is None
                    &&& final (self).capture_path is None
                    &&& final (self).last_error == old(self).last_error
                    &&& final (self).outcome == old(self).outcome
                    &&& old(self).row matches Some(r0) && final (self).rows@ == old(
                        self,
                    ).rows@.push(
                        Interaction {
                            ended: Some(
                                if now >= r0.started {
                                    now
                                } else {
                                    r0.started
                                },
                            ),
                            ..r0
                        },
                    )
                    &&& final (self).session == old(self).session
                    &&& final (self).next_query == old(self).next_query + 1
                    &&& (old(self).next_query + 1 < old(self).queries@.len() ==> action == Some(
                        Action::Ping,
                    ) && final (self).step == Step::Pinging)
                    &&& (old(self).next_query + 1 == old(self).queries@.len() ==> action == Some(
                        Action::CompleteSession,
                    ) && final (self).step == Step::CompletingSession)
                },
                (Step::CleanupQueryRec, _) => {
                    &&& action == Some(Action::StopSniffer)
                    &&& final (self).step == Step::CleanupSniffer
                    &&& final (self).row == old(self).row
                    &&& final (self).rows == old(self).rows
                    &&& final (self).session == old(self).session
                    &&& final (self).next_query == old(self).next_query
                    &&& final (self).capture_path == old(self).capture_path
                    &&& final (self).outcome == old(self).outcome
                    &&& (event matches Event::StepFailed { error } ==> final (self).last_error
                        == Some(error))
                    &&& (event matches Event::CleanupDone ==> final (self).last_error == old(
                        self,
                    ).last_error)
                },
                (Step::CleanupSniffer, _) => {
                    &&& final (self).row is None
                    &&& final (self).capture_path is None
                    &&& final (self).outcome == old(self).outcome
                    &&& (event matches Event::StepFailed { error } ==> final (self).last_error
                        == Some(error))
                    &&& (event matches Event::CleanupDone ==> final (self).last_error == old(
                        self,
                    ).last_error)
                    &&& final (self).rows@ == match old(self).row {
                        Some(r) => old(self).rows@.push(r),
                        None => old(self).rows@,
                    }
                    &&& final (self).session == old(self).session
                    &&& final (self).next_query == old(self).next_query + 1
                    &&& (old(self).next_query + 1 < old(self).queries@.len() ==> action == Some(
                        Action::Ping,
                    ) && final (self).step == Step::Pinging)
                    &&& (old(self).next_query + 1 == old(self).queries@.len() ==> action == Some(
                        Action::CompleteSession,
                    ) && final (self).step == Step::CompletingSession)
                },
                (Step::CompletingSession, Event::SessionCompleted { now }) => {
                    &&& action is None
                    &&& final (self).step == Step::Finished
                    &&& final (self).session == Session {
                        ended: Some(
                            if now >= old(self).session.started {
                                now
                            } else {
                                old(self).session.started
                            },
                        ),
                        ..old(self).session
                    }
                    &&& final (self).outcome == old(self).outcome
                    &&& final (self).last_error == old(self).last_error
                    &&& final (self).rows == old(self).rows
                },
                (Step::CompletingSession, Event::StepFailed { error }) => {
                    &&& action is None
                    &&& final (self).step == Step::Finished
                    &&& final (self).session == old(self).session
                    &&& final (self).outcome == Some(error)
                    &&& final (self).last_error == old(self).last_error
                    &&& final (self).rows == old(self).rows
                },
                (_, Event::StepFailed { error }) => {
                    &&& final (self).last_error == Some(error)
                    &&& final (self).outcome == old(self).outcome
                    &&& final (self).session == old(self).session
                    &&& match old(self).step {
                        Step::Saying => {
                            &&& action == Some(Action::StopQueryRecordingDiscard)
                            &&& final (self).step == Step::CleanupQueryRec
                            &&& final (self).row == old(self).row
                            &&& final (self).rows == old(self).rows
                            &&& final (self).capture_path == old(self).capture_path
                        },
                        Step::StartingQueryRec | Step::SavingQueryAudio | Step::UpdatingAfterQuery
                            | Step::RecordingResponse | Step::UpdatingAfterResponse => {
                            &&& action == Some(Action::StopSniffer)
                            &&& final (self).step == Step::CleanupSniffer
                            &&& final (self).row == old(self).row
                            &&& final (self).rows == old(self).rows
                            &&& final (self).capture_path == old(self).capture_path
                        },
                        _ => {
                            &&& final (self).row is None
                            &&& final (self).capture_path is None
                            &&& final (self).rows@ == match old(self).row {
                                Some(r) => old(self).rows@.push(r),
                                None => old(self).rows@,
                            }
                            &&& final (self).next_query == old(self).next_query + 1
                            &&& (old(self).next_query + 1 < old(self).queries@.len() ==> action
                                == Some(Action::Ping) && final (self).step == Step::Pinging)
                            &&& (old(self).next_query + 1 == old(self).queries@.len() ==> action
                                == Some(Action::CompleteSession) && final (self).step
                                == Step::CompletingSession)
                        },
                    }
                },
                _ => false,
            },
    {
        match event {
            Event::PingDone => {
                self.step = Step::CreatingRow;
                Some(Action::CreateRow)
            },
            Event::RowCreated { id, now } => {
                let text = self.queries[self.next_query].text.clone();
                self.row = Some(Interaction::create(id, self.session.id, text, now));
                self.step = Step::StartingSniffer;
                Some(Action::StartSniffer)
            },
            Event::SnifferStarted { capture_path } => {
                self.capture_path = Some(capture_path);
                self.step = Step::StartingQueryRec;
                Some(Action::StartQueryRecording)
            },
            Event::RecordingStarted => {
                self.step = Step::Saying;
                Some(Action::Say)
            },
            Event::Said { duration_ms } => {
                if let Some(mut r) = self.row.take() {
                    r.query_duration = Some(duration_ms);
                    self.row = Some(r);
                }
                self.step = Step::SavingQueryAudio;
                Some(Action::SaveQueryAudio)
            },
            Event::QueryAudioSaved { file_name } => {
                if let Some(mut r) = self.row.take() {
                    r.query_file = Some(file_name);
                    self.row = Some(r);
                }
                self.step = Step::UpdatingAfterQuery;
                Some(Action::UpdateRow)
            },
            Event::RowUpdated => {
                match self.step {
                    Step::UpdatingAfterQuery => {
                        self.step = Step::RecordingResponse;
                        Some(Action::RecordResponse)
                    },
                    Step::UpdatingAfterResponse => {
                        self.step = Step::StoppingSniffer;
                        Some(Action::StopSniffer)
                    },
                    _ => {
                        self.step = Step::CompletingRow;
                        Some(Action::CompleteRow)
                    },
                }
            },
            Event::ResponseRecorded { file_name, duration_ms } => {
                if let Some(mut r) = self.row.take() {
                    r.response_file = Some(file_name);
                    r.response_duration = Some(duration_ms);
                    self.row = Some(r);
                }
                self.step = Step::UpdatingAfterResponse;
                Some(Action::UpdateRow)
            },
            Event::SnifferStopped => {
                let name = match &self.capture_path {
                    Some(p) => file_name_or_full(p.as_str()),
                    None => String::new(),
                };
                if let Some(mut r) = self.row.take() {
                    r.capture_file = Some(name);
                    self.row = Some(r);
                }
                self.step = Step::Recognising;
                Some(Action::Recognise)
            },
            Event::Recognised { text } => {
                if let Some(mut r) = self.row.take() {
                    r.response = Some(text);
                    self.row = Some(r);
                }
                self.step = Step::UpdatingAfterRecognise;
                Some(Action::UpdateRow)
            },
            Event::RowCompleted { now } => {
                if let Some(mut r) = self.row.take() {
                    r.complete(now);
                    self.row = Some(r);
                }
                Some(self.advance())
            },
            Event::SessionCompleted { now } => {
                self.session.complete(now);
                self.step = Step::Finished;
                None
            },
            Event::CleanupDone => {
                match self.step {
                    Step::CleanupQueryRec => {
                        self.step = Step::CleanupSniffer;
                        Some(Action::StopSniffer)
                    },
                    _ => Some(self.advance()),
                }
            },
            Event::StepFailed { error } => {
                match self.step {
                    Step::Pinging => {
                        self.step = Step::CreatingRow;
                        Some(Action::CreateRow)
                    },
                    Step::Recognising => {
                        self.last_error = Some(error);
                        self.step = Step::CompletingRow;
                        Some(Action::CompleteRow)
                    },
                    Step::CompletingSession => {
                        self.outcome = Some(error);
                        self.step = Step::Finished;
                        None
                    },
                    Step::CleanupQueryRec => {
                        self.last_error = Some(error);
                        self.step = Step::CleanupSniffer;
                        Some(Action::StopSniffer)
                    },
                    Step::CleanupSniffer => {
                        self.last_error = Some(error);
                        Some(self.advance())
                    },
                    _ => Some(self.fail(error)),
                }
            },
        }
    }
}

} // verus!
