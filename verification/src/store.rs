use vstd::prelude::*;

verus! {

/// The configuration snapshot stored with every session row.
pub struct InteractorConfig {
    pub interface: String,
    pub voice: String,
    pub sensitivity: String,
    pub model: String,
}

/// A session row: one voice, one interface, one sensitivity, one model, and
/// the directory its artifacts are stored under.
pub struct Session {
    pub id: u32,
    pub config: InteractorConfig,
    pub started: u64,
    pub ended: Option<u64>,
    pub data_dir: Option<String>,
}

impl Session {
    /// A closed row never ends before it started.
    pub open spec fn wf(self) -> bool {
        match self.ended {
            Some(e) => self.started <= e,
            None => true,
        }
    }

    /// A fresh session row: open, with no data directory attached yet.
    pub fn create(id: u32, config: InteractorConfig, started: u64) -> (s: Session)
        ensures
            s.wf(),
            s.id == id,
            s.config == config,
            s.started == started,
            s.ended is None,
            s.data_dir is None,
    {
        Session { id, config, started, ended: None, data_dir: None }
    }

    /// Close the row. A clock that ran backwards cannot break the invariant:
    /// the end time is never set before the start time.
    pub fn complete(&mut self, now: u64)
        requires
            old(self).wf(),
        ensures
            final (self).wf(),
            final (self).ended == Some(
                if now >= old(self).started {
                    now
                } else {
                    old(self).started
                },
            ),
            final (self).id == old(self).id,
            final (self).config == old(self).config,
            final (self).started == old(self).started,
            final (self).data_dir == old(self).data_dir,
    {
        if now >= self.started {
            self.ended = Some(now);
        } else {
            self.ended = Some(self.started);
        }
    }
}

/// An interaction row: one query of a session, its transcript and the
/// references to its artifact files.
pub struct Interaction {
    pub id: u32,
    pub session_id: u32,
    pub query: String,
    pub response: Option<String>,
    pub query_duration: Option<u64>,
    pub response_duration: Option<u64>,
    pub query_file: Option<String>,
    pub response_file: Option<String>,
    pub capture_file: Option<String>,
    pub started: u64,
    pub ended: Option<u64>,
}

impl Interaction {
    /// A closed row never ends before it started.
    pub open spec fn wf(self) -> bool {
        match self.ended {
            Some(e) => self.started <= e,
            None => true,
        }
    }

    /// A fresh interaction row: nothing recognised, nothing persisted yet.
    pub fn create(id: u32, session_id: u32, query: String, started: u64) -> (r: Interaction)
        ensures
            r.wf(),
            r.id == id,
            r.session_id == session_id,
            r.query == query,
            r.started == started,
            r.response is None,
            r.query_duration is None,
            r.response_duration is None,
            r.query_file is None,
            r.response_file is None,
            r.capture_file is None,
            r.ended is None,
    {
        Interaction {
            id,
            session_id,
            query,
            response: None,
            query_duration: None,
            response_duration: None,
            query_file: None,
            response_file: None,
            capture_file: None,
            started,
            ended: None,
        }
    }

    /// Close the row. A clock that ran backwards cannot break the invariant:
    /// the end time is never set before the start time.
    pub fn complete(&mut self, now: u64)
        requires
            old(self).wf(),
        ensures
            final (self).wf(),
            final (self).ended == Some(
                if now >= old(self).started {
                    now
                } else {
                    old(self).started
                },
            ),
            final (self).id == old(self).id,
            final (self).session_id == old(self).session_id,
            final (self).query == old(self).query,
            final (self).response == old(self).response,
            final (self).query_duration == old(self).query_duration,
            final (self).response_duration == old(self).response_duration,
            final (self).query_file == old(self).query_file,
            final (self).response_file == old(self).response_file,
            final (self).capture_file == old(self).capture_file,
            final (self).started == old(self).started,
    {
        if now >= self.started {
            self.ended = Some(now);
        } else {
            self.ended = Some(self.started);
        }
    }
}

} // verus!
