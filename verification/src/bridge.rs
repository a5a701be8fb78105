//! The callback bridge: the host-side implementation of the capability set
//! the tunnel engine invokes — a log-rotation request and an error-reporting
//! channel.
//!
//! The rotating log sink itself is an external collaborator that writes to
//! disk. The host performs the sink's roll-to-new-file call and hands the
//! bridge its report; the bridge's decisions — whether the sink is consulted
//! at all, what the engine is answered, and that a rotation failure is
//! swallowed rather than propagated — are verified here for every report.

use vstd::prelude::*;

use crate::errors::ErrorEvent;
use crate::errors::RotationError;

verus! {

/// Model of the rotating log sink the bridge owns: the directory it writes
/// under and the path of the file a rotation most recently opened. Rotation
/// closes the current backing file and opens a new one, so the sink holds
/// exactly one open file at all times; `open_files` records that count.
pub struct LogSink {
    pub dir: String,
    pub current_path: Option<String>,
    pub open_files: u64,
}

impl LogSink {
    /// Exactly one backing file is open.
    pub open spec fn wf(&self) -> bool {
        self.open_files == 1
    }

    /// A sink freshly opened in `dir`: one open file, no rotation yet.
    pub fn open_in(dir: String) -> (r: LogSink)
        ensures
            r.wf(),
            r.dir@ == dir@,
            r.current_path is None,
    {
        LogSink { dir, current_path: None, open_files: 1 }
    }
}

/// Holds after a successful rotation that named a new file `q`: the sink is
/// still configured, writes under the same directory, now records `q` as the
/// open file, and keeps exactly one file open.
pub open spec fn sink_rotated_to(pre: CallbackBridge, post: CallbackBridge, q: String) -> bool {
    match (pre.sink, post.sink) {
        (Some(s0), Some(s1)) => {
            &&& s1.dir == s0.dir
            &&& s1.current_path == Some(q)
            &&& s1.open_files == 1
        },
        _ => false,
    }
}

/// Adapts the tunnel engine's event notifications into calls against the log
/// sink and into a uniform error-reporting channel. Holds a sink exactly when
/// a log directory was configured, and records every reported error.
pub struct CallbackBridge {
    pub sink: Option<LogSink>,
    pub errors: Vec<ErrorEvent>,
}

impl CallbackBridge {
    pub open spec fn wf(&self) -> bool {
        self.sink matches Some(s) ==> s.wf()
    }

    /// Builds the bridge from the configured log directory: a sink is held
    /// exactly when a directory was configured, and no error has been
    /// recorded yet.
    pub fn new(log_dir: &Option<String>) -> (r: CallbackBridge)
        ensures
            r.wf(),
            r.errors@.len() == 0,
            (match log_dir {
                Some(d) => r.sink matches Some(s) && s.dir@ == d@ && s.current_path is None,
                None => r.sink is None,
            }),
    {
        let sink = match log_dir {
            Some(d) => Some(LogSink::open_in(d.clone())),
            None => None,
        };
        CallbackBridge { sink, errors: Vec::new() }
    }

    /// Whether a log sink is configured: the host invokes the sink's
    /// roll-to-new-file operation exactly when this answers true.
    pub fn sink_configured(&self) -> (r: bool)
        ensures
            r == (self.sink is Some),
    {
        match &self.sink {
            Some(_) => true,
            None => false,
        }
    }

    /// Answers the tunnel engine's log-rotation request. `report` is what the
    /// sink's roll-to-new-file operation answered, and is present exactly when
    /// a sink is configured (with none configured there is nothing to invoke).
    ///
    /// With no sink the request is a no-op: no new path, nothing touched. A
    /// successful rotation passes the sink's answer through and leaves exactly
    /// one file open. A failed rotation is deliberately not propagated: the
    /// engine is answered "no new path" so it continues writing to the
    /// existing file, and the failure is recorded once through the
    /// error-reporting channel. Logging problems never interrupt the tunnel.
    pub fn request_log_rotation(&mut self, report: Option<Result<Option<String>, RotationError>>)
        -> (r: Option<String>)
        requires
            old(self).wf(),
            (report is Some) <==> (old(self).sink is Some),
        ensures
            final(self).wf(),
            old(self).sink is None ==> r is None && *final(self) == *old(self),
            report matches Some(Ok(p)) ==> r == p && final(self).errors@ == old(self).errors@,
            report matches Some(Ok(Some(q))) ==> sink_rotated_to(*old(self), *final(self), q),
            report matches Some(Ok(None)) ==> *final(self) == *old(self),
            report matches Some(Err(e)) ==> r is None
                && final(self).errors@ == old(self).errors@.push(
                    (ErrorEvent::RotationFailed { cause: e.cause }))
                && final(self).sink == old(self).sink,
    {
        match report {
            None => None,
            Some(Ok(new_path)) => {
                match new_path {
                    Some(p) => {
                        match &mut self.sink {
                            Some(sink) => {
                                sink.current_path = Some(p.clone());
                            },
                            None => {},
                        }
                        Some(p)
                    },
                    None => None,
                }
            },
            Some(Err(e)) => {
                self.on_error(ErrorEvent::RotationFailed { cause: e.cause });
                None
            },
        }
    }

    /// The error-reporting capability: accepts any error the tunnel engine
    /// surfaces asynchronously and records it. It cannot fail — the engine's
    /// contract gives this channel an uninhabited error type, so it is modeled
    /// as a procedure with no error result; it only appends to the record.
    pub fn on_error(&mut self, event: ErrorEvent)
        ensures
            final(self).errors@ == old(self).errors@.push(event),
            final(self).sink == old(self).sink,
    {
        self.errors.push(event);
    }

    /// How many errors have been reported through the channel so far.
    pub fn errors_recorded(&self) -> (n: usize)
        ensures
            n == self.errors@.len(),
    {
        self.errors.len()
    }
}

} // verus!
