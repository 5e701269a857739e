//! The job engine: one slot for parameters, status and captured output.
//!
//! The engine never starts or awaits a process itself. `run_command` decides
//! whether a run starts and hands out what to start; the caller starts it and
//! reports the outcome through `spawn_failed`, `process_exited` or
//! `wait_failed`.

use crate::output::{capture_output, combined_output, lossy_text};
use crate::params::{copy_text_option, text_option, texts, MkArchQemuParams, ParamsView};
use crate::status::{JobStatus, StatusView};
use vstd::prelude::*;
use vstd::utf8::{decode_utf8, valid_utf8};

verus! {

/// The builder that every run starts.
pub const PROGRAM: &'static str = "/usr/bin/mkarchqemu";

/// What to start for one run: the program and its arguments, fixed at the
/// moment the run was accepted.
#[derive(Debug, PartialEq, Eq)]
pub struct Launch {
    pub program: String,
    pub args: Vec<String>,
}

/// The mathematical value of a `Launch`.
pub struct LaunchView {
    pub program: Seq<char>,
    pub args: Seq<Seq<char>>,
}

impl View for Launch {
    type V = LaunchView;

    open spec fn view(&self) -> LaunchView {
        LaunchView { program: self.program@, args: texts(self.args@) }
    }
}

/// A text followed by each of the given words, a single space before each.
pub open spec fn followed_by(start: Seq<char>, words: Seq<Seq<char>>) -> Seq<char>
    decreases words.len(),
{
    if words.len() == 0 {
        start
    } else {
        followed_by(start, words.drop_last()) + " "@ + words.last()
    }
}

impl LaunchView {
    /// The launch on one line: the program and its arguments, with single
    /// spaces between them and nothing quoted.
    pub open spec fn command_line(self) -> Seq<char> {
        followed_by(self.program, self.args)
    }
}

impl Launch {
    /// The launch on one line, for a log or a message. Arguments are not
    /// quoted, so the line cannot be split back into them.
    pub fn command_line(&self) -> (line: String)
        ensures
            line@ == self@.command_line(),
    {
        let mut line = self.program.clone();
        let mut i: usize = 0;
        while i < self.args.len()
            invariant
                i <= self.args.len(),
                line@ == followed_by(self.program@, texts(self.args@).take(i as int)),
            decreases self.args.len() - i,
        {
            line.append(" ");
            line.append(self.args[i].as_str());
            proof {
                let words = texts(self.args@).take(i + 1);
                assert(words.drop_last() =~= texts(self.args@).take(i as int));
                assert(words.last() == self.args[i as int]@);
            }
            i += 1;
        }
        assert(texts(self.args@).take(i as int) =~= texts(self.args@));
        line
    }
}

/// The job engine.
pub struct MkArchQemu {
    params: Option<MkArchQemuParams>,
    status: JobStatus,
    last_output: Option<String>,
}

/// The mathematical value of the engine: its three cells.
pub struct EngineView {
    pub params: Option<ParamsView>,
    pub status: StatusView,
    pub last_output: Option<Seq<char>>,
}

impl EngineView {
    /// The engine as it is created: no parameters, waiting, nothing captured.
    pub open spec fn initial() -> EngineView {
        EngineView { params: None, status: StatusView::Waiting, last_output: None }
    }

    /// The engine after new parameters were stored.
    pub open spec fn with_params(self, params: ParamsView) -> EngineView {
        EngineView { params: Some(params), ..self }
    }

    /// What a trigger hands out: a launch made of the stored parameters, or
    /// nothing where none are stored.
    pub open spec fn launch(self) -> Option<LaunchView> {
        match self.params {
            Some(params) => Some(LaunchView { program: PROGRAM@, args: params.arguments() }),
            None => None,
        }
    }

    /// The engine after a trigger: running where parameters are stored,
    /// unchanged where none are.
    pub open spec fn triggered(self) -> EngineView {
        if self.params is Some {
            EngineView { status: StatusView::Running, ..self }
        } else {
            self
        }
    }

    /// The engine after a failure with the given reason was recorded.
    pub open spec fn failed(self, reason: Seq<char>) -> EngineView {
        EngineView { status: StatusView::Error(reason), ..self }
    }

    /// The engine after a run ended and the given text was captured from it.
    pub open spec fn finished_with(self, text: Seq<char>) -> EngineView {
        EngineView { status: StatusView::Finished, last_output: Some(text), ..self }
    }

    /// The engine after a run ended whose streams held the given bytes.
    pub open spec fn exited(self, stdout: Seq<u8>, stderr: Seq<u8>) -> EngineView {
        self.finished_with(combined_output(lossy_text(stdout), lossy_text(stderr)))
    }
}

/// The value of a launch that may be absent.
pub open spec fn launch_option(launch: Option<Launch>) -> Option<LaunchView> {
    match launch {
        Some(l) => Some(l@),
        None => None,
    }
}

/// The value of parameters that may be absent.
pub open spec fn params_option(params: Option<MkArchQemuParams>) -> Option<ParamsView> {
    match params {
        Some(p) => Some(p@),
        None => None,
    }
}

impl View for MkArchQemu {
    type V = EngineView;

    closed spec fn view(&self) -> EngineView {
        EngineView {
            params: params_option(self.params),
            status: self.status@,
            last_output: text_option(self.last_output),
        }
    }
}

impl MkArchQemu {
    /// Creates the engine: no parameters, waiting, nothing captured.
    pub fn new() -> (engine: Self)
        ensures
            engine@ == EngineView::initial(),
    {
        MkArchQemu { params: None, status: JobStatus::Waiting, last_output: None }
    }

    /// Stores new parameters in place of the old ones, whatever the status.
    /// A launch that was handed out before is a value of its own and keeps
    /// the parameters it was made of.
    pub fn set_params(&mut self, params: MkArchQemuParams)
        ensures
            final(self)@ == old(self)@.with_params(params@),
    {
        self.params = Some(params);
    }

    /// A copy of the stored parameters, or `None` where none were stored.
    pub fn get_params(&self) -> (params: Option<MkArchQemuParams>)
        ensures
            params_option(params) == self@.params,
    {
        match &self.params {
            Some(p) => Some(p.clone()),
            None => None,
        }
    }

    /// A copy of the current status.
    pub fn get_status(&self) -> (status: JobStatus)
        ensures
            status@ == self@.status,
    {
        self.status.clone()
    }

    /// A copy of the text captured from the latest run that ended, or `None`
    /// where no run has ended yet.
    pub fn get_last_output(&self) -> (output: Option<String>)
        ensures
            text_option(output) == self@.last_output,
    {
        copy_text_option(&self.last_output)
    }

    /// Triggers a run. Where parameters are stored, the status becomes
    /// `Running` and the launch made of them is returned for the caller to
    /// start. Where none are stored, nothing changes and `None` is returned.
    /// A trigger is accepted in every status, also while a run is under way.
    pub fn run_command(&mut self) -> (launch: Option<Launch>)
        ensures
            final(self)@ == old(self)@.triggered(),
            launch_option(launch) == old(self)@.launch(),
    {
        match &self.params {
            Some(params) => {
                let launch = Launch { program: PROGRAM.to_owned(), args: params.command_args() };
                self.status = JobStatus::Running;
                Some(launch)
            },
            None => None,
        }
    }

    /// Records that the builder could not be started: the status becomes
    /// `Error` with the given reason, parameters and captured output stay.
    pub fn spawn_failed(&mut self, reason: String)
        ensures
            final(self)@ == old(self)@.failed(reason@),
    {
        self.status = JobStatus::Error(reason);
    }

    /// Records that a run ended: the captured output is replaced by the two
    /// streams, decoded and labelled, and the status becomes `Finished`.
    /// Streams of well-formed UTF-8 are captured as they are.
    pub fn process_exited(&mut self, stdout: &[u8], stderr: &[u8])
        ensures
            final(self)@ == old(self)@.exited(stdout@, stderr@),
            valid_utf8(stdout@) && valid_utf8(stderr@) ==> final(self)@ == old(self)@.finished_with(
                combined_output(decode_utf8(stdout@), decode_utf8(stderr@)),
            ),
    {
        self.last_output = Some(capture_output(stdout, stderr));
        self.status = JobStatus::Finished;
    }

    /// Records that waiting for the builder failed: the status becomes
    /// `Error` with the given reason, and the captured output stays as it was.
    pub fn wait_failed(&mut self, reason: String)
        ensures
            final(self)@ == old(self)@.failed(reason@),
    {
        self.status = JobStatus::Error(reason);
    }
}

} // verus!
