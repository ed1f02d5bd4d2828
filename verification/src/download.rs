//! A download of one URL into one file, as a machine that asks for the
//! file system and libcurl work it needs and is told how that work went.
//!
//! The file is first written to `<location>.dl`; libcurl is configured by a
//! fixed sequence of options, the first that fails ends the download with its
//! code; after the transfer a file of fewer than 8 bytes counts as a failure,
//! and otherwise the file replaces whatever stood at `<location>`.
use vstd::prelude::*;
use crate::curl::{CurlOption, HttpCurlError, curle};
use crate::curler::ProgressCallback;
use crate::text::{c_string, temp_path};

verus! {

/// The value handed to libcurl with an option. All but `Long` stand for a
/// pointer that the caller owns: the NUL-terminated URL of the download, the
/// writer of the temporary file, the function that writes to it, the progress
/// data, the function that reports progress, the TLS context callback, and the
/// NUL-terminated user agent. `Download::text_value` gives the two texts.
#[derive(Clone, Copy, Debug, PartialEq, Eq, Structural)]
pub enum OptValue {
    Long(u64),
    Url,
    WriteTarget,
    WriteCallback,
    ProgressTarget,
    ProgressCallback,
    SslCtxCallback,
    UserAgent,
}

/// The user agent a download announces, NUL-terminated.
pub open spec fn user_agent() -> Seq<char> {
    "smashnet\0"@
}

/// Work that the download asks of its caller.
#[derive(Clone, Copy, Debug, PartialEq, Eq, Structural)]
pub enum Action {
    /// Does the temporary file exist? Answer with `Event::Exists`.
    TempExists,
    /// Remove the temporary file. Answer with `Event::Done`.
    RemoveTemp,
    /// Create the temporary file and a writer on it. Answer with `Event::Done`.
    CreateTemp,
    /// Set an option on the easy handle. Answer with `Event::Code`.
    SetOpt(CurlOption, OptValue),
    /// Keep a copy of the progress callback alive for libcurl. Answer with `Event::Done`.
    AllocProgressData,
    /// Release that copy. Answer with `Event::Done`.
    FreeProgressData,
    /// Run the transfer. Answer with `Event::Code`.
    Perform,
    /// Flush and close the writer. Answer with `Event::Done`.
    Flush,
    /// How many bytes does the temporary file hold? Answer with `Event::Size`.
    TempSize,
    /// Does the target location exist? Answer with `Event::Exists`.
    LocationExists,
    /// Remove the file at the target location. Answer with `Event::Done`.
    RemoveLocation,
    /// Rename the temporary file to the target location. Answer with `Event::Done`.
    RenameTemp,
}

/// How the work asked for went.
#[derive(Clone, Copy, Debug, PartialEq, Eq, Structural)]
pub enum Event {
    Exists(bool),
    Done,
    Code(u32),
    Size(u64),
}

/// What a download does next: ask for work, or stop with its result.
#[derive(Debug, PartialEq, Eq)]
pub enum Step {
    Do(Action),
    Finished(Result<(), HttpCurlError>),
}

/// Where a download stands: which answer it waits for.
#[derive(Clone, Copy, Debug, PartialEq, Eq, Structural)]
pub enum Stage {
    CheckTemp,
    RemoveStaleTemp,
    CreateTemp,
    /// Waiting for the code of the option at this index of the plan.
    Option(usize),
    AllocData,
    Perform,
    ReleaseData,
    Flush,
    Size,
    RemoveEmpty,
    CheckLocation,
    RemoveLocation,
    Rename,
    /// Releasing the progress data after an option failed with this code.
    ReleaseOnError(u32),
    Finished,
}

/// The state of a download that decides what comes next.
#[derive(Clone, Copy, Debug, PartialEq, Eq, Structural)]
pub struct Machine {
    pub stage: Stage,
    /// A progress callback was registered, so progress is reported.
    pub progress: bool,
    /// A copy of the progress callback is held for libcurl.
    pub holds_data: bool,
}

/// How many options a download sets.
pub open spec fn plan_len(progress: bool) -> int {
    if progress { 11 } else { 9 }
}

/// The option that a download sets at index `i`, with its value: the URL,
/// redirects followed, the writer and its function, failure on HTTP errors,
/// progress reporting (with its data and function where a callback is
/// registered), no signals, the TLS context callback, and the user agent.
pub open spec fn plan_at(progress: bool, i: int) -> (CurlOption, OptValue) {
    let tail = if progress { i - 8 } else { i - 6 };
    if i == 0 {
        (CurlOption::Url, OptValue::Url)
    } else if i == 1 {
        (CurlOption::FollowLocation, OptValue::Long(1))
    } else if i == 2 {
        (CurlOption::WriteData, OptValue::WriteTarget)
    } else if i == 3 {
        (CurlOption::WriteFunction, OptValue::WriteCallback)
    } else if i == 4 {
        (CurlOption::FailOnError, OptValue::Long(1))
    } else if i == 5 {
        (CurlOption::NoProgress, OptValue::Long(if progress { 0 } else { 1 }))
    } else if progress && i == 6 {
        (CurlOption::ProgressData, OptValue::ProgressTarget)
    } else if progress && i == 7 {
        (CurlOption::ProgressFunction, OptValue::ProgressCallback)
    } else if tail == 0 {
        (CurlOption::NoSignal, OptValue::Long(1))
    } else if tail == 1 {
        (CurlOption::SslCtxFunction, OptValue::SslCtxCallback)
    } else {
        (CurlOption::UserAgent, OptValue::UserAgent)
    }
}

/// The step that asks for the option at index `i`.
pub open spec fn ask_option(progress: bool, i: int) -> Step {
    Step::Do(Action::SetOpt(plan_at(progress, i).0, plan_at(progress, i).1))
}

/// The states a download can be in: an option index lies in the plan, and a
/// copy of the progress callback is held exactly from its allocation until
/// its release.
pub open spec fn machine_wf(m: Machine) -> bool {
    match m.stage {
        Stage::Option(i) => i < plan_len(m.progress) && m.holds_data == (m.progress && i >= 5),
        Stage::AllocData => m.progress && !m.holds_data,
        Stage::Perform => m.holds_data == m.progress,
        Stage::ReleaseData => m.holds_data,
        Stage::ReleaseOnError(c) => m.holds_data && c != 0,
        _ => !m.holds_data,
    }
}

/// The kind of answer each stage waits for.
pub open spec fn awaits(m: Machine, e: Event) -> bool {
    match m.stage {
        Stage::CheckTemp | Stage::CheckLocation => e is Exists,
        Stage::Option(_) | Stage::Perform => e is Code,
        Stage::Size => e is Size,
        Stage::Finished => false,
        _ => e is Done,
    }
}

/// The stage with `s`, the rest of `m` kept.
pub open spec fn at(m: Machine, s: Stage) -> Machine {
    Machine { stage: s, ..m }
}

/// What a download does on answer `e` in state `m`: its next state and step.
pub open spec fn next(m: Machine, e: Event) -> (Machine, Step) {
    match m.stage {
        Stage::CheckTemp => if e == Event::Exists(true) {
            (at(m, Stage::RemoveStaleTemp), Step::Do(Action::RemoveTemp))
        } else {
            (at(m, Stage::CreateTemp), Step::Do(Action::CreateTemp))
        },
        Stage::RemoveStaleTemp => (at(m, Stage::CreateTemp), Step::Do(Action::CreateTemp)),
        Stage::CreateTemp => (at(m, Stage::Option(0)), ask_option(m.progress, 0)),
        Stage::Option(i) => {
            let c = match e { Event::Code(c) => c, _ => 0 };
            if c != 0 {
                if m.holds_data {
                    (at(m, Stage::ReleaseOnError(c)), Step::Do(Action::FreeProgressData))
                } else {
                    (at(m, Stage::Finished), Step::Finished(Err(HttpCurlError::Curl(c))))
                }
            } else if i + 1 == plan_len(m.progress) {
                (at(m, Stage::Perform), Step::Do(Action::Perform))
            } else if m.progress && i == 4 {
                (at(m, Stage::AllocData), Step::Do(Action::AllocProgressData))
            } else {
                (at(m, Stage::Option((i + 1) as usize)), ask_option(m.progress, i + 1))
            }
        },
        Stage::AllocData => (
            Machine { stage: Stage::Option(5), holds_data: true, ..m },
            ask_option(m.progress, 5),
        ),
        Stage::Perform => if m.holds_data {
            (at(m, Stage::ReleaseData), Step::Do(Action::FreeProgressData))
        } else {
            (at(m, Stage::Flush), Step::Do(Action::Flush))
        },
        Stage::ReleaseData => (
            Machine { stage: Stage::Flush, holds_data: false, ..m },
            Step::Do(Action::Flush),
        ),
        Stage::Flush => (at(m, Stage::Size), Step::Do(Action::TempSize)),
        Stage::Size => {
            let n = match e { Event::Size(n) => n, _ => 0 };
            if n < 8 {
                (at(m, Stage::RemoveEmpty), Step::Do(Action::RemoveTemp))
            } else {
                (at(m, Stage::CheckLocation), Step::Do(Action::LocationExists))
            }
        },
        Stage::RemoveEmpty => (
            at(m, Stage::Finished),
            Step::Finished(Err(HttpCurlError::EmptyDownload)),
        ),
        Stage::CheckLocation => if e == Event::Exists(true) {
            (at(m, Stage::RemoveLocation), Step::Do(Action::RemoveLocation))
        } else {
            (at(m, Stage::Rename), Step::Do(Action::RenameTemp))
        },
        Stage::RemoveLocation => (at(m, Stage::Rename), Step::Do(Action::RenameTemp)),
        Stage::Rename => (at(m, Stage::Finished), Step::Finished(Ok(()))),
        Stage::ReleaseOnError(c) => (
            Machine { stage: Stage::Finished, holds_data: false, ..m },
            Step::Finished(Err(HttpCurlError::Curl(c))),
        ),
        Stage::Finished => (m, Step::Finished(Ok(()))),
    }
}

/// A measure of the work left, which every answered step lowers.
pub open spec fn rank(m: Machine) -> int {
    match m.stage {
        Stage::CheckTemp => 70,
        Stage::RemoveStaleTemp => 69,
        Stage::CreateTemp => 68,
        Stage::Option(i) => 60 - 2 * i,
        Stage::AllocData => 51,
        Stage::Perform => 30,
        Stage::ReleaseData => 29,
        Stage::Flush => 28,
        Stage::Size => 27,
        Stage::RemoveEmpty => 26,
        Stage::CheckLocation => 25,
        Stage::RemoveLocation => 24,
        Stage::Rename => 23,
        Stage::ReleaseOnError(_) => 1,
        Stage::Finished => 0,
    }
}

/// Every answer keeps a download in a reachable state and brings it closer to
/// its end, so every download finishes: a download stops after at most 70
/// answers.
pub proof fn lemma_download_terminates(m: Machine, e: Event)
    requires
        machine_wf(m),
        awaits(m, e),
    ensures
        machine_wf(next(m, e).0),
        0 <= rank(next(m, e).0) < rank(m),
        next(m, e).0.progress == m.progress,
        next(m, e).1 is Finished <==> next(m, e).0.stage == Stage::Finished,
{
}

/// The copy of the progress callback is never leaked nor released twice: it
/// is kept only while none is held, released only while one is, and no
/// download finishes holding one.
pub proof fn lemma_progress_data_released(m: Machine, e: Event)
    requires
        machine_wf(m),
        awaits(m, e),
    ensures
        next(m, e).1 == Step::Do(Action::AllocProgressData) ==> !m.holds_data,
        next(m, e).1 == Step::Do(Action::FreeProgressData) ==> m.holds_data,
        next(m, e).1 is Finished ==> !next(m, e).0.holds_data,
        m.holds_data != next(m, e).0.holds_data ==> (m.stage == Stage::AllocData || m.holds_data
            && (m.stage is ReleaseData || m.stage is ReleaseOnError)),
{
}

/// Options are set in the order of the plan: the first option is asked once
/// the temporary file exists, each later one only after the one before it
/// succeeded, and the transfer only after the last one succeeded.
pub proof fn lemma_options_in_order(m: Machine, e: Event)
    requires
        machine_wf(m),
        awaits(m, e),
    ensures
        next(m, e).1 matches Step::Do(Action::SetOpt(o, v)) ==> {
            &&& next(m, e).0.stage matches Stage::Option(i)
            &&& (o, v) == plan_at(m.progress, i as int)
            &&& {
                ||| i == 0 && m.stage == Stage::CreateTemp
                ||| i > 0 && m.stage == Stage::Option((i - 1) as usize) && e == Event::Code(0)
                ||| i == 5 && m.stage == Stage::AllocData
            }
        },
        next(m, e).1 == Step::Do(Action::Perform) ==> m.stage == Stage::Option(
            (plan_len(m.progress) - 1) as usize,
        ) && e == Event::Code(0),
{
}

/// An option that fails ends the download with its code: at once, or right
/// after the copy of the progress callback is released.
pub proof fn lemma_option_failure_ends(m: Machine, c: u32)
    requires
        machine_wf(m),
        m.stage is Option,
        c != 0,
    ensures
        next(m, Event::Code(c)).1 == Step::Finished(Err(HttpCurlError::Curl(c))) || (next(
            m,
            Event::Code(c),
        ).1 == Step::Do(Action::FreeProgressData) && next(next(m, Event::Code(c)).0, Event::Done).1
            == Step::Finished(Err(HttpCurlError::Curl(c)))),
{
}

/// The code the transfer returns changes nothing: the download goes on to
/// check the file whatever it is.
pub proof fn lemma_transfer_code_ignored(m: Machine, a: u32, b: u32)
    requires
        machine_wf(m),
        m.stage == Stage::Perform,
    ensures
        next(m, Event::Code(a)) == next(m, Event::Code(b)),
{
}

/// A file of fewer than 8 bytes is removed and the download fails; a larger
/// one goes on to replace the target location.
pub proof fn lemma_small_file_fails(m: Machine, n: u64)
    requires
        machine_wf(m),
        m.stage == Stage::Size,
    ensures
        n < 8 ==> next(m, Event::Size(n)).1 == Step::Do(Action::RemoveTemp) && next(
            next(m, Event::Size(n)).0,
            Event::Done,
        ).1 == Step::Finished(Err(HttpCurlError::EmptyDownload)),
        n >= 8 ==> next(m, Event::Size(n)).1 == Step::Do(Action::LocationExists),
{
}

/// A download succeeds only as the answer to the rename of the temporary file
/// onto the target location, which comes only after a file of at least 8
/// bytes was found and any file at the location removed.
pub proof fn lemma_success_only_by_rename(m: Machine, e: Event)
    requires
        machine_wf(m),
        awaits(m, e),
    ensures
        next(m, e).1 == Step::Finished(Ok(())) ==> m.stage == Stage::Rename,
        next(m, e).1 == Step::Do(Action::RenameTemp) ==> (m.stage == Stage::RemoveLocation || (
        m.stage == Stage::CheckLocation && e == Event::Exists(false))),
        next(m, e).1 == Step::Do(Action::LocationExists) ==> (m.stage == Stage::Size && (e matches Event::Size(n) && n >= 8)),
{
}

/// Once the transfer left a file of at least 8 bytes, the download always
/// succeeds, whether or not progress is reported: it asks whether the target
/// exists; if it does, it removes it and renames the temporary file onto it,
/// and if not, it renames at once; then it finishes with `Ok(())`.
pub proof fn lemma_large_file_replaces_target(m: Machine, n: u64, exists: bool)
    requires
        machine_wf(m),
        m.stage == Stage::Size,
        n >= 8,
    ensures
        ({
            let (m1, s1) = next(m, Event::Size(n));
            let (m2, s2) = next(m1, Event::Exists(exists));
            &&& s1 == Step::Do(Action::LocationExists)
            &&& exists ==> {
                let (m3, s3) = next(m2, Event::Done);
                &&& s2 == Step::Do(Action::RemoveLocation)
                &&& s3 == Step::Do(Action::RenameTemp)
                &&& next(m3, Event::Done).1 == Step::Finished(Ok(()))
            }
            &&& !exists ==> {
                &&& s2 == Step::Do(Action::RenameTemp)
                &&& next(m2, Event::Done).1 == Step::Finished(Ok(()))
            }
        }),
{
}

/// Returns the option of the plan at index `i`, with its value.
fn plan_entry(progress: bool, i: usize) -> (r: (CurlOption, OptValue))
    requires
        i < plan_len(progress),
    ensures
        r == plan_at(progress, i as int),
{
    if i == 0 {
        (CurlOption::Url, OptValue::Url)
    } else if i == 1 {
        (CurlOption::FollowLocation, OptValue::Long(1))
    } else if i == 2 {
        (CurlOption::WriteData, OptValue::WriteTarget)
    } else if i == 3 {
        (CurlOption::WriteFunction, OptValue::WriteCallback)
    } else if i == 4 {
        (CurlOption::FailOnError, OptValue::Long(1))
    } else if i == 5 {
        (CurlOption::NoProgress, OptValue::Long(if progress { 0 } else { 1 }))
    } else if progress && i == 6 {
        (CurlOption::ProgressData, OptValue::ProgressTarget)
    } else if progress && i == 7 {
        (CurlOption::ProgressFunction, OptValue::ProgressCallback)
    } else {
        let tail = if progress { i - 8 } else { i - 6 };
        if tail == 0 {
            (CurlOption::NoSignal, OptValue::Long(1))
        } else if tail == 1 {
            (CurlOption::SslCtxFunction, OptValue::SslCtxCallback)
        } else {
            (CurlOption::UserAgent, OptValue::UserAgent)
        }
    }
}

/// The step that asks for the option at index `i`.
fn ask(progress: bool, i: usize) -> (r: Step)
    requires
        i < plan_len(progress),
    ensures
        r == ask_option(progress, i as int),
{
    let (o, v) = plan_entry(progress, i);
    Step::Do(Action::SetOpt(o, v))
}

/// How many bytes the write callback takes from libcurl for `count` items of
/// `size` bytes each, all of which it reports as written.
pub fn write_size(size: usize, count: usize) -> (r: usize)
    requires
        size * count <= usize::MAX,
    ensures
        r == size * count,
{
    size * count
}

/// One download in progress.
pub struct Download {
    handle: u64,
    callback: Option<ProgressCallback>,
    c_url: String,
    location: String,
    temp: String,
    machine: Machine,
}

impl Download {
    /// The state that decides the next step.
    pub closed spec fn machine(&self) -> Machine {
        self.machine
    }

    /// The easy handle the download configures.
    pub closed spec fn spec_handle(&self) -> u64 {
        self.handle
    }

    /// The progress callback registered for the download, if any.
    pub closed spec fn spec_callback(&self) -> Option<ProgressCallback> {
        self.callback
    }

    /// The NUL-terminated URL.
    pub closed spec fn spec_c_url(&self) -> Seq<char> {
        self.c_url@
    }

    /// Where the file ends up.
    pub closed spec fn spec_location(&self) -> Seq<char> {
        self.location@
    }

    /// Where the file is written first.
    pub closed spec fn spec_temp(&self) -> Seq<char> {
        self.temp@
    }

    /// The download's state is one it can reach, and it reports progress
    /// exactly when it has a callback.
    pub closed spec fn wf(&self) -> bool {
        &&& machine_wf(self.machine)
        &&& self.machine.progress == self.callback is Some
    }

    /// Begins a download of `url` into `location` on the easy handle `handle`,
    /// reporting progress to `callback` where there is one; the first step asks
    /// whether the temporary file `<location>.dl` is left over.
    pub fn new(handle: u64, callback: Option<ProgressCallback>, url: &str, location: &str) -> (r: (
        Download,
        Step,
    ))
        ensures
            r.0.wf(),
            r.0.machine() == (Machine {
                stage: Stage::CheckTemp,
                progress: callback is Some,
                holds_data: false,
            }),
            r.0.spec_handle() == handle,
            r.0.spec_callback() == callback,
            r.0.spec_c_url() == url@.push('\0'),
            r.0.spec_location() == location@,
            r.0.spec_temp() == location@ + ".dl"@,
            r.1 == Step::Do(Action::TempExists),
    {
        let progress = callback.is_some();
        let d = Download {
            handle,
            callback,
            c_url: c_string(url),
            location: String::from_str(location),
            temp: temp_path(location),
            machine: Machine { stage: Stage::CheckTemp, progress, holds_data: false },
        };
        (d, Step::Do(Action::TempExists))
    }

    /// The easy handle to configure and run.
    pub fn handle(&self) -> (r: u64)
        ensures
            r == self.spec_handle(),
    {
        self.handle
    }

    /// The progress callback whose copy `Action::AllocProgressData` keeps.
    pub fn callback(&self) -> (r: Option<ProgressCallback>)
        ensures
            r == self.spec_callback(),
    {
        self.callback
    }

    /// The NUL-terminated URL that `OptValue::Url` stands for.
    pub fn c_url(&self) -> (r: &String)
        ensures
            r@ == self.spec_c_url(),
    {
        &self.c_url
    }

    /// The location the file ends up at.
    pub fn location(&self) -> (r: &String)
        ensures
            r@ == self.spec_location(),
    {
        &self.location
    }

    /// The temporary file the transfer writes.
    pub fn temp(&self) -> (r: &String)
        ensures
            r@ == self.spec_temp(),
    {
        &self.temp
    }

    /// The text that a value stands for, where it is one: the NUL-terminated
    /// URL for `OptValue::Url`, and the NUL-terminated user agent `smashnet`
    /// for `OptValue::UserAgent`.
    pub fn text_value(&self, v: OptValue) -> (r: Option<&str>)
        ensures
            v == OptValue::Url ==> (r matches Some(s) && s@ == self.spec_c_url()),
            v == OptValue::UserAgent ==> (r matches Some(s) && s@ == user_agent()),
            v != OptValue::Url && v != OptValue::UserAgent ==> r is None,
    {
        match v {
            OptValue::Url => Some(self.c_url.as_str()),
            OptValue::UserAgent => Some("smashnet\0"),
            _ => None,
        }
    }

    /// Whether the download waits for an answer of the kind of `e`.
    pub fn accepts(&self, e: &Event) -> (r: bool)
        ensures
            r == awaits(self.machine(), *e),
    {
        match self.machine.stage {
            Stage::CheckTemp | Stage::CheckLocation => matches!(e, Event::Exists(_)),
            Stage::Option(_) | Stage::Perform => matches!(e, Event::Code(_)),
            Stage::Size => matches!(e, Event::Size(_)),
            Stage::Finished => false,
            _ => matches!(e, Event::Done),
        }
    }

    /// Takes the answer to the last step asked and returns the next step.
    pub fn step(&mut self, e: Event) -> (r: Step)
        requires
            old(self).wf(),
            awaits(old(self).machine(), e),
        ensures
            final(self).wf(),
            (final(self).machine(), r) == next(old(self).machine(), e),
            final(self).spec_handle() == old(self).spec_handle(),
            final(self).spec_callback() == old(self).spec_callback(),
            final(self).spec_c_url() == old(self).spec_c_url(),
            final(self).spec_location() == old(self).spec_location(),
            final(self).spec_temp() == old(self).spec_temp(),
    {
        let m = self.machine;
        let progress = m.progress;
        match m.stage {
            Stage::CheckTemp => {
                if e == Event::Exists(true) {
                    self.machine = Machine { stage: Stage::RemoveStaleTemp, ..m };
                    Step::Do(Action::RemoveTemp)
                } else {
                    self.machine = Machine { stage: Stage::CreateTemp, ..m };
                    Step::Do(Action::CreateTemp)
                }
            },
            Stage::RemoveStaleTemp => {
                self.machine = Machine { stage: Stage::CreateTemp, ..m };
                Step::Do(Action::CreateTemp)
            },
            Stage::CreateTemp => {
                self.machine = Machine { stage: Stage::Option(0), ..m };
                ask(progress, 0)
            },
            Stage::Option(i) => {
                let c = match e {
                    Event::Code(c) => c,
                    _ => 0,
                };
                match curle(c) {
                    Err(c) => {
                        if m.holds_data {
                            self.machine = Machine { stage: Stage::ReleaseOnError(c), ..m };
                            Step::Do(Action::FreeProgressData)
                        } else {
                            self.machine = Machine { stage: Stage::Finished, ..m };
                            Step::Finished(Err(HttpCurlError::Curl(c)))
                        }
                    },
                    Ok(()) => {
                        let len: usize = if progress { 11 } else { 9 };
                        if i + 1 == len {
                            self.machine = Machine { stage: Stage::Perform, ..m };
                            Step::Do(Action::Perform)
                        } else if progress && i == 4 {
                            self.machine = Machine { stage: Stage::AllocData, ..m };
                            Step::Do(Action::AllocProgressData)
                        } else {
                            self.machine = Machine { stage: Stage::Option(i + 1), ..m };
                            ask(progress, i + 1)
                        }
                    },
                }
            },
            Stage::AllocData => {
                self.machine = Machine { stage: Stage::Option(5), holds_data: true, ..m };
                ask(progress, 5)
            },
            Stage::Perform => {
                if m.holds_data {
                    self.machine = Machine { stage: Stage::ReleaseData, ..m };
                    Step::Do(Action::FreeProgressData)
                } else {
                    self.machine = Machine { stage: Stage::Flush, ..m };
                    Step::Do(Action::Flush)
                }
            },
            Stage::ReleaseData => {
                self.machine = Machine { stage: Stage::Flush, holds_data: false, ..m };
                Step::Do(Action::Flush)
            },
            Stage::Flush => {
                self.machine = Machine { stage: Stage::Size, ..m };
                Step::Do(Action::TempSize)
            },
            Stage::Size => {
                let n = match e {
                    Event::Size(n) => n,
                    _ => 0,
                };
                if n < 8 {
                    self.machine = Machine { stage: Stage::RemoveEmpty, ..m };
                    Step::Do(Action::RemoveTemp)
                } else {
                    self.machine = Machine { stage: Stage::CheckLocation, ..m };
                    Step::Do(Action::LocationExists)
                }
            },
            Stage::RemoveEmpty => {
                self.machine = Machine { stage: Stage::Finished, ..m };
                Step::Finished(Err(HttpCurlError::EmptyDownload))
            },
            Stage::CheckLocation => {
                if e == Event::Exists(true) {
                    self.machine = Machine { stage: Stage::RemoveLocation, ..m };
                    Step::Do(Action::RemoveLocation)
                } else {
                    self.machine = Machine { stage: Stage::Rename, ..m };
                    Step::Do(Action::RenameTemp)
                }
            },
            Stage::RemoveLocation => {
                self.machine = Machine { stage: Stage::Rename, ..m };
                Step::Do(Action::RenameTemp)
            },
            Stage::Rename => {
                self.machine = Machine { stage: Stage::Finished, ..m };
                Step::Finished(Ok(()))
            },
            Stage::ReleaseOnError(c) => {
                self.machine = Machine { stage: Stage::Finished, holds_data: false, ..m };
                Step::Finished(Err(HttpCurlError::Curl(c)))
            },
            Stage::Finished => Step::Finished(Ok(())),
        }
    }
}

} // verus!
