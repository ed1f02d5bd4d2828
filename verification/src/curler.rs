//! The curl handle owner and the operations it offers.
use vstd::prelude::*;
use vstd::string::*;
use crate::curl::HttpCurlError;
use crate::download::{Action, Download, Event, Machine, Stage, Step, awaits, machine_wf, next};
use crate::text::{decimal, decimal_string};

verus! {

/// A progress callback registered by a user of the C interface: the address
/// of the function and the address of the data handed to it.
#[derive(Clone, Copy, Debug, PartialEq, Eq, Structural)]
pub struct ProgressCallback {
    pub callback: u64,
    pub data: u64,
}


/// What dropping a curler releases: the easy handle to clean up, and the data
/// of its progress callback.
#[derive(Clone, Copy, Debug, PartialEq, Eq, Structural)]
pub struct Teardown {
    pub cleanup_handle: Option<u64>,
    pub release_data: Option<u64>,
}

/// The owner of one libcurl easy handle, and of the progress callback that
/// downloads on it report to.
pub struct Curler {
    progress_callback: Option<ProgressCallback>,
    pub curl: u64,
}

impl Curler {
    /// The easy handle.
    pub closed spec fn spec_curl(&self) -> u64 {
        self.curl
    }

    /// The progress callback registered, if any.
    pub closed spec fn spec_progress_callback(&self) -> Option<ProgressCallback> {
        self.progress_callback
    }

    /// Wraps the easy handle that libcurl gave; an absent (null) handle is an
    /// error.
    pub fn new(handle: u64) -> (r: Result<Curler, HttpCurlError>)
        ensures
            handle != 0 <==> r is Ok,
            r matches Ok(c) ==> c.spec_curl() == handle && c.spec_progress_callback() is None,
            r matches Err(e) ==> e == HttpCurlError::NoHandle,
    {
        if handle != 0 {
            Ok(Curler { progress_callback: None, curl: handle })
        } else {
            Err(HttpCurlError::NoHandle)
        }
    }

    /// Registers the callback that later downloads report progress to,
    /// replacing any registered before.
    pub fn progress_callback(&mut self, callback: ProgressCallback) -> (r: &mut Self)
        ensures
            r.spec_curl() == old(self).spec_curl(),
            r.spec_progress_callback() == Some(callback),
            *final(self) == *final(r),
    {
        self.progress_callback = Some(callback);
        self
    }

    /// The progress callback registered, if any.
    pub fn registered_callback(&self) -> (r: Option<ProgressCallback>)
        ensures
            r == self.spec_progress_callback(),
    {
        self.progress_callback
    }

    /// Begins a download of `url` into `location` on this curler's handle,
    /// reporting progress to its callback where one is registered.
    pub fn download(&self, url: &str, location: &str) -> (r: (Download, Step))
        ensures
            r.0.wf(),
            r.0.machine() == (Machine {
                stage: Stage::CheckTemp,
                progress: self.spec_progress_callback() is Some,
                holds_data: false,
            }),
            r.0.spec_handle() == self.spec_curl(),
            r.0.spec_callback() == self.spec_progress_callback(),
            r.0.spec_c_url() == url@.push('\0'),
            r.0.spec_location() == location@,
            r.0.spec_temp() == location@ + ".dl"@,
            r.1 == Step::Do(Action::TempExists),
    {
        Download::new(self.curl, self.progress_callback, url, location)
    }

    /// What dropping this curler releases: its handle where it is not null,
    /// and the data of its progress callback where one is registered.
    pub fn teardown(&self) -> (r: Teardown)
        ensures
            r.cleanup_handle == (if self.spec_curl() != 0 { Some(self.spec_curl()) } else { None::<u64> }),
            r.release_data == (match self.spec_progress_callback() {
                Some(cb) => Some(cb.data),
                None => None::<u64>,
            }),
    {
        let cleanup_handle = if self.curl != 0 { Some(self.curl) } else { None };
        let release_data = match self.progress_callback {
            Some(cb) => Some(cb.data),
            None => None,
        };
        Teardown { cleanup_handle, release_data }
    }

    /// Begins a GET of the text at `url`: it is downloaded to
    /// `sd:/downloads/<tick>.txt`, read, and the file removed.
    pub fn get(&self, url: &str, tick: u64) -> (r: (TextGet, GetStep))
        ensures
            r.0.wf(),
            r.0.stage() == GetStage::Downloading,
            r.0.download().machine() == (Machine {
                stage: Stage::CheckTemp,
                progress: self.spec_progress_callback() is Some,
                holds_data: false,
            }),
            r.0.download().spec_handle() == self.spec_curl(),
            r.0.download().spec_callback() == self.spec_progress_callback(),
            r.0.download().spec_c_url() == url@.push('\0'),
            r.0.download().spec_location() == text_location(tick as nat),
            r.0.download().spec_temp() == text_location(tick as nat) + ".dl"@,
            r.1 == GetStep::Do(GetAction::Download(Action::TempExists)),
    {
        let location = text_location_string(tick);
        let (download, _) = self.download(url, location.as_str());
        (TextGet { download, stage: GetStage::Downloading, text: String::new() }, GetStep::Do(GetAction::Download(Action::TempExists)))
    }
}

/// Where the text of a GET is downloaded to: `sd:/downloads/<tick>.txt`.
pub open spec fn text_location(tick: nat) -> Seq<char> {
    "sd:/downloads/"@ + decimal(tick) + ".txt"@
}

/// Renders `sd:/downloads/<tick>.txt`.
pub fn text_location_string(tick: u64) -> (r: String)
    ensures
        r@ == text_location(tick as nat),
{
    String::from_str("sd:/downloads/").concat(decimal_string(tick).as_str()).concat(".txt")
}

/// Work that a GET asks of its caller.
#[derive(Clone, Copy, Debug, PartialEq, Eq, Structural)]
pub enum GetAction {
    /// Work for the download of the text; answer with `GetEvent::Download`.
    Download(Action),
    /// Read the downloaded file as text; answer with `GetEvent::Text`.
    ReadText,
    /// Remove the downloaded file; answer with `GetEvent::Done`.
    RemoveText,
}

/// How the work a GET asked for went.
#[derive(Debug, PartialEq, Eq)]
pub enum GetEvent {
    Download(Event),
    /// The text read, or why it could not be read.
    Text(Result<String, String>),
    Done,
}

/// What a GET does next: ask for work, or stop with the text or the error.
#[derive(Debug, PartialEq, Eq)]
pub enum GetStep {
    Do(GetAction),
    Finished(Result<String, HttpCurlError>),
}

/// Where a GET stands.
#[derive(Clone, Copy, Debug, PartialEq, Eq, Structural)]
pub enum GetStage {
    Downloading,
    Reading,
    Removing,
    Finished,
}

/// One GET in progress.
pub struct TextGet {
    download: Download,
    stage: GetStage,
    text: String,
}

/// The kind of answer a GET in `stage`, whose download is in `m`, waits for.
pub open spec fn get_awaits(stage: GetStage, m: Machine, e: GetEvent) -> bool {
    match stage {
        GetStage::Downloading => (e matches GetEvent::Download(d) && awaits(m, d)),
        GetStage::Reading => e is Text,
        GetStage::Removing => e is Done,
        GetStage::Finished => false,
    }
}

impl TextGet {
    /// Where the GET stands.
    pub closed spec fn stage(&self) -> GetStage {
        self.stage
    }

    /// The download of the text.
    pub closed spec fn download(&self) -> Download {
        self.download
    }

    /// The text read, once it has been.
    pub closed spec fn spec_text(&self) -> Seq<char> {
        self.text@
    }

    /// The download is in a reachable state, and it has finished once the
    /// text is being read.
    pub closed spec fn wf(&self) -> bool {
        &&& self.download.wf()
        &&& self.stage == GetStage::Downloading <==> self.download.machine().stage
            != Stage::Finished
    }

    /// The download the GET runs.
    pub fn current_download(&self) -> (r: &Download)
        ensures
            *r == self.download(),
    {
        &self.download
    }

    /// Whether the GET waits for an answer of the kind of `e`.
    pub fn accepts(&self, e: &GetEvent) -> (r: bool)
        requires
            self.wf(),
        ensures
            r == get_awaits(self.stage(), self.download().machine(), *e),
    {
        match self.stage {
            GetStage::Downloading => match e {
                GetEvent::Download(d) => self.download.accepts(d),
                _ => false,
            },
            GetStage::Reading => matches!(e, GetEvent::Text(_)),
            GetStage::Removing => matches!(e, GetEvent::Done),
            GetStage::Finished => false,
        }
    }

    /// Takes the answer to the last step asked and returns the next step: the
    /// download's steps while it runs; its error, if it fails; then the
    /// reading of the file, whose failure ends the GET with `Read`; then the
    /// removal of the file, after which the GET ends with the text.
    pub fn step(&mut self, e: GetEvent) -> (r: GetStep)
        requires
            old(self).wf(),
            get_awaits(old(self).stage(), old(self).download().machine(), e),
        ensures
            final(self).wf(),
            final(self).download().spec_handle() == old(self).download().spec_handle(),
            final(self).download().spec_callback() == old(self).download().spec_callback(),
            final(self).download().spec_c_url() == old(self).download().spec_c_url(),
            final(self).download().spec_location() == old(self).download().spec_location(),
            final(self).download().spec_temp() == old(self).download().spec_temp(),
            old(self).stage() == GetStage::Downloading ==> (e matches GetEvent::Download(d) && {
                let (m, s) = next(old(self).download().machine(), d);
                &&& final(self).download().machine() == m
                &&& s matches Step::Do(a) ==> final(self).stage() == GetStage::Downloading && r
                    == GetStep::Do(GetAction::Download(a))
                &&& s == Step::Finished(Ok(())) ==> final(self).stage() == GetStage::Reading
                    && r == GetStep::Do(GetAction::ReadText)
                &&& s matches Step::Finished(Err(x)) ==> final(self).stage() == GetStage::Finished
                    && r == GetStep::Finished(Err(x))
            }),
            old(self).stage() == GetStage::Reading ==> match e {
                GetEvent::Text(Ok(t)) => final(self).stage() == GetStage::Removing
                    && final(self).spec_text() == t@ && r == GetStep::Do(GetAction::RemoveText),
                GetEvent::Text(Err(msg)) => final(self).stage() == GetStage::Finished
                    && r == GetStep::Finished(Err(HttpCurlError::Read(msg))),
                _ => false,
            },
            old(self).stage() == GetStage::Removing ==> final(self).stage() == GetStage::Finished
                && (r matches GetStep::Finished(Ok(t)) && t@ == old(self).spec_text()),
            old(self).stage() != GetStage::Downloading ==> final(self).download()
                == old(self).download(),
    {
        match self.stage {
            GetStage::Downloading => {
                let d = match e {
                    GetEvent::Download(d) => d,
                    _ => Event::Done,
                };
                match self.download.step(d) {
                    Step::Do(a) => GetStep::Do(GetAction::Download(a)),
                    Step::Finished(Ok(())) => {
                        self.stage = GetStage::Reading;
                        GetStep::Do(GetAction::ReadText)
                    },
                    Step::Finished(Err(x)) => {
                        self.stage = GetStage::Finished;
                        GetStep::Finished(Err(x))
                    },
                }
            },
            GetStage::Reading => match e {
                GetEvent::Text(Ok(t)) => {
                    self.text = t;
                    self.stage = GetStage::Removing;
                    GetStep::Do(GetAction::RemoveText)
                },
                GetEvent::Text(Err(msg)) => {
                    self.stage = GetStage::Finished;
                    GetStep::Finished(Err(HttpCurlError::Read(msg)))
                },
                _ => GetStep::Finished(Err(HttpCurlError::EmptyDownload)),
            },
            GetStage::Removing => {
                self.stage = GetStage::Finished;
                let t = self.text.clone();
                GetStep::Finished(Ok(t))
            },
            GetStage::Finished => GetStep::Finished(Err(HttpCurlError::EmptyDownload)),
        }
    }
}

} // verus!
