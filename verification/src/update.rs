//! The plugin's check for a newer build of itself: the MD5 of the installed
//! file is compared with the checksum published beside the nightly release,
//! and the user is asked before the new build is downloaded over it.
use vstd::prelude::*;
use crate::curl::HttpCurlError;
use crate::text::{first_word, hex_char_code, hex_lower, hex_lower_string, is_first_word};

verus! {

/// The MD5 digest of `data`, as the `md5` crate computes it.
pub uninterp spec fn md5_digest(data: Seq<u8>) -> Seq<u8>;

/// `md5::compute`: the 16 bytes of the MD5 digest of `data`. The digest is
/// named, not stated; that it has 16 bytes is the type of `md5::Digest`.
#[verifier::external_body]
fn md5_compute(data: &[u8]) -> (r: Vec<u8>)
    ensures
        r@ == md5_digest(data@),
        r@.len() == 16,
{
    md5::compute(data).0.to_vec()
}

/// The hexadecimal rendering has two digits per byte.
pub proof fn lemma_hex_lower_len(bytes: Seq<u8>)
    ensures
        hex_lower(bytes).len() == 2 * bytes.len(),
    decreases bytes.len(),
{
    if bytes.len() > 0 {
        lemma_hex_lower_len(bytes.drop_last());
    }
}

/// The MD5 digest of `data` in lower-case hexadecimal, as `format!("{:x}",
/// md5::compute(data))` renders it: 32 digits.
pub fn md5_hex(data: &[u8]) -> (r: String)
    ensures
        r@ == hex_lower(md5_digest(data@)),
        r@.len() == 32,
        md5_digest(data@).len() == 16,
        forall|k: int|
            0 <= k < 16 ==> #[trigger] r@[2 * k] as int == hex_char_code(
                (md5_digest(data@)[k] / 16) as int,
            ) && r@[2 * k + 1] as int == hex_char_code((md5_digest(data@)[k] % 16) as int),
{
    let digest = md5_compute(data);
    proof { lemma_hex_lower_len(digest@); }
    hex_lower_string(digest.as_slice())
}

/// Where the text segment of the process starts when it runs on an emulator.
pub open spec fn emulator_text_address() -> u64 {
    0x8004000
}

/// Whether a process whose text segment starts at `text_address` runs on an
/// emulator.
pub fn is_emulator(text_address: u64) -> (r: bool)
    ensures
        r == (text_address == emulator_text_address()),
{
    text_address == 0x8004000
}

/// The URL of the checksum of the latest nightly build.
pub fn checksum_url() -> (r: &'static str)
    ensures
        r@ == "https://github.com/techyCoder81/smashnet-nro/releases/download/nightly/checksum.txt"@,
{
    "https://github.com/techyCoder81/smashnet-nro/releases/download/nightly/checksum.txt"
}

/// Where the checksum is downloaded to.
pub fn checksum_path() -> (r: &'static str)
    ensures
        r@ == "sd:/downloads/checksum.txt"@,
{
    "sd:/downloads/checksum.txt"
}

/// The URL of the latest nightly build of the plugin.
pub fn plugin_url() -> (r: &'static str)
    ensures
        r@ == "https://github.com/techyCoder81/smashnet-nro/releases/download/nightly/libsmashnet.nro"@,
{
    "https://github.com/techyCoder81/smashnet-nro/releases/download/nightly/libsmashnet.nro"
}

/// Where the plugin is installed.
pub fn plugin_path() -> (r: &'static str)
    ensures
        r@ == "sd:/atmosphere/contents/01006A800016E000/romfs/skyline/plugins/libsmashnet.nro"@,
{
    "sd:/atmosphere/contents/01006A800016E000/romfs/skyline/plugins/libsmashnet.nro"
}

/// The question put to the user when a newer build is published.
pub fn update_question() -> (r: &'static str)
    ensures
        r@ == "An update is available for smashnet.nro! Would you like to update?"@,
{
    "An update is available for smashnet.nro! Would you like to update?"
}

/// Work that the update check asks of its caller.
#[derive(Clone, Copy, Debug, PartialEq, Eq, Structural)]
pub enum UpdateAction {
    /// Download `checksum_url()` to `checksum_path()`; answer with `UpdateEvent::Downloaded`.
    DownloadChecksum,
    /// Read `checksum_path()` as text; answer with `UpdateEvent::Text`.
    ReadChecksum,
    /// Read the bytes of `plugin_path()`; answer with `UpdateEvent::Bytes`.
    ReadInstalled,
    /// Ask the user `update_question()`; answer with `UpdateEvent::Answer`.
    AskUser,
    /// Download `plugin_url()` to `plugin_path()`; answer with `UpdateEvent::Downloaded`.
    DownloadPlugin,
}

/// How the work the update check asked for went.
#[derive(Debug, PartialEq, Eq)]
pub enum UpdateEvent {
    Downloaded(Result<(), HttpCurlError>),
    Text(Result<String, String>),
    Bytes(Result<Vec<u8>, String>),
    Answer(bool),
}

/// How an update check ended.
#[derive(Debug, PartialEq, Eq)]
pub enum UpdateOutcome {
    /// The plugin runs on an emulator, where nothing is checked.
    OnEmulator,
    /// The checksum could not be downloaded.
    ChecksumFailed(HttpCurlError),
    /// The downloaded checksum could not be read; the message says why.
    ChecksumUnreadable(String),
    /// The installed plugin could not be read; the message says why.
    InstalledUnreadable(String),
    /// The installed plugin is the latest build.
    UpToDate,
    /// A newer build exists and the user declined it.
    Declined,
    /// A newer build exists and its download was run.
    Updated,
}

/// What the update check does next.
#[derive(Debug, PartialEq, Eq)]
pub enum UpdateStep {
    Do(UpdateAction),
    Finished(UpdateOutcome),
}

/// Where an update check stands.
#[derive(Clone, Copy, Debug, PartialEq, Eq, Structural)]
pub enum UpdateStage {
    FetchChecksum,
    ReadChecksum,
    ReadInstalled,
    Ask,
    Update,
    Finished,
}

/// The kind of answer each stage waits for.
pub open spec fn update_awaits(stage: UpdateStage, e: UpdateEvent) -> bool {
    match stage {
        UpdateStage::FetchChecksum | UpdateStage::Update => e is Downloaded,
        UpdateStage::ReadChecksum => e is Text,
        UpdateStage::ReadInstalled => e is Bytes,
        UpdateStage::Ask => e is Answer,
        UpdateStage::Finished => false,
    }
}

/// One update check in progress.
pub struct UpdateCheck {
    stage: UpdateStage,
    latest: String,
    current: String,
}

impl UpdateCheck {
    /// Where the check stands.
    pub closed spec fn stage(&self) -> UpdateStage {
        self.stage
    }

    /// The published hash, once the checksum has been read.
    pub closed spec fn latest(&self) -> Seq<char> {
        self.latest@
    }

    /// The hash of the installed plugin, once it has been read.
    pub closed spec fn current(&self) -> Seq<char> {
        self.current@
    }

    /// Begins the check in a process whose text segment starts at
    /// `text_address`: on an emulator it ends at once, otherwise it first
    /// downloads the checksum.
    pub fn start(text_address: u64) -> (r: (UpdateCheck, UpdateStep))
        ensures
            text_address == emulator_text_address() ==> r.0.stage() == UpdateStage::Finished
                && r.1 == UpdateStep::Finished(UpdateOutcome::OnEmulator),
            text_address != emulator_text_address() ==> r.0.stage() == UpdateStage::FetchChecksum
                && r.1 == UpdateStep::Do(UpdateAction::DownloadChecksum),
    {
        if is_emulator(text_address) {
            (
                UpdateCheck { stage: UpdateStage::Finished, latest: String::new(), current: String::new() },
                UpdateStep::Finished(UpdateOutcome::OnEmulator),
            )
        } else {
            (
                UpdateCheck {
                    stage: UpdateStage::FetchChecksum,
                    latest: String::new(),
                    current: String::new(),
                },
                UpdateStep::Do(UpdateAction::DownloadChecksum),
            )
        }
    }

    /// Whether the check waits for an answer of the kind of `e`.
    pub fn accepts(&self, e: &UpdateEvent) -> (r: bool)
        ensures
            r == update_awaits(self.stage(), *e),
    {
        match self.stage {
            UpdateStage::FetchChecksum | UpdateStage::Update => matches!(e, UpdateEvent::Downloaded(_)),
            UpdateStage::ReadChecksum => matches!(e, UpdateEvent::Text(_)),
            UpdateStage::ReadInstalled => matches!(e, UpdateEvent::Bytes(_)),
            UpdateStage::Ask => matches!(e, UpdateEvent::Answer(_)),
            UpdateStage::Finished => false,
        }
    }

    /// Takes the answer to the last step asked and returns the next step.
    /// The published hash is the checksum file up to its first space; the user
    /// is asked exactly when it differs from the MD5 of the installed plugin,
    /// and the new build is downloaded exactly when the user agrees. Whatever
    /// that download returns, the check ends with `Updated`.
    pub fn step(&mut self, e: UpdateEvent) -> (r: UpdateStep)
        requires
            update_awaits(old(self).stage(), e),
        ensures
            old(self).stage() == UpdateStage::FetchChecksum ==> match e {
                UpdateEvent::Downloaded(Ok(())) => final(self).stage() == UpdateStage::ReadChecksum
                    && r == UpdateStep::Do(UpdateAction::ReadChecksum),
                UpdateEvent::Downloaded(Err(x)) => final(self).stage() == UpdateStage::Finished
                    && r == UpdateStep::Finished(UpdateOutcome::ChecksumFailed(x)),
                _ => false,
            },
            old(self).stage() == UpdateStage::ReadChecksum ==> match e {
                UpdateEvent::Text(Ok(t)) => final(self).stage() == UpdateStage::ReadInstalled
                    && is_first_word(t@, final(self).latest())
                    && r == UpdateStep::Do(UpdateAction::ReadInstalled),
                UpdateEvent::Text(Err(msg)) => final(self).stage() == UpdateStage::Finished
                    && r == UpdateStep::Finished(UpdateOutcome::ChecksumUnreadable(msg)),
                _ => false,
            },
            old(self).stage() == UpdateStage::ReadInstalled ==> match e {
                UpdateEvent::Bytes(Ok(data)) => {
                    &&& final(self).current() == hex_lower(md5_digest(data@))
                    &&& final(self).latest() == old(self).latest()
                    &&& final(self).current() != final(self).latest() ==> final(self).stage()
                        == UpdateStage::Ask && r == UpdateStep::Do(UpdateAction::AskUser)
                    &&& final(self).current() == final(self).latest() ==> final(self).stage()
                        == UpdateStage::Finished && r == UpdateStep::Finished(
                        UpdateOutcome::UpToDate,
                    )
                },
                UpdateEvent::Bytes(Err(msg)) => final(self).stage() == UpdateStage::Finished
                    && r == UpdateStep::Finished(UpdateOutcome::InstalledUnreadable(msg)),
                _ => false,
            },
            old(self).stage() == UpdateStage::Ask ==> match e {
                UpdateEvent::Answer(true) => final(self).stage() == UpdateStage::Update && r
                    == UpdateStep::Do(UpdateAction::DownloadPlugin),
                UpdateEvent::Answer(false) => final(self).stage() == UpdateStage::Finished && r
                    == UpdateStep::Finished(UpdateOutcome::Declined),
                _ => false,
            },
            old(self).stage() == UpdateStage::Update ==> final(self).stage() == UpdateStage::Finished
                && r == UpdateStep::Finished(UpdateOutcome::Updated),
    {
        match e {
            UpdateEvent::Downloaded(res) => {
                if self.stage == UpdateStage::Update {
                    self.stage = UpdateStage::Finished;
                    UpdateStep::Finished(UpdateOutcome::Updated)
                } else {
                    match res {
                        Ok(()) => {
                            self.stage = UpdateStage::ReadChecksum;
                            UpdateStep::Do(UpdateAction::ReadChecksum)
                        },
                        Err(x) => {
                            self.stage = UpdateStage::Finished;
                            UpdateStep::Finished(UpdateOutcome::ChecksumFailed(x))
                        },
                    }
                }
            },
            UpdateEvent::Text(Ok(t)) => {
                self.latest = first_word(t.as_str());
                self.stage = UpdateStage::ReadInstalled;
                UpdateStep::Do(UpdateAction::ReadInstalled)
            },
            UpdateEvent::Text(Err(msg)) => {
                self.stage = UpdateStage::Finished;
                UpdateStep::Finished(UpdateOutcome::ChecksumUnreadable(msg))
            },
            UpdateEvent::Bytes(Ok(data)) => {
                self.current = md5_hex(data.as_slice());
                if self.current != self.latest {
                    self.stage = UpdateStage::Ask;
                    UpdateStep::Do(UpdateAction::AskUser)
                } else {
                    self.stage = UpdateStage::Finished;
                    UpdateStep::Finished(UpdateOutcome::UpToDate)
                }
            },
            UpdateEvent::Bytes(Err(msg)) => {
                self.stage = UpdateStage::Finished;
                UpdateStep::Finished(UpdateOutcome::InstalledUnreadable(msg))
            },
            UpdateEvent::Answer(yes) => {
                if yes {
                    self.stage = UpdateStage::Update;
                    UpdateStep::Do(UpdateAction::DownloadPlugin)
                } else {
                    self.stage = UpdateStage::Finished;
                    UpdateStep::Finished(UpdateOutcome::Declined)
                }
            },
        }
    }
}

} // verus!
