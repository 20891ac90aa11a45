use vstd::prelude::*;
use vstd::string::*;

verus! {

/// One progress report: how many bytes of how many have been written.
#[derive(Clone, Copy, Debug, PartialEq, Eq, Structural)]
pub struct DownloadProgress {
    pub length_computable: bool,
    pub loaded: u64,
    pub total: u64,
}

/// The whole-number percentage of `loaded` over `total`; an empty body
/// (`total == 0`) reports zero instead of dividing by zero.
pub open spec fn percent_of(loaded: u64, total: u64) -> int {
    if total == 0 {
        0
    } else {
        (loaded as int) * 100 / (total as int)
    }
}

impl DownloadProgress {
    /// Percentage of the download done, rounded down.
    pub fn percent(&self) -> (r: u128)
        ensures
            r as int == percent_of(self.loaded, self.total),
    {
        if self.total == 0 {
            0
        } else {
            (self.loaded as u128) * 100 / (self.total as u128)
        }
    }
}

/// Why a download stopped with an error.
#[derive(Debug)]
pub enum DownloadFailure {
    /// The request could not be sent or answered; holds the transport's text.
    Request { reason: String },
    /// The response did not say how long its body is.
    MissingLength,
    /// Creating the file, reading a chunk or writing it failed; holds the text.
    Transfer { reason: String },
    /// More bytes arrived than a `u64` counts.
    SizeOverflow,
}

pub open spec fn request_failed_prefix() -> Seq<char> {
    "request failed: "@
}

pub open spec fn missing_length_text() -> Seq<char> {
    "the server did not report the file size"@
}

pub open spec fn size_overflow_text() -> Seq<char> {
    "the downloaded size does not fit in 64 bits"@
}

/// The text that the UI and the caller receive for a failure.
pub open spec fn failure_text(f: DownloadFailure) -> Seq<char> {
    match f {
        DownloadFailure::Request { reason } => request_failed_prefix() + reason@,
        DownloadFailure::MissingLength => missing_length_text(),
        DownloadFailure::Transfer { reason } => reason@,
        DownloadFailure::SizeOverflow => size_overflow_text(),
    }
}

impl DownloadFailure {
    /// An equal failure, owned separately.
    pub fn duplicate(&self) -> (r: DownloadFailure)
        ensures
            r == *self,
    {
        match self {
            DownloadFailure::Request { reason } => DownloadFailure::Request { reason: reason.clone() },
            DownloadFailure::MissingLength => DownloadFailure::MissingLength,
            DownloadFailure::Transfer { reason } => DownloadFailure::Transfer { reason: reason.clone() },
            DownloadFailure::SizeOverflow => DownloadFailure::SizeOverflow,
        }
    }

    pub fn describe(&self) -> (r: String)
        ensures
            r@ == failure_text(*self),
    {
        match self {
            DownloadFailure::Request { reason } => {
                let prefix = String::from_str("request failed: ");
                proof {
                    reveal_strlit("request failed: ");
                }
                prefix.concat(reason.as_str())
            },
            DownloadFailure::MissingLength => {
                proof {
                    reveal_strlit("the server did not report the file size");
                }
                String::from_str("the server did not report the file size")
            },
            DownloadFailure::Transfer { reason } => reason.clone(),
            DownloadFailure::SizeOverflow => {
                proof {
                    reveal_strlit("the downloaded size does not fit in 64 bits");
                }
                String::from_str("the downloaded size does not fit in 64 bits")
            },
        }
    }
}

/// Where one download stands.
#[derive(Debug)]
pub enum DownloadState {
    /// Waiting for the user to pick a destination folder.
    PickingFolder,
    /// A file is already at the destination; waiting for the yes/no answer.
    ConfirmingOverwrite,
    /// The request is out; waiting for the response headers.
    AwaitingResponse,
    /// The body is being written, `loaded` of `total` bytes so far.
    Streaming { loaded: u64, total: u64 },
    /// Over: `Ok` on completion or cancellation, else the failure.
    Finished { result: Result<(), DownloadFailure> },
}

/// What happened outside since the last step.
#[derive(Debug)]
pub enum DownloadEvent {
    /// The user closed the folder prompt without choosing.
    FolderDeclined,
    /// The user chose a folder; whether a file already has the target name.
    FolderChosen { target_exists: bool },
    /// The user's answer to the overwrite prompt.
    OverwriteAnswered { overwrite: bool },
    /// Sending the request failed.
    RequestFailed { reason: String },
    /// Response headers arrived, with the body length when the server gave it.
    ResponseReceived { content_length: Option<u64> },
    /// A chunk of `len` bytes was read and appended to the file.
    ChunkWritten { len: u64 },
    /// Creating the file, reading a chunk or writing it failed.
    TransferFailed { reason: String },
    /// The body has no more chunks.
    StreamEnded,
}

/// What the caller must do next.
#[derive(Debug)]
pub enum DownloadAction {
    /// Ask whether to overwrite the existing file.
    AskOverwrite,
    /// Send the request for the source URL.
    SendRequest,
    /// Create (truncate) the destination file and start reading the body.
    CreateFile,
    /// Emit `sys:downloadBack` with this progress.
    EmitProgress { progress: DownloadProgress },
    /// Emit `sys:downloadCancel` with an empty payload.
    EmitCancel,
    /// Emit `sys:downloadError` with the failure's text.
    EmitError { failure: DownloadFailure },
    /// The download is complete; nothing to emit.
    Complete,
    /// The event does not apply here; do nothing.
    Ignore,
}

pub open spec fn failed(f: DownloadFailure) -> (DownloadState, DownloadAction) {
    (DownloadState::Finished { result: Err(f) }, DownloadAction::EmitError { failure: f })
}

pub open spec fn cancelled() -> (DownloadState, DownloadAction) {
    (DownloadState::Finished { result: Ok(()) }, DownloadAction::EmitCancel)
}

/// One transition of the download manager.
pub open spec fn download_step(s: DownloadState, e: DownloadEvent) -> (DownloadState, DownloadAction) {
    match s {
        DownloadState::PickingFolder => match e {
            DownloadEvent::FolderDeclined => cancelled(),
            DownloadEvent::FolderChosen { target_exists } => if target_exists {
                (DownloadState::ConfirmingOverwrite, DownloadAction::AskOverwrite)
            } else {
                (DownloadState::AwaitingResponse, DownloadAction::SendRequest)
            },
            _ => (s, DownloadAction::Ignore),
        },
        DownloadState::ConfirmingOverwrite => match e {
            DownloadEvent::OverwriteAnswered { overwrite } => if overwrite {
                (DownloadState::AwaitingResponse, DownloadAction::SendRequest)
            } else {
                cancelled()
            },
            _ => (s, DownloadAction::Ignore),
        },
        DownloadState::AwaitingResponse => match e {
            DownloadEvent::RequestFailed { reason } => failed(DownloadFailure::Request { reason }),
            DownloadEvent::ResponseReceived { content_length } => match content_length {
                Some(total) => (DownloadState::Streaming { loaded: 0, total }, DownloadAction::CreateFile),
                None => failed(DownloadFailure::MissingLength),
            },
            DownloadEvent::TransferFailed { reason } => failed(DownloadFailure::Transfer { reason }),
            _ => (s, DownloadAction::Ignore),
        },
        DownloadState::Streaming { loaded, total } => match e {
            DownloadEvent::ChunkWritten { len } => if loaded + len <= u64::MAX {
                let now = (loaded + len) as u64;
                (
                    DownloadState::Streaming { loaded: now, total },
                    DownloadAction::EmitProgress {
                        progress: DownloadProgress { length_computable: true, loaded: now, total },
                    },
                )
            } else {
                failed(DownloadFailure::SizeOverflow)
            },
            DownloadEvent::TransferFailed { reason } => failed(DownloadFailure::Transfer { reason }),
            DownloadEvent::StreamEnded => (DownloadState::Finished { result: Ok(()) }, DownloadAction::Complete),
            _ => (s, DownloadAction::Ignore),
        },
        DownloadState::Finished { .. } => (s, DownloadAction::Ignore),
    }
}

/// The state reached and the actions asked for when `evs` happen in order from `s`.
pub open spec fn download_run(s: DownloadState, evs: Seq<DownloadEvent>) -> (DownloadState, Seq<DownloadAction>)
    decreases evs.len(),
{
    if evs.len() == 0 {
        (s, Seq::empty())
    } else {
        let (next, a) = download_step(s, evs[0]);
        let (last, rest) = download_run(next, evs.drop_first());
        (last, seq![a] + rest)
    }
}

/// `n` actions that do nothing.
pub open spec fn ignored(n: nat) -> Seq<DownloadAction> {
    Seq::new(n, |i: int| DownloadAction::Ignore)
}

/// The sum of the chunk lengths.
pub open spec fn total_len(lens: Seq<u64>) -> nat
    decreases lens.len(),
{
    if lens.len() == 0 {
        0
    } else {
        lens[0] as nat + total_len(lens.drop_first())
    }
}

/// One `ChunkWritten` event for each chunk length, in order.
pub open spec fn chunk_events(lens: Seq<u64>) -> Seq<DownloadEvent> {
    lens.map_values(|l: u64| DownloadEvent::ChunkWritten { len: l })
}

/// Running one event, then the rest.
pub proof fn lemma_run_cons(s: DownloadState, e: DownloadEvent, rest: Seq<DownloadEvent>)
    ensures
        download_run(s, seq![e] + rest) == (
            download_run(download_step(s, e).0, rest).0,
            seq![download_step(s, e).1] + download_run(download_step(s, e).0, rest).1,
        ),
{
    let evs = seq![e] + rest;
    assert(evs[0] == e);
    assert(evs.drop_first() =~= rest);
}

/// Running a single event.
pub proof fn lemma_run_one(s: DownloadState, e: DownloadEvent)
    ensures
        download_run(s, seq![e]) == (download_step(s, e).0, seq![download_step(s, e).1]),
{
    lemma_run_cons(s, e, Seq::empty());
    assert(seq![e] + Seq::<DownloadEvent>::empty() =~= seq![e]);
    assert(seq![download_step(s, e).1] + Seq::<DownloadAction>::empty() =~= seq![download_step(s, e).1]);
}

/// Running events one after another is running the first batch, then the second.
pub proof fn lemma_run_append(s: DownloadState, a: Seq<DownloadEvent>, b: Seq<DownloadEvent>)
    ensures
        download_run(s, a + b) == (
            download_run(download_run(s, a).0, b).0,
            download_run(s, a).1 + download_run(download_run(s, a).0, b).1,
        ),
    decreases a.len(),
{
    if a.len() == 0 {
        assert(a + b =~= b);
        assert(download_run(s, a).1 + download_run(s, b).1 =~= download_run(s, b).1);
    } else {
        let next = download_step(s, a[0]).0;
        lemma_run_append(next, a.drop_first(), b);
        assert((a + b).drop_first() =~= a.drop_first() + b);
        assert((a + b)[0] == a[0]);
        let x = download_step(s, a[0]).1;
        let r1 = download_run(next, a.drop_first()).1;
        let r2 = download_run(download_run(next, a.drop_first()).0, b).1;
        assert(seq![x] + (r1 + r2) =~= (seq![x] + r1) + r2);
    }
}

/// Once a download is over, later events change nothing and ask for nothing.
pub proof fn lemma_finished_ignores(result: Result<(), DownloadFailure>, evs: Seq<DownloadEvent>)
    ensures
        download_run(DownloadState::Finished { result }, evs) == (
            DownloadState::Finished { result },
            ignored(evs.len()),
        ),
    decreases evs.len(),
{
    if evs.len() == 0 {
        assert(ignored(0) =~= Seq::<DownloadAction>::empty());
    } else {
        lemma_finished_ignores(result, evs.drop_first());
        assert(seq![DownloadAction::Ignore] + ignored((evs.len() - 1) as nat) =~= ignored(evs.len()));
    }
}

/// Declining the folder prompt ends the download successfully with exactly one
/// cancel event: no request, no file, no progress, whatever comes after.
pub proof fn lemma_folder_declined_cancels(rest: Seq<DownloadEvent>)
    ensures
        download_run(DownloadState::PickingFolder, seq![DownloadEvent::FolderDeclined] + rest) == (
            DownloadState::Finished { result: Ok(()) },
            seq![DownloadAction::EmitCancel] + ignored(rest.len()),
        ),
{
    let evs = seq![DownloadEvent::FolderDeclined] + rest;
    assert(evs[0] == DownloadEvent::FolderDeclined);
    assert(evs.drop_first() =~= rest);
    lemma_finished_ignores(Ok(()), rest);
}

/// Declining to overwrite an existing file behaves as declining the folder
/// prompt: the same end, and the same actions after the overwrite prompt.
pub proof fn lemma_overwrite_declined_cancels(rest: Seq<DownloadEvent>)
    ensures
        download_run(
            DownloadState::PickingFolder,
            seq![
                DownloadEvent::FolderChosen { target_exists: true },
                DownloadEvent::OverwriteAnswered { overwrite: false },
            ] + rest,
        ) == (
            DownloadState::Finished { result: Ok(()) },
            seq![DownloadAction::AskOverwrite] + (seq![DownloadAction::EmitCancel] + ignored(rest.len())),
        ),
        download_run(
            DownloadState::PickingFolder,
            seq![
                DownloadEvent::FolderChosen { target_exists: true },
                DownloadEvent::OverwriteAnswered { overwrite: false },
            ] + rest,
        ).0 == download_run(DownloadState::PickingFolder, seq![DownloadEvent::FolderDeclined] + rest).0,
        download_run(
            DownloadState::PickingFolder,
            seq![
                DownloadEvent::FolderChosen { target_exists: true },
                DownloadEvent::OverwriteAnswered { overwrite: false },
            ] + rest,
        ).1.drop_first() == download_run(DownloadState::PickingFolder, seq![DownloadEvent::FolderDeclined] + rest).1,
{
    let tail = seq![DownloadEvent::OverwriteAnswered { overwrite: false }] + rest;
    assert(seq![
        DownloadEvent::FolderChosen { target_exists: true },
        DownloadEvent::OverwriteAnswered { overwrite: false },
    ] + rest =~= seq![DownloadEvent::FolderChosen { target_exists: true }] + tail);
    lemma_run_cons(DownloadState::PickingFolder, DownloadEvent::FolderChosen { target_exists: true }, tail);
    lemma_run_cons(DownloadState::ConfirmingOverwrite, DownloadEvent::OverwriteAnswered { overwrite: false }, rest);
    lemma_finished_ignores(Ok(()), rest);
    lemma_folder_declined_cancels(rest);
    assert((seq![DownloadAction::AskOverwrite] + (seq![DownloadAction::EmitCancel] + ignored(rest.len()))).drop_first()
        =~= seq![DownloadAction::EmitCancel] + ignored(rest.len()));
}

/// A response without a content length fails the download before any file is
/// created or any progress is reported, whatever comes after.
pub proof fn lemma_missing_length_fails(rest: Seq<DownloadEvent>)
    ensures
        download_run(
            DownloadState::AwaitingResponse,
            seq![DownloadEvent::ResponseReceived { content_length: None }] + rest,
        ) == (
            DownloadState::Finished { result: Err(DownloadFailure::MissingLength) },
            seq![DownloadAction::EmitError { failure: DownloadFailure::MissingLength }] + ignored(rest.len()),
        ),
        forall|i: int|
            0 <= i < rest.len() + 1 ==> !(#[trigger] download_run(
                DownloadState::AwaitingResponse,
                seq![DownloadEvent::ResponseReceived { content_length: None }] + rest,
            ).1[i] is EmitProgress) && !(download_run(
                DownloadState::AwaitingResponse,
                seq![DownloadEvent::ResponseReceived { content_length: None }] + rest,
            ).1[i] is CreateFile),
{
    let evs = seq![DownloadEvent::ResponseReceived { content_length: None }] + rest;
    assert(evs[0] == DownloadEvent::ResponseReceived { content_length: None });
    assert(evs.drop_first() =~= rest);
    lemma_finished_ignores(Err(DownloadFailure::MissingLength), rest);
    let acts = seq![DownloadAction::EmitError { failure: DownloadFailure::MissingLength }] + ignored(rest.len());
    assert forall|i: int| 0 <= i < rest.len() + 1 implies !(acts[i] is EmitProgress) && !(acts[i] is CreateFile) by {
        if i > 0 {
            assert(acts[i] == ignored(rest.len())[i - 1]);
        }
    }
}

proof fn lemma_stream_chunks(loaded: u64, total: u64, lens: Seq<u64>)
    requires
        loaded + total_len(lens) <= u64::MAX,
    ensures
        download_run(DownloadState::Streaming { loaded, total }, chunk_events(lens)).0
            == (DownloadState::Streaming { loaded: (loaded + total_len(lens)) as u64, total }),
        download_run(DownloadState::Streaming { loaded, total }, chunk_events(lens)).1.len() == lens.len(),
        lens.len() > 0 ==> download_run(DownloadState::Streaming { loaded, total }, chunk_events(lens)).1.last()
            == (DownloadAction::EmitProgress {
                progress: DownloadProgress {
                    length_computable: true,
                    loaded: (loaded + total_len(lens)) as u64,
                    total,
                },
            }),
    decreases lens.len(),
{
    if lens.len() > 0 {
        let now = (loaded + lens[0]) as u64;
        lemma_stream_chunks(now, total, lens.drop_first());
        assert(chunk_events(lens)[0] == DownloadEvent::ChunkWritten { len: lens[0] });
        assert(chunk_events(lens).drop_first() =~= chunk_events(lens.drop_first()));
    }
}

/// A body whose chunks add up to the declared length ends with a progress
/// report of the whole length out of the whole length, one hundred percent,
/// and the download then completes.
pub proof fn lemma_full_body_reports_total(total: u64, lens: Seq<u64>)
    requires
        total > 0,
        total_len(lens) == total,
    ensures
        ({
            let (s, acts) = download_run(
                DownloadState::AwaitingResponse,
                seq![DownloadEvent::ResponseReceived { content_length: Some(total) }] + chunk_events(lens)
                    + seq![DownloadEvent::StreamEnded],
            );
            &&& s == DownloadState::Finished { result: Ok(()) }
            &&& acts.len() == lens.len() + 2
            &&& acts[acts.len() - 2] == DownloadAction::EmitProgress {
                progress: DownloadProgress { length_computable: true, loaded: total, total },
            }
            &&& acts.last() == DownloadAction::Complete
        }),
        percent_of(total, total) == 100,
{
    let head = seq![DownloadEvent::ResponseReceived { content_length: Some(total) }];
    let body = chunk_events(lens);
    let end = seq![DownloadEvent::StreamEnded];
    let streaming = DownloadState::Streaming { loaded: 0, total };
    lemma_run_append(DownloadState::AwaitingResponse, head + body, end);
    lemma_run_append(DownloadState::AwaitingResponse, head, body);
    lemma_run_one(DownloadState::AwaitingResponse, DownloadEvent::ResponseReceived { content_length: Some(total) });
    lemma_stream_chunks(0, total, lens);
    if lens.len() == 0 {
        assert(false);
    }
    let full = DownloadState::Streaming { loaded: total, total };
    lemma_run_one(full, DownloadEvent::StreamEnded);
    assert((total as int) * 100 / (total as int) == 100) by (nonlinear_arith)
        requires
            total > 0,
    ;
}

impl DownloadState {
    /// A download that has just been asked for: the folder prompt comes first.
    pub fn new() -> (r: DownloadState)
        ensures
            r == DownloadState::PickingFolder,
    {
        DownloadState::PickingFolder
    }

    /// Takes one event and gives the next state and the action to perform.
    pub fn step(self, event: DownloadEvent) -> (r: (DownloadState, DownloadAction))
        ensures
            r == download_step(self, event),
    {
        match self {
            DownloadState::PickingFolder => match event {
                DownloadEvent::FolderDeclined => (DownloadState::Finished { result: Ok(()) }, DownloadAction::EmitCancel),
                DownloadEvent::FolderChosen { target_exists } => if target_exists {
                    (DownloadState::ConfirmingOverwrite, DownloadAction::AskOverwrite)
                } else {
                    (DownloadState::AwaitingResponse, DownloadAction::SendRequest)
                },
                _ => (DownloadState::PickingFolder, DownloadAction::Ignore),
            },
            DownloadState::ConfirmingOverwrite => match event {
                DownloadEvent::OverwriteAnswered { overwrite } => if overwrite {
                    (DownloadState::AwaitingResponse, DownloadAction::SendRequest)
                } else {
                    (DownloadState::Finished { result: Ok(()) }, DownloadAction::EmitCancel)
                },
                _ => (DownloadState::ConfirmingOverwrite, DownloadAction::Ignore),
            },
            DownloadState::AwaitingResponse => match event {
                DownloadEvent::RequestFailed { reason } => fail_with(DownloadFailure::Request { reason }),
                DownloadEvent::ResponseReceived { content_length } => match content_length {
                    Some(total) => (DownloadState::Streaming { loaded: 0, total }, DownloadAction::CreateFile),
                    None => fail_with(DownloadFailure::MissingLength),
                },
                DownloadEvent::TransferFailed { reason } => fail_with(DownloadFailure::Transfer { reason }),
                _ => (DownloadState::AwaitingResponse, DownloadAction::Ignore),
            },
            DownloadState::Streaming { loaded, total } => match event {
                DownloadEvent::ChunkWritten { len } => match loaded.checked_add(len) {
                    Some(now) => (
                        DownloadState::Streaming { loaded: now, total },
                        DownloadAction::EmitProgress {
                            progress: DownloadProgress { length_computable: true, loaded: now, total },
                        },
                    ),
                    None => fail_with(DownloadFailure::SizeOverflow),
                },
                DownloadEvent::TransferFailed { reason } => fail_with(DownloadFailure::Transfer { reason }),
                DownloadEvent::StreamEnded => (DownloadState::Finished { result: Ok(()) }, DownloadAction::Complete),
                _ => (DownloadState::Streaming { loaded, total }, DownloadAction::Ignore),
            },
            DownloadState::Finished { result } => (DownloadState::Finished { result }, DownloadAction::Ignore),
        }
    }

    /// Whether the download is over.
    pub fn is_finished(&self) -> (r: bool)
        ensures
            r == (self is Finished),
    {
        match self {
            DownloadState::Finished { .. } => true,
            _ => false,
        }
    }

    /// What the download command returns once it is over: nothing while it
    /// runs, `Ok` after completion or cancellation, the failure's text otherwise.
    pub fn outcome(&self) -> (r: Option<Result<(), String>>)
        ensures
            match *self {
                DownloadState::Finished { result: Ok(()) } => r == Some(Ok::<(), String>(())),
                DownloadState::Finished { result: Err(f) } => r is Some && r->Some_0 is Err
                    && r->Some_0->Err_0@ == failure_text(f),
                _ => r is None,
            },
    {
        match self {
            DownloadState::Finished { result: Ok(()) } => Some(Ok(())),
            DownloadState::Finished { result: Err(f) } => Some(Err(f.describe())),
            _ => None,
        }
    }
}

fn fail_with(f: DownloadFailure) -> (r: (DownloadState, DownloadAction))
    ensures
        r == failed(f),
{
    (DownloadState::Finished { result: Err(f.duplicate()) }, DownloadAction::EmitError { failure: f })
}

} // verus!
