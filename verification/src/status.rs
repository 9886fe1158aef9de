//! Start-up of the local model: the status reported to the user interface,
//! the decisions of the start-up sequence (check, download, start the model
//! server, wait until it answers), and the small computations of the
//! download.
use vstd::prelude::*;
use vstd::string::*;
use crate::text::{decimal, decimal_digits, last_slash_segment, parse_u64, u64_from_text, after_last_slash};

verus! {

/// The status of the local model as shown to the user.
#[derive(Clone, Debug)]
pub enum LlmStatus {
    Checking,
    Downloading { downloaded: u64, total: u64 },
    ModelLoading,
    Ready,
    Error { message: String },
}

/// What the start-up sequence does next.
#[derive(Clone, Copy, Debug, PartialEq, Eq, Structural)]
pub enum InitCommand {
    /// Check whether the model file is present.
    CheckModel,
    /// Download the model file.
    Download,
    /// Start the model server.
    SpawnServer,
    /// Wait until the model server answers its health check.
    WaitReady,
    /// The sequence is over.
    Finish,
}

/// What the outside world reported back to the start-up sequence.
#[derive(Debug)]
pub enum InitEvent {
    /// The sequence begins.
    Begin,
    /// Whether the model file is present.
    ModelChecked { exists: bool },
    /// The download ended, with the error text when it failed.
    Downloaded(Result<(), String>),
    /// The model server was started, or the error text of the failure.
    Spawned(Result<(), String>),
    /// The model server answered, or the error text of the wait.
    ServerReady(Result<(), String>),
}

/// One step of the start-up sequence: the status to publish, if any, and
/// what to do next.
#[derive(Clone, Debug)]
pub struct InitStep {
    pub emit: Option<LlmStatus>,
    pub next: InitCommand,
}

pub open spec fn download_failed_message(e: Seq<char>) -> Seq<char> {
    "モデルのダウンロードに失敗しました: "@ + e
}

pub open spec fn spawn_failed_message(e: Seq<char>) -> Seq<char> {
    "llama-server を起動できません: "@ + e
}

pub open spec fn load_failed_message(e: Seq<char>) -> Seq<char> {
    "モデルのロードに失敗しました: "@ + e
}

/// Whether a status is an error with the given message.
pub open spec fn is_error_with(s: Option<LlmStatus>, msg: Seq<char>) -> bool {
    s matches Some(LlmStatus::Error { message }) && message@ == msg
}

/// The step that the start-up sequence takes on an event: it publishes
/// `Checking` when it begins, downloads a missing model, publishes
/// `ModelLoading` before it starts the model server, publishes `Ready` once
/// the server answers, and stops with an `Error` status whose message names
/// the failed phase and its error text.
pub open spec fn init_step_matches(e: InitEvent, r: InitStep) -> bool {
    match e {
        InitEvent::Begin => r.emit matches Some(LlmStatus::Checking) && r.next == InitCommand::CheckModel,
        InitEvent::ModelChecked { exists } => if exists {
            r.emit matches Some(LlmStatus::ModelLoading) && r.next == InitCommand::SpawnServer
        } else {
            r.emit is None && r.next == InitCommand::Download
        },
        InitEvent::Downloaded(res) => match res {
            Ok(_) => r.emit matches Some(LlmStatus::ModelLoading) && r.next == InitCommand::SpawnServer,
            Err(msg) => is_error_with(r.emit, download_failed_message(msg@)) && r.next
                == InitCommand::Finish,
        },
        InitEvent::Spawned(res) => match res {
            Ok(_) => r.emit is None && r.next == InitCommand::WaitReady,
            Err(msg) => is_error_with(r.emit, spawn_failed_message(msg@)) && r.next
                == InitCommand::Finish,
        },
        InitEvent::ServerReady(res) => match res {
            Ok(_) => r.emit matches Some(LlmStatus::Ready) && r.next == InitCommand::Finish,
            Err(msg) => is_error_with(r.emit, load_failed_message(msg@)) && r.next
                == InitCommand::Finish,
        },
    }
}

fn prefixed(prefix: &str, text: &str) -> (r: String)
    ensures
        r@ == prefix@ + text@,
{
    let mut s: String = prefix.to_owned();
    s.append(text);
    s
}

/// Takes one step of the start-up sequence.
pub fn init_step(e: InitEvent) -> (r: InitStep)
    ensures
        init_step_matches(e, r),
{
    match e {
        InitEvent::Begin => InitStep { emit: Some(LlmStatus::Checking), next: InitCommand::CheckModel },
        InitEvent::ModelChecked { exists } => {
            if exists {
                InitStep { emit: Some(LlmStatus::ModelLoading), next: InitCommand::SpawnServer }
            } else {
                InitStep { emit: None, next: InitCommand::Download }
            }
        },
        InitEvent::Downloaded(res) => match res {
            Ok(_) => InitStep { emit: Some(LlmStatus::ModelLoading), next: InitCommand::SpawnServer },
            Err(msg) => InitStep {
                emit: Some(
                    LlmStatus::Error {
                        message: prefixed("モデルのダウンロードに失敗しました: ", msg.as_str()),
                    },
                ),
                next: InitCommand::Finish,
            },
        },
        InitEvent::Spawned(res) => match res {
            Ok(_) => InitStep { emit: None, next: InitCommand::WaitReady },
            Err(msg) => InitStep {
                emit: Some(
                    LlmStatus::Error { message: prefixed("llama-server を起動できません: ", msg.as_str()) },
                ),
                next: InitCommand::Finish,
            },
        },
        InitEvent::ServerReady(res) => match res {
            Ok(_) => InitStep { emit: Some(LlmStatus::Ready), next: InitCommand::Finish },
            Err(msg) => InitStep {
                emit: Some(
                    LlmStatus::Error { message: prefixed("モデルのロードに失敗しました: ", msg.as_str()) },
                ),
                next: InitCommand::Finish,
            },
        },
    }
}

/// Every step that ends the start-up sequence publishes `Ready` or an
/// `Error`, and no other step publishes an `Error`.
pub proof fn lemma_init_ends_ready_or_error(e: InitEvent, r: InitStep)
    requires
        init_step_matches(e, r),
    ensures
        r.next == InitCommand::Finish ==> (r.emit matches Some(LlmStatus::Ready) || r.emit matches Some(
            LlmStatus::Error { .. },
        )),
        r.next != InitCommand::Finish ==> !(r.emit matches Some(LlmStatus::Error { .. })),
{
}

/// Whether an event is the answer to a command of the start-up sequence.
pub open spec fn answers(c: InitCommand, e: InitEvent) -> bool {
    match c {
        InitCommand::CheckModel => e is ModelChecked,
        InitCommand::Download => e is Downloaded,
        InitCommand::SpawnServer => e is Spawned,
        InitCommand::WaitReady => e is ServerReady,
        InitCommand::Finish => false,
    }
}

/// A run of the start-up sequence: it begins with `Begin`, each step is the
/// one `init_step` takes on its event, each later event answers the command
/// of the step before it, and only the last step finishes.
pub open spec fn is_init_run(events: Seq<InitEvent>, steps: Seq<InitStep>) -> bool {
    &&& events.len() == steps.len()
    &&& steps.len() > 0
    &&& events[0] is Begin
    &&& forall|i: int| 0 <= i < steps.len() ==> init_step_matches(#[trigger] events[i], steps[i])
    &&& forall|i: int| 0 <= i < steps.len() - 1 ==> (#[trigger] steps[i]).next != InitCommand::Finish
        && answers(steps[i].next, events[i + 1])
}

/// Whether some step of a run downloads the model.
pub open spec fn run_downloads(steps: Seq<InitStep>) -> bool {
    exists|i: int| 0 <= i < steps.len() && (#[trigger] steps[i]).next == InitCommand::Download
}

/// Whether some step of a run publishes `ModelLoading`.
pub open spec fn run_loads(steps: Seq<InitStep>) -> bool {
    exists|i: int| 0 <= i < steps.len() && (#[trigger] steps[i]).emit matches Some(LlmStatus::ModelLoading)
}

/// A whole start-up run publishes `Checking` first; it downloads the model
/// only when the file was found missing; it publishes `ModelLoading` unless
/// the download failed; it publishes `Ready` or an `Error` last and neither
/// earlier; and `Ready` only when the server answered.
pub proof fn lemma_init_run(events: Seq<InitEvent>, steps: Seq<InitStep>)
    requires
        is_init_run(events, steps),
        steps.last().next == InitCommand::Finish,
    ensures
        steps[0].emit matches Some(LlmStatus::Checking),
        steps.len() >= 2 && (run_downloads(steps) <==> events[1] == (InitEvent::ModelChecked { exists: false })),
        run_loads(steps) <==> !(events.last() matches InitEvent::Downloaded(Err(_))),
        steps.last().emit matches Some(LlmStatus::Ready) || steps.last().emit matches Some(LlmStatus::Error { .. }),
        forall|i: int| 0 <= i < steps.len() - 1 ==> !((#[trigger] steps[i]).emit matches Some(LlmStatus::Ready))
            && !(steps[i].emit matches Some(LlmStatus::Error { .. })),
        steps.last().emit matches Some(LlmStatus::Ready) ==> events.last() matches InitEvent::ServerReady(Ok(_)),
{
    let n = steps.len();
    assert(init_step_matches(events[0], steps[0]));
    assert(steps[0].next == InitCommand::CheckModel);
    assert(n > 1);
    assert(answers(steps[0].next, events[1]));
    assert(init_step_matches(events[1], steps[1]));
    if events[1] == (InitEvent::ModelChecked { exists: false }) {
        assert(steps[1].next == InitCommand::Download);
        assert(n > 2);
        assert(answers(steps[1].next, events[2]));
        assert(init_step_matches(events[2], steps[2]));
        if events[2] matches InitEvent::Downloaded(Err(_)) {
            assert(steps[2].next == InitCommand::Finish);
            assert(n == 3);
            assert(run_downloads(steps));
            assert(!run_loads(steps));
        } else {
            assert(steps[2].next == InitCommand::SpawnServer);
            assert(n > 3);
            assert(answers(steps[2].next, events[3]));
            assert(init_step_matches(events[3], steps[3]));
            assert(run_downloads(steps));
            assert(run_loads(steps));
            if events[3] matches InitEvent::Spawned(Err(_)) {
                assert(n == 4);
            } else {
                assert(steps[3].next == InitCommand::WaitReady);
                assert(n > 4);
                assert(answers(steps[3].next, events[4]));
                assert(init_step_matches(events[4], steps[4]));
                assert(steps[4].next == InitCommand::Finish);
                assert(n == 5);
            }
        }
    } else {
        assert(events[1] == (InitEvent::ModelChecked { exists: true }));
        assert(steps[1].next == InitCommand::SpawnServer);
        assert(n > 2);
        assert(answers(steps[1].next, events[2]));
        assert(init_step_matches(events[2], steps[2]));
        assert(run_loads(steps));
        if events[2] matches InitEvent::Spawned(Err(_)) {
            assert(n == 3);
        } else {
            assert(steps[2].next == InitCommand::WaitReady);
            assert(n > 3);
            assert(answers(steps[2].next, events[3]));
            assert(init_step_matches(events[3], steps[3]));
            assert(n == 4);
        }
        assert(!run_downloads(steps));
    }
}

/// The interval between progress reports of a download: 250 milliseconds.
pub const PROGRESS_INTERVAL_NANOS: u128 = 250_000_000;

/// Whether a download publishes its progress again, `elapsed_nanos` after
/// it last did.
pub fn progress_due(elapsed_nanos: u128) -> (r: bool)
    ensures
        r == (elapsed_nanos >= PROGRESS_INTERVAL_NANOS),
{
    elapsed_nanos >= PROGRESS_INTERVAL_NANOS
}

/// The message with which a restart is refused while the model is not in
/// an error state.
pub open spec fn retry_refused_message() -> Seq<char> {
    "already initializing or ready"@
}

/// Whether a restart of the start-up may begin: only from an error status.
pub fn check_retry(current: &LlmStatus) -> (r: Result<(), String>)
    ensures
        (current is Error) <==> r is Ok,
        r is Err ==> r->Err_0@ == retry_refused_message(),
{
    match current {
        LlmStatus::Error { .. } => Ok(()),
        _ => Err("already initializing or ready".to_owned()),
    }
}

/// How long the wait for the model server may take: 300 seconds.
pub const SERVER_READY_TIMEOUT_NANOS: u128 = 300_000_000_000;

/// The error text of a wait that took too long.
pub open spec fn timeout_message() -> Seq<char> {
    "タイムアウト"@
}

/// Decides, after `elapsed_nanos` of waiting, whether the wait for the model
/// server gives up (with its error text) or probes the server once more.
pub fn ready_wait_check(elapsed_nanos: u128) -> (r: Result<(), String>)
    ensures
        (elapsed_nanos > SERVER_READY_TIMEOUT_NANOS) <==> r is Err,
        r is Err ==> r->Err_0@ == timeout_message(),
{
    if elapsed_nanos > SERVER_READY_TIMEOUT_NANOS {
        Err("タイムアウト".to_owned())
    } else {
        Ok(())
    }
}

/// An error and its chain of causes as one line of text.
pub open spec fn error_chain_text(top: Seq<char>, causes: Seq<Seq<char>>) -> Seq<char>
    decreases causes.len(),
{
    if causes.len() == 0 {
        top
    } else {
        error_chain_text(top, causes.drop_last()) + " | caused by: "@ + causes.last()
    }
}

/// The line of an error chain starts with the error itself, and each further
/// cause adds ` | caused by: ` and the cause at the end.
pub proof fn lemma_error_chain_shape(top: Seq<char>, causes: Seq<Seq<char>>, cause: Seq<char>)
    ensures
        error_chain_text(top, causes).len() >= top.len(),
        error_chain_text(top, causes).subrange(0, top.len() as int) == top,
        error_chain_text(top, causes.push(cause)) == error_chain_text(top, causes) + " | caused by: "@ + cause,
    decreases causes.len(),
{
    assert(causes.push(cause).drop_last() =~= causes);
    if causes.len() > 0 {
        lemma_error_chain_shape(top, causes.drop_last(), causes.last());
        let prev = error_chain_text(top, causes.drop_last());
        assert(error_chain_text(top, causes).subrange(0, top.len() as int) =~= prev.subrange(0, top.len() as int));
    } else {
        assert(top.subrange(0, top.len() as int) =~= top);
    }
}

/// Writes an error and its causes, outermost first, as one line.
pub fn format_error_chain(top: &str, causes: &[String]) -> (r: String)
    ensures
        r@ == error_chain_text(top@, causes@.map_values(|c: String| c@)),
{
    let ghost views = causes@.map_values(|c: String| c@);
    let mut msg: String = top.to_owned();
    let mut i: usize = 0;
    while i < causes.len()
        invariant
            i <= causes@.len(),
            views == causes@.map_values(|c: String| c@),
            msg@ == error_chain_text(top@, views.take(i as int)),
        decreases causes@.len() - i,
    {
        assert(views.take(i + 1).drop_last() =~= views.take(i as int));
        msg.append(" | caused by: ");
        msg.append(causes[i].as_str());
        i = i + 1;
    }
    assert(views.take(causes@.len() as int) =~= views);
    msg
}

/// The value of the `Range` header that resumes a download after
/// `existing` bytes, or none when nothing was downloaded yet.
pub fn range_request_value(existing: u64) -> (r: Option<String>)
    ensures
        existing == 0 ==> r is None,
        existing > 0 ==> r is Some && r->Some_0@ == "bytes="@ + decimal_digits(existing as nat) + "-"@,
{
    if existing == 0 {
        None
    } else {
        let mut s: String = "bytes=".to_owned();
        let d = decimal(existing);
        s.append(d.as_str());
        s.append("-");
        Some(s)
    }
}

/// The total size of the model file from the reply to a download request:
/// the part after the last `/` of a readable `Content-Range` header (0 when
/// it is not a number); without that header, the content length plus the
/// bytes already present.
pub open spec fn download_total_spec(
    content_range: Option<Option<Seq<char>>>,
    content_length: Option<u64>,
    existing: u64,
) -> int {
    match content_range {
        Some(header) => match header {
            Some(text) => match u64_from_text(after_last_slash(text)) {
                Some(v) => v as int,
                None => 0,
            },
            None => 0,
        },
        None => match content_length {
            Some(n) => n + existing,
            None => existing as int,
        },
    }
}

pub open spec fn header_view(h: Option<Option<&str>>) -> Option<Option<Seq<char>>> {
    match h {
        Some(Some(s)) => Some(Some(s@)),
        Some(None) => Some(None),
        None => None,
    }
}

/// Without a `Content-Range` header, the total is the content length (none
/// counting as zero) plus the bytes already present, whatever their number;
/// with the header, the total does not depend on the content length or on
/// the bytes present.
pub proof fn lemma_download_total_parts(
    header: Option<Seq<char>>,
    content_length: Option<u64>,
    other_length: Option<u64>,
    existing: u64,
    other_existing: u64,
)
    ensures
        download_total_spec(None, content_length, existing) == (match content_length {
            Some(n) => n as int,
            None => 0,
        }) + existing,
        download_total_spec(None, content_length, existing) - existing == download_total_spec(
            None,
            content_length,
            other_existing,
        ) - other_existing,
        download_total_spec(Some(header), content_length, existing) == download_total_spec(
            Some(header),
            other_length,
            other_existing,
        ),
{
}

proof fn lemma_after_last_slash_suffix(prefix: Seq<char>, d: Seq<char>)
    requires
        forall|i: int| 0 <= i < d.len() ==> d[i] != '/',
    ensures
        after_last_slash(prefix + seq!['/'] + d) == d,
    decreases d.len(),
{
    let s = prefix + seq!['/'] + d;
    if d.len() == 0 {
        assert(s.last() == '/');
    } else {
        assert(s.drop_last() =~= prefix + seq!['/'] + d.drop_last());
        lemma_after_last_slash_suffix(prefix, d.drop_last());
        assert(s.last() == d.last());
        assert(d.drop_last().push(d.last()) =~= d);
    }
}

/// A readable `Content-Range` header that ends in `/` and the decimal size
/// gives that size as the total, whatever comes before the `/`.
pub proof fn lemma_download_total_from_range(prefix: Seq<char>, size: u64, content_length: Option<u64>, existing: u64)
    ensures
        download_total_spec(Some(Some(prefix + seq!['/'] + decimal_digits(size as nat))), content_length, existing)
            == size,
{
    let d = decimal_digits(size as nat);
    crate::text::lemma_decimal_parse_round_trip(size);
    crate::text::lemma_decimal_digits_no_slash(size as nat);
    lemma_after_last_slash_suffix(prefix, d);
}

/// Computes the total size of the model file. `content_range` is absent
/// when the reply has no `Content-Range` header, and holds no text when the
/// header is not readable as visible ASCII.
pub fn download_total(
    content_range: Option<Option<&str>>,
    content_length: Option<u64>,
    existing: u64,
) -> (r: u64)
    requires
        content_range is None ==> download_total_spec(header_view(content_range), content_length, existing)
            <= u64::MAX,
    ensures
        r == download_total_spec(header_view(content_range), content_length, existing),
{
    match content_range {
        Some(header) => match header {
            Some(text) => match parse_u64(last_slash_segment(text)) {
                Some(v) => v,
                None => 0,
            },
            None => 0,
        },
        None => match content_length {
            Some(n) => n + existing,
            None => existing,
        },
    }
}

} // verus!
