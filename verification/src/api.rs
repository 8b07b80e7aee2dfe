//! The controller's HTTP API and the worker's command line, as decisions on
//! plain values: what each request launches, changes or answers.
use vstd::prelude::*;
use crate::registry::WorkerRegistry;
use crate::registry;
use crate::text::trim_text;
use crate::text;

verus! {

/// The body of a request to start showing a stream.
pub struct ConnectRequest {
    pub url: String,
}

/// The body of a request to stop showing a stream.
pub struct DisconnectRequest {
    pub url: String,
}

/// One running worker, as the controller lists it.
pub struct WorkerInfo {
    pub url: String,
    pub pid: Option<u32>,
}

/// The HTTP status of a request that was handled.
pub const STATUS_OK: u16 = 200;

/// The HTTP status of a request for a stream that no worker shows.
pub const STATUS_NOT_FOUND: u16 = 404;

/// The HTTP status of a request that the controller could not carry out.
pub const STATUS_INTERNAL_ERROR: u16 = 500;

/// The path of the worker program that the controller launches.
pub open spec fn worker_program_path() -> Seq<char> {
    "./target/debug/rtspy-worker"@
}

/// The text that the controller answers at its root.
pub fn root() -> (r: &'static str)
    ensures
        r@ == "Controller is online"@,
{
    "Controller is online"
}

/// The text that the controller answers when asked for its status.
pub fn status() -> (r: &'static str)
    ensures
        r@ == "Status OK"@,
{
    "Status OK"
}

/// What a request to show a stream does: launch the worker program with the
/// stream URL as its one argument, and answer OK at once.
pub struct WorkerLaunch {
    pub program: String,
    pub args: Vec<String>,
    pub status: u16,
}

/// Decides what a request to show a stream launches and answers.
pub fn connect(req: &ConnectRequest) -> (r: WorkerLaunch)
    ensures
        r.program@ == worker_program_path(),
        r.args@.len() == 1,
        r.args@[0]@ == req.url@,
        r.status == STATUS_OK,
{
    let mut args: Vec<String> = Vec::new();
    args.push(req.url.clone());
    WorkerLaunch { program: "./target/debug/rtspy-worker".to_owned(), args, status: STATUS_OK }
}

/// Takes the worker that shows the requested stream out of the table, to be
/// stopped; `None` where no worker shows it.
pub fn disconnect(workers: &mut WorkerRegistry, req: &DisconnectRequest) -> (r: Option<
    tokio::process::Child,
>)
    requires
        old(workers).wf(),
    ensures
        final(workers).wf(),
        (final(workers)@, r) == registry::registry_remove(old(workers)@, req.url@),
{
    workers.remove(req.url.as_str())
}

/// How a request to stop showing a stream ended.
#[derive(PartialEq, Eq, Structural, Clone, Copy)]
pub enum StopOutcome {
    /// No worker showed the stream.
    NotFound,
    /// The worker was killed.
    Stopped,
    /// The worker could not be killed.
    StopFailed,
}

/// The HTTP status of a request to stop showing a stream: OK when the worker
/// was killed, not found when there was none, an internal error when it could
/// not be killed.
pub fn disconnect_status(outcome: StopOutcome) -> (r: u16)
    ensures
        outcome == StopOutcome::Stopped ==> r == STATUS_OK,
        outcome == StopOutcome::NotFound ==> r == STATUS_NOT_FOUND,
        outcome == StopOutcome::StopFailed ==> r == STATUS_INTERNAL_ERROR,
{
    match outcome {
        StopOutcome::Stopped => STATUS_OK,
        StopOutcome::NotFound => STATUS_NOT_FOUND,
        StopOutcome::StopFailed => STATUS_INTERNAL_ERROR,
    }
}

/// The line written when a worker could not be killed, from the stream URL
/// and the debug text of the error.
pub fn stop_failure_message(url: &str, error: &str) -> (r: String)
    ensures
        r@ == "Failed to stop worker for "@ + url@ + ": "@ + error@,
{
    let mut out = "Failed to stop worker for ".to_owned();
    out.append(url);
    out.append(": ");
    out.append(error);
    out
}

/// The running workers: each stream URL of the table once, with the pid that
/// its own worker reports.
pub fn workers(table: &WorkerRegistry) -> (r: Vec<WorkerInfo>)
    requires
        table.wf(),
    ensures
        r@.len() == table@.dom().len(),
        forall|i: int|
            0 <= i < r@.len() ==> table@.contains_key(#[trigger] r@[i].url@) && r@[i].pid
                == registry::child_pid(table@[r@[i].url@]),
        forall|i: int, j: int| 0 <= i < j < r@.len() ==> #[trigger] r@[i].url@ != #[trigger] r@[j].url@,
        forall|k: Seq<char>| #[trigger] table@.contains_key(k) ==> exists|i: int|
            0 <= i < r@.len() && #[trigger] r@[i].url@ == k,
{
    let listing = table.listing();
    let mut r: Vec<WorkerInfo> = Vec::new();
    let n: usize = listing.len();
    for i in 0..n
        invariant
            n == listing@.len(),
            r@.len() == i,
            forall|j: int|
                0 <= j < i ==> (#[trigger] r@[j]).url@ == listing@[j].0@ && r@[j].pid == listing@[j].1,
    {
        let url = listing[i].0.clone();
        let pid = listing[i].1;
        r.push(WorkerInfo { url, pid });
    }
    proof {
        assert forall|i: int, j: int| 0 <= i < j < r@.len() implies #[trigger] r@[i].url@
            != #[trigger] r@[j].url@ by {
            assert(r@[i].url@ == listing@[i].0@ && r@[j].url@ == listing@[j].0@);
        }
        assert forall|k: Seq<char>| #[trigger] table@.contains_key(k) implies exists|i: int|
            0 <= i < r@.len() && #[trigger] r@[i].url@ == k by {
            let o: int = choose|o: int| 0 <= o < listing@.len() && #[trigger] listing@[o].0@ == k;
            assert(r@[o].url@ == k);
        }
    }
    r
}

/// The stream URL that a request to view a stream carries: its body without
/// leading and trailing white space.
pub fn connect_rtsp_url(body: &str) -> (r: String)
    ensures
        text::is_trim_of(body@, r@),
{
    trim_text(body)
}

/// The usage line of the worker program, named `program`.
pub open spec fn usage_of(program: Seq<char>) -> Seq<char> {
    "Usage: "@ + program + " <rtsp_url>"@
}

/// The stream that the worker program shows, from its command line (the
/// program's name first): the first argument, or the usage line when there is
/// none.
pub fn worker_target(args: &Vec<String>) -> (r: Result<String, String>)
    requires
        args@.len() >= 1,
    ensures
        args@.len() >= 2 ==> (r matches Ok(u) && u@ == args@[1]@),
        args@.len() < 2 ==> (r matches Err(m) && m@ == usage_of(args@[0]@)),
{
    if args.len() < 2 {
        let mut m = "Usage: ".to_owned();
        m.append(args[0].as_str());
        m.append(" <rtsp_url>");
        Err(m)
    } else {
        Ok(args[1].clone())
    }
}


/// The worker program that a request to show a stream launches, and the
/// usage line of that program when it gets no stream URL.
pub proof fn lemma_worker_texts_law(program: Seq<char>)
    ensures
        worker_program_path() == "./target/debug/rtspy-worker"@,
        usage_of(program) == "Usage: "@ + program + " <rtsp_url>"@,
{
}
} // verus!
