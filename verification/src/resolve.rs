//! The model resolver: given a model identifier and an optional credential,
//! drive an ordered fallback chain — local file, then hub lookup, then local
//! cache scan — to a loaded model or a representative failure, accumulating a
//! diagnostic trace across every branch.
//!
//! The resolver performs no I/O itself. It is a state machine: each step
//! returns a [`ResolveAction`] for the unverified shell to perform (check a
//! path, read a file, fetch from the hub, list a directory), and the shell
//! feeds the outcome back as a [`ResolveEvent`]. The transition relation is
//! pinned down by [`step_view`], so the protocol laws are proved once over
//! [`run_view`] and hold of every run the shell can drive.

use vstd::prelude::*;
use vstd::string::StrSliceExecFns;
use vstd::string::StringExecFns;
use crate::engine::is_valid_model;
use crate::engine::load_definition;
use crate::engine::LoadedModel;
use crate::text::concat2;
use crate::text::concat3;
use crate::text::push_char;

verus! {

// ---------------------------------------------------------------------------
// Cache layout
// ---------------------------------------------------------------------------
/// How one identifier character appears in a cache directory name: every
/// path separator becomes a double hyphen.
pub open spec fn subst_char(c: char) -> Seq<char> {
    if c == '/' {
        seq!['-', '-']
    } else {
        seq![c]
    }
}

/// A model identifier made safe for use as a single directory name.
pub open spec fn sanitized(s: Seq<char>) -> Seq<char>
    decreases s.len(),
{
    if s.len() == 0 {
        Seq::empty()
    } else {
        sanitized(s.drop_last()) + subst_char(s.last())
    }
}

/// The deterministic snapshot directory for a model under the hub cache root.
pub open spec fn cache_dir_of(model: Seq<char>) -> Seq<char> {
    "/root/.cache/huggingface/hub/models--"@ + sanitized(model) + "/snapshots"@
}

/// The canonically named definition file inside one cache snapshot.
pub open spec fn snapshot_file_of(model: Seq<char>, entry: Seq<char>) -> Seq<char> {
    cache_dir_of(model) + "/"@ + entry + "/tokenizer.json"@
}

/// Builds the sanitized directory name for a model identifier.
fn sanitize(model: &str) -> (r: String)
    ensures
        r@ == sanitized(model@),
{
    let n = model.unicode_len();
    let mut out = String::new();
    let mut i: usize = 0;
    while i < n
        invariant
            i <= n,
            n == model@.len(),
            out@ == sanitized(model@.take(i as int)),
        decreases n - i,
    {
        let c = model.get_char(i);
        if c == '/' {
            push_char(&mut out, '-');
            push_char(&mut out, '-');
        } else {
            push_char(&mut out, c);
        }
        proof {
            assert(model@.take(i + 1).drop_last() =~= model@.take(i as int));
            assert(model@.take(i + 1).last() == model@[i as int]);
            assert(out@ =~= sanitized(model@.take(i + 1)));
        }
        i = i + 1;
    }
    proof {
        assert(model@.take(n as int) =~= model@);
    }
    out
}

/// Builds the cache snapshot directory path for a model identifier.
pub fn cache_dir_for(model: &str) -> (r: String)
    ensures
        r@ == cache_dir_of(model@),
{
    let s = sanitize(model);
    let r = concat3("/root/.cache/huggingface/hub/models--", s.as_str(), "/snapshots");
    proof {
        assert(r@ =~= cache_dir_of(model@));
    }
    r
}

/// Builds the definition file path inside one cache snapshot.
fn snapshot_file_for(model: &str, entry: &str) -> (r: String)
    ensures
        r@ == snapshot_file_of(model@, entry@),
{
    let dir = cache_dir_for(model);
    let head = concat3(dir.as_str(), "/", entry);
    let r = concat2(head.as_str(), "/tokenizer.json");
    proof {
        assert(r@ =~= snapshot_file_of(model@, entry@));
    }
    r
}

// ---------------------------------------------------------------------------
// Diagnostic trace entries
// ---------------------------------------------------------------------------
/// The header recorded when resolution begins.
pub open spec fn msg_header(model: Seq<char>) -> Seq<char> {
    "==== resolving tokenizer model: "@ + model + " ===="@
}

/// Recorded when a credential accompanies the request; the credential itself
/// is never written to the trace.
pub open spec fn msg_auth() -> Seq<char> {
    "Using authentication token for the model hub"@
}

/// The file-check attempt marker.
pub open spec fn msg_check_local(model: Seq<char>) -> Seq<char> {
    "Checking for local file: "@ + model
}

/// The local-file resolution step marker.
pub open spec fn msg_local_load(model: Seq<char>) -> Seq<char> {
    "Loading tokenizer from file: "@ + model
}

/// Recorded when the local file parses.
pub open spec fn msg_local_ok() -> Seq<char> {
    "Successfully loaded tokenizer from file"@
}

/// Recorded when the local file exists but cannot be read or parsed.
pub open spec fn msg_local_err() -> Seq<char> {
    "Error loading from file"@
}

/// The hub-lookup resolution step marker.
pub open spec fn msg_hub_try(model: Seq<char>) -> Seq<char> {
    "Trying to load tokenizer from the model hub: "@ + model
}

/// Recorded when the hub lookup succeeds.
pub open spec fn msg_hub_ok() -> Seq<char> {
    "Successfully loaded from the model hub"@
}

/// Recorded when the hub lookup fails, with the hub's own error.
pub open spec fn msg_hub_err(model: Seq<char>, err: Seq<char>) -> Seq<char> {
    "Failed to load '"@ + model + "' from the model hub: "@ + err
}

/// The cache-scan resolution step marker.
pub open spec fn msg_cache_try(model: Seq<char>) -> Seq<char> {
    "Trying to find in cache: "@ + cache_dir_of(model)
}

/// Recorded when the cache directory exists and is about to be scanned.
pub open spec fn msg_cache_scan() -> Seq<char> {
    "Cache directory exists, looking for tokenizer.json"@
}

/// Recorded for each snapshot entry as it is tried.
pub open spec fn msg_cache_entry(path: Seq<char>) -> Seq<char> {
    "Found directory: "@ + path
}

/// Recorded when a cached definition parses.
pub open spec fn msg_cache_ok() -> Seq<char> {
    "Successfully loaded from cache"@
}

/// Recorded when a cached definition file cannot be read or parsed.
pub open spec fn msg_cache_err() -> Seq<char> {
    "Error loading from cache file"@
}

/// The trace every resolution starts with: header, the credential notice
/// when one is present, and the file-check marker.
pub open spec fn init_trace(model: Seq<char>, credential: Option<Seq<char>>) -> Seq<Seq<char>> {
    seq![msg_header(model)]
        + (if credential is Some { seq![msg_auth()] } else { Seq::<Seq<char>>::empty() })
        + seq![msg_check_local(model)]
}

// ---------------------------------------------------------------------------
// States, events, actions and their spec-level views
// ---------------------------------------------------------------------------
/// Where a resolution stands between two steps.
#[derive(Clone, Copy)]
pub enum Phase {
    /// Waiting to learn whether the identifier names an existing file.
    AwaitPath,
    /// Waiting for the bytes of the local definition file.
    AwaitFile,
    /// Waiting for the outcome of the hub lookup.
    AwaitHub,
    /// Waiting for the cache snapshot directory listing.
    AwaitDirs,
    /// Waiting for the bytes of one cached snapshot's definition file.
    AwaitSnapshot,
    /// Resolution is over; no further event is accepted.
    Done,
}

/// What the shell reports back after performing one action.
pub enum ResolveEvent {
    /// Whether the identifier names an existing filesystem entry.
    PathChecked(bool),
    /// The bytes of the requested file, or nothing if it could not be read.
    FileRead(Option<Vec<u8>>),
    /// The hub collaborator's outcome.
    HubFetched(Result<LoadedModel, String>),
    /// The immediate subdirectory names of the requested directory, in the
    /// order the filesystem enumerated them, or nothing if the directory is
    /// absent or unreadable.
    DirListed(Option<Vec<String>>),
}

/// What the resolver asks the shell to do next.
pub enum ResolveAction {
    /// Check whether this path names an existing filesystem entry.
    CheckPath(String),
    /// Read this file and hand back its bytes.
    ReadFile(String),
    /// Fetch this model from the hub, with this credential when present.
    FetchHub(String, Option<String>),
    /// List the immediate subdirectories of this directory.
    ListDir(String),
    /// Resolution is over with this outcome.
    Finished(Result<LoadedModel, String>),
}

/// The spec-level shape of an event. A fetched model is opaque, so only the
/// success of a hub outcome is visible here.
pub enum EventV {
    PathChecked(bool),
    FileRead(Option<Seq<u8>>),
    HubOk,
    HubErr(Seq<char>),
    DirListed(Option<Seq<Seq<char>>>),
}

/// The spec-level shape of an action.
pub enum ActionV {
    CheckPath(Seq<char>),
    ReadFile(Seq<char>),
    FetchHub(Seq<char>, Option<Seq<char>>),
    ListDir(Seq<char>),
    FinishedOk,
    FinishedErr,
}

impl View for ResolveEvent {
    type V = EventV;

    open spec fn view(&self) -> EventV {
        match self {
            ResolveEvent::PathChecked(b) => EventV::PathChecked(*b),
            ResolveEvent::FileRead(ob) => EventV::FileRead(
                match ob {
                    Some(b) => Some(b@),
                    None => None,
                },
            ),
            ResolveEvent::HubFetched(r) => match r {
                Ok(_) => EventV::HubOk,
                Err(e) => EventV::HubErr(e@),
            },
            ResolveEvent::DirListed(od) => EventV::DirListed(
                match od {
                    Some(d) => Some(d.deep_view()),
                    None => None,
                },
            ),
        }
    }
}

impl View for ResolveAction {
    type V = ActionV;

    open spec fn view(&self) -> ActionV {
        match self {
            ResolveAction::CheckPath(p) => ActionV::CheckPath(p@),
            ResolveAction::ReadFile(p) => ActionV::ReadFile(p@),
            ResolveAction::FetchHub(m, c) => ActionV::FetchHub(
                m@,
                match c {
                    Some(s) => Some(s@),
                    None => None,
                },
            ),
            ResolveAction::ListDir(p) => ActionV::ListDir(p@),
            ResolveAction::Finished(r) => match r {
                Ok(_) => ActionV::FinishedOk,
                Err(_) => ActionV::FinishedErr,
            },
        }
    }
}

/// The spec-level resolver state.
#[verifier::ext_equal]
pub struct ResolverV {
    pub model: Seq<char>,
    pub credential: Option<Seq<char>>,
    pub trace: Seq<Seq<char>>,
    pub phase: Phase,
    /// Cache snapshot entries not yet tried, in enumeration order.
    pub pending: Seq<Seq<char>>,
    /// The hub lookup's error, kept as the representative failure.
    pub hub_error: Option<Seq<char>>,
}

/// One resolution in progress.
pub struct Resolver {
    model: String,
    credential: Option<String>,
    trace: Vec<String>,
    phase: Phase,
    pending: Vec<String>,
    hub_error: Option<String>,
}

impl View for Resolver {
    type V = ResolverV;

    closed spec fn view(&self) -> ResolverV {
        (ResolverV {
            model: self.model@,
            credential: match self.credential {
                Some(c) => Some(c@),
                None => None,
            },
            trace: self.trace.deep_view(),
            phase: self.phase,
            pending: self.pending.deep_view(),
            hub_error: match self.hub_error {
                Some(e) => Some(e@),
                None => None,
            },
        })
    }
}

// ---------------------------------------------------------------------------
// The transition relation
// ---------------------------------------------------------------------------
/// Which events a phase accepts: exactly the answer to the action the
/// resolver last issued.
pub open spec fn event_fits(phase: Phase, e: EventV) -> bool {
    match phase {
        Phase::AwaitPath => e is PathChecked,
        Phase::AwaitFile => e is FileRead,
        Phase::AwaitHub => e is HubOk || e is HubErr,
        Phase::AwaitDirs => e is DirListed,
        Phase::AwaitSnapshot => e is FileRead,
        Phase::Done => false,
    }
}

/// The state every resolution starts in, and the first action.
pub open spec fn init_view(model: Seq<char>, credential: Option<Seq<char>>) -> (ResolverV, ActionV) {
    (
        (ResolverV {
            model: model,
            credential: credential,
            trace: init_trace(model, credential),
            phase: Phase::AwaitPath,
            pending: Seq::empty(),
            hub_error: None,
        }),
        ActionV::CheckPath(model),
    )
}

/// Moves to the next untried cache snapshot, or ends resolution with the
/// hub's error as the representative failure when none is left.
pub open spec fn advance_view(s: ResolverV) -> (ResolverV, ActionV) {
    if s.pending.len() == 0 {
        ((ResolverV { phase: Phase::Done, ..s }), ActionV::FinishedErr)
    } else {
        let path = snapshot_file_of(s.model, s.pending[0]);
        (
            (ResolverV {
                trace: s.trace.push(msg_cache_entry(path)),
                phase: Phase::AwaitSnapshot,
                pending: s.pending.drop_first(),
                ..s
            }),
            ActionV::ReadFile(path),
        )
    }
}

/// The complete transition relation of the resolution protocol.
pub open spec fn step_view(s: ResolverV, e: EventV) -> (ResolverV, ActionV) {
    match (s.phase, e) {
        (Phase::AwaitPath, EventV::PathChecked(true)) => (
            (ResolverV {
                trace: s.trace.push(msg_local_load(s.model)),
                phase: Phase::AwaitFile,
                ..s
            }),
            ActionV::ReadFile(s.model),
        ),
        (Phase::AwaitPath, EventV::PathChecked(false)) => (
            (ResolverV {
                trace: s.trace.push(msg_hub_try(s.model)),
                phase: Phase::AwaitHub,
                ..s
            }),
            ActionV::FetchHub(s.model, s.credential),
        ),
        (Phase::AwaitFile, EventV::FileRead(ob)) => {
            if ob matches Some(b) && is_valid_model(b) {
                (
                    (ResolverV {
                        trace: s.trace.push(msg_local_ok()),
                        phase: Phase::Done,
                        ..s
                    }),
                    ActionV::FinishedOk,
                )
            } else {
                // An existing but unreadable or unparseable file is terminal:
                // it is not retried as a hub name.
                (
                    (ResolverV {
                        trace: s.trace.push(msg_local_err()),
                        phase: Phase::Done,
                        ..s
                    }),
                    ActionV::FinishedErr,
                )
            }
        },
        (Phase::AwaitHub, EventV::HubOk) => (
            (ResolverV { trace: s.trace.push(msg_hub_ok()), phase: Phase::Done, ..s }),
            ActionV::FinishedOk,
        ),
        (Phase::AwaitHub, EventV::HubErr(err)) => (
            (ResolverV {
                trace: s.trace.push(msg_hub_err(s.model, err)).push(msg_cache_try(s.model)),
                phase: Phase::AwaitDirs,
                hub_error: Some(err),
                ..s
            }),
            ActionV::ListDir(cache_dir_of(s.model)),
        ),
        (Phase::AwaitDirs, EventV::DirListed(None)) => (
            (ResolverV { phase: Phase::Done, ..s }),
            ActionV::FinishedErr,
        ),
        (Phase::AwaitDirs, EventV::DirListed(Some(names))) => advance_view(
            (ResolverV { trace: s.trace.push(msg_cache_scan()), pending: names, ..s }),
        ),
        (Phase::AwaitSnapshot, EventV::FileRead(ob)) => {
            if ob matches Some(b) && is_valid_model(b) {
                (
                    (ResolverV {
                        trace: s.trace.push(msg_cache_ok()),
                        phase: Phase::Done,
                        ..s
                    }),
                    ActionV::FinishedOk,
                )
            } else if ob is Some {
                advance_view((ResolverV { trace: s.trace.push(msg_cache_err()), ..s }))
            } else {
                advance_view(s)
            }
        },
        _ => (s, ActionV::FinishedErr),
    }
}

/// The resolver's internal invariant: once the hub has failed, its error is
/// on hand as the representative failure.
pub open spec fn inv(s: ResolverV) -> bool {
    (s.phase is AwaitDirs || s.phase is AwaitSnapshot) ==> s.hub_error is Some
}

/// A whole resolution at the spec level: the state and the actions issued
/// after a sequence of events.
pub open spec fn run_view(s: ResolverV, events: Seq<EventV>) -> (ResolverV, Seq<ActionV>)
    decreases events.len(),
{
    if events.len() == 0 {
        (s, Seq::empty())
    } else {
        let first = step_view(s, events[0]);
        let rest = run_view(first.0, events.drop_first());
        (rest.0, seq![first.1] + rest.1)
    }
}

/// Law: when the identifier names an existing file holding a valid
/// definition, resolution uses that file alone — the actions issued are
/// exactly the path check and the file read, so neither hub lookup nor cache
/// scan is ever attempted, and the trace records exactly the one local
/// resolution step.
pub proof fn lemma_local_file_wins(model: Seq<char>, credential: Option<Seq<char>>, bytes: Seq<u8>)
    requires
        is_valid_model(bytes),
    ensures
        ({
            let start = init_view(model, credential);
            let events = seq![EventV::PathChecked(true), EventV::FileRead(Some(bytes))];
            let run = run_view(start.0, events);
            &&& start.1 == ActionV::CheckPath(model)
            &&& run.1 == seq![ActionV::ReadFile(model), ActionV::FinishedOk]
            &&& run.0.phase is Done
            &&& run.0.trace == init_trace(model, credential) + seq![
                msg_local_load(model),
                msg_local_ok(),
            ]
        }),
{
    let start = init_view(model, credential);
    let events = seq![EventV::PathChecked(true), EventV::FileRead(Some(bytes))];
    let s1 = step_view(start.0, events[0]);
    assert(events.drop_first() =~= seq![EventV::FileRead(Some(bytes))]);
    let s2 = step_view(s1.0, EventV::FileRead(Some(bytes)));
    assert(seq![EventV::FileRead(Some(bytes))].drop_first() =~= Seq::<EventV>::empty());
    reveal_with_fuel(run_view, 3);
    let run = run_view(start.0, events);
    assert(run.0 == s2.0);
    assert(run.1 =~= seq![ActionV::ReadFile(model), ActionV::FinishedOk]);
    assert(run.0.trace =~= init_trace(model, credential) + seq![
        msg_local_load(model),
        msg_local_ok(),
    ]);
}

/// Law: when no local file exists and the hub lookup succeeds, resolution
/// ends there — the cache scan never executes — and the hub was asked with
/// exactly the supplied credential.
pub proof fn lemma_hub_success_skips_cache(model: Seq<char>, credential: Option<Seq<char>>)
    ensures
        ({
            let start = init_view(model, credential);
            let events = seq![EventV::PathChecked(false), EventV::HubOk];
            let run = run_view(start.0, events);
            &&& run.1 == seq![ActionV::FetchHub(model, credential), ActionV::FinishedOk]
            &&& run.0.phase is Done
            &&& run.0.trace == init_trace(model, credential) + seq![
                msg_hub_try(model),
                msg_hub_ok(),
            ]
        }),
{
    let start = init_view(model, credential);
    let events = seq![EventV::PathChecked(false), EventV::HubOk];
    let s1 = step_view(start.0, events[0]);
    assert(events.drop_first() =~= seq![EventV::HubOk]);
    let s2 = step_view(s1.0, EventV::HubOk);
    assert(seq![EventV::HubOk].drop_first() =~= Seq::<EventV>::empty());
    reveal_with_fuel(run_view, 3);
    let run = run_view(start.0, events);
    assert(run.1 =~= seq![ActionV::FetchHub(model, credential), ActionV::FinishedOk]);
    assert(run.0.trace =~= init_trace(model, credential) + seq![msg_hub_try(model), msg_hub_ok()]);
}

/// Law: when the hub lookup fails but the cache holds a snapshot whose
/// definition is valid, resolution succeeds from the cache: the first
/// snapshot's canonically named definition file is read and accepted.
pub proof fn lemma_cache_fallback_succeeds(
    model: Seq<char>,
    credential: Option<Seq<char>>,
    hub_err: Seq<char>,
    names: Seq<Seq<char>>,
    bytes: Seq<u8>,
)
    requires
        names.len() > 0,
        is_valid_model(bytes),
    ensures
        ({
            let start = init_view(model, credential);
            let events = seq![
                EventV::PathChecked(false),
                EventV::HubErr(hub_err),
                EventV::DirListed(Some(names)),
                EventV::FileRead(Some(bytes)),
            ];
            let run = run_view(start.0, events);
            &&& run.1 == seq![
                ActionV::FetchHub(model, credential),
                ActionV::ListDir(cache_dir_of(model)),
                ActionV::ReadFile(snapshot_file_of(model, names[0])),
                ActionV::FinishedOk,
            ]
            &&& run.0.phase is Done
            &&& run.0.trace == init_trace(model, credential) + seq![
                msg_hub_try(model),
                msg_hub_err(model, hub_err),
                msg_cache_try(model),
                msg_cache_scan(),
                msg_cache_entry(snapshot_file_of(model, names[0])),
                msg_cache_ok(),
            ]
        }),
{
    let start = init_view(model, credential);
    let events = seq![
        EventV::PathChecked(false),
        EventV::HubErr(hub_err),
        EventV::DirListed(Some(names)),
        EventV::FileRead(Some(bytes)),
    ];
    let s1 = step_view(start.0, events[0]);
    let e1 = events.drop_first();
    assert(e1 =~= seq![
        EventV::HubErr(hub_err),
        EventV::DirListed(Some(names)),
        EventV::FileRead(Some(bytes)),
    ]);
    let s2 = step_view(s1.0, e1[0]);
    let e2 = e1.drop_first();
    assert(e2 =~= seq![EventV::DirListed(Some(names)), EventV::FileRead(Some(bytes))]);
    let s3 = step_view(s2.0, e2[0]);
    let e3 = e2.drop_first();
    assert(e3 =~= seq![EventV::FileRead(Some(bytes))]);
    let s4 = step_view(s3.0, e3[0]);
    assert(e3.drop_first() =~= Seq::<EventV>::empty());
    reveal_with_fuel(run_view, 5);
    let run = run_view(start.0, events);
    assert(run.1 =~= seq![
        ActionV::FetchHub(model, credential),
        ActionV::ListDir(cache_dir_of(model)),
        ActionV::ReadFile(snapshot_file_of(model, names[0])),
        ActionV::FinishedOk,
    ]);
    assert(run.0.trace =~= init_trace(model, credential) + seq![
        msg_hub_try(model),
        msg_hub_err(model, hub_err),
        msg_cache_try(model),
        msg_cache_scan(),
        msg_cache_entry(snapshot_file_of(model, names[0])),
        msg_cache_ok(),
    ]);
}

/// Law: when the file check, the hub lookup and the cache scan all fail,
/// resolution fails with the hub's error as the representative failure, and
/// the trace records the file-check, hub-lookup and cache-scan attempts in
/// that order.
pub proof fn lemma_all_sources_fail(model: Seq<char>, credential: Option<Seq<char>>, hub_err: Seq<char>)
    ensures
        ({
            let start = init_view(model, credential);
            let events = seq![
                EventV::PathChecked(false),
                EventV::HubErr(hub_err),
                EventV::DirListed(None),
            ];
            let run = run_view(start.0, events);
            &&& run.1 == seq![
                ActionV::FetchHub(model, credential),
                ActionV::ListDir(cache_dir_of(model)),
                ActionV::FinishedErr,
            ]
            &&& run.0.phase is Done
            &&& run.0.hub_error == Some(hub_err)
            &&& run.0.trace == init_trace(model, credential) + seq![
                msg_hub_try(model),
                msg_hub_err(model, hub_err),
                msg_cache_try(model),
            ]
        }),
{
    let start = init_view(model, credential);
    let events = seq![
        EventV::PathChecked(false),
        EventV::HubErr(hub_err),
        EventV::DirListed(None),
    ];
    let s1 = step_view(start.0, events[0]);
    let e1 = events.drop_first();
    assert(e1 =~= seq![EventV::HubErr(hub_err), EventV::DirListed(None)]);
    let s2 = step_view(s1.0, e1[0]);
    let e2 = e1.drop_first();
    assert(e2 =~= seq![EventV::DirListed(None)]);
    let s3 = step_view(s2.0, e2[0]);
    assert(e2.drop_first() =~= Seq::<EventV>::empty());
    reveal_with_fuel(run_view, 4);
    let run = run_view(start.0, events);
    assert(run.1 =~= seq![
        ActionV::FetchHub(model, credential),
        ActionV::ListDir(cache_dir_of(model)),
        ActionV::FinishedErr,
    ]);
    assert(run.0.trace =~= init_trace(model, credential) + seq![
        msg_hub_try(model),
        msg_hub_err(model, hub_err),
        msg_cache_try(model),
    ]);
}

/// Law: the diagnostic trace accumulates monotonically — no step rewrites
/// or drops an entry already recorded, it only appends.
pub proof fn lemma_trace_monotonic(s: ResolverV, e: EventV)
    ensures
        s.trace.is_prefix_of(step_view(s, e).0.trace),
{
    let t = step_view(s, e).0.trace;
    assert(t.len() >= s.trace.len() && forall|i: int| 0 <= i < s.trace.len() ==> t[i] == s.trace[i]);
    assert(s.trace =~= t.subrange(0, s.trace.len() as int));
}

/// Law: over any sequence of events, a run's trace extends the starting
/// trace; entries once recorded stay, in order.
pub proof fn lemma_run_trace_monotonic(s: ResolverV, events: Seq<EventV>)
    ensures
        s.trace.is_prefix_of(run_view(s, events).0.trace),
    decreases events.len(),
{
    if events.len() == 0 {
        assert(s.trace =~= run_view(s, events).0.trace.subrange(0, s.trace.len() as int));
    } else {
        let mid = step_view(s, events[0]).0;
        lemma_trace_monotonic(s, events[0]);
        lemma_run_trace_monotonic(mid, events.drop_first());
        let t = run_view(s, events).0.trace;
        assert(run_view(s, events).0 == run_view(mid, events.drop_first()).0);
        assert(s.trace =~= t.subrange(0, s.trace.len() as int));
    }
}

/// Two resolver states that agree on everything but the credential itself.
pub open spec fn same_but_credential(a: ResolverV, b: ResolverV) -> bool {
    &&& a.model == b.model
    &&& a.trace == b.trace
    &&& a.phase == b.phase
    &&& a.pending == b.pending
    &&& a.hub_error == b.hub_error
}

/// One step keeps credential-blind states credential-blind.
pub proof fn lemma_step_credential_blind(a: ResolverV, b: ResolverV, e: EventV)
    requires
        same_but_credential(a, b),
    ensures
        same_but_credential(step_view(a, e).0, step_view(b, e).0),
{
}

/// Law: the diagnostic trace never holds the credential — over any sequence
/// of events, a resolution's trace depends only on whether a credential is
/// present, never on its value.
pub proof fn lemma_credential_never_in_trace(
    model: Seq<char>,
    c1: Option<Seq<char>>,
    c2: Option<Seq<char>>,
    events: Seq<EventV>,
)
    requires
        c1 is Some <==> c2 is Some,
    ensures
        run_view(init_view(model, c1).0, events).0.trace == run_view(
            init_view(model, c2).0,
            events,
        ).0.trace,
{
    lemma_run_credential_blind(init_view(model, c1).0, init_view(model, c2).0, events);
}

proof fn lemma_run_credential_blind(a: ResolverV, b: ResolverV, events: Seq<EventV>)
    requires
        same_but_credential(a, b),
    ensures
        same_but_credential(run_view(a, events).0, run_view(b, events).0),
    decreases events.len(),
{
    if events.len() > 0 {
        lemma_step_credential_blind(a, b, events[0]);
        lemma_run_credential_blind(
            step_view(a, events[0]).0,
            step_view(b, events[0]).0,
            events.drop_first(),
        );
    }
}

// ---------------------------------------------------------------------------
// The executable resolver
// ---------------------------------------------------------------------------
impl Resolver {
    /// Starts one resolution for an identifier with an optional credential,
    /// returning the resolver and the first action for the shell.
    pub fn new(model: String, credential: Option<String>) -> (r: (Resolver, ResolveAction))
        ensures
            (r.0@, r.1@) == init_view(
                model@,
                match credential {
                    Some(c) => Some(c@),
                    None => None,
                },
            ),
            inv(r.0@),
    {
        let ghost credv: Option<Seq<char>> = match &credential {
            Some(c) => Some(c@),
            None => None,
        };
        let mut trace: Vec<String> = Vec::new();
        trace.push(concat3("==== resolving tokenizer model: ", model.as_str(), " ===="));
        if credential.is_some() {
            trace.push(String::from_str("Using authentication token for the model hub"));
        }
        trace.push(concat2("Checking for local file: ", model.as_str()));
        proof {
            assert(trace.deep_view() =~= init_trace(model@, credv));
        }
        let action = ResolveAction::CheckPath(model.clone());
        let r = Resolver {
            model,
            credential,
            trace,
            phase: Phase::AwaitPath,
            pending: Vec::new(),
            hub_error: None,
        };
        proof {
            assert(r@ =~= init_view(r.model@, credv).0);
        }
        (r, action)
    }

    /// The accumulated diagnostic trace, available in every phase.
    pub fn trace(&self) -> (r: &Vec<String>)
        ensures
            r.deep_view() == self@.trace,
    {
        &self.trace
    }

    /// Moves to the next untried snapshot or finishes with the hub's error.
    fn advance(&mut self) -> (a: ResolveAction)
        requires
            old(self)@.hub_error is Some,
        ensures
            (final(self)@, a@) == advance_view(old(self)@),
            a@ is FinishedErr ==> (a matches ResolveAction::Finished(Err(m)) && Some(m@)
                == old(self)@.hub_error),
            a@ is FinishedOk ==> (a matches ResolveAction::Finished(Ok(_))),
            final(self)@.hub_error == old(self)@.hub_error,
            inv(final(self)@),
    {
        if self.pending.len() == 0 {
            self.phase = Phase::Done;
            let err = match &self.hub_error {
                Some(e) => e.clone(),
                None => String::new(),
            };
            let a = ResolveAction::Finished(Err(err));
            proof {
                assert(self@ =~= advance_view(old(self)@).0);
            }
            a
        } else {
            let name = self.pending.remove(0);
            let path = snapshot_file_for(self.model.as_str(), name.as_str());
            self.trace.push(concat2("Found directory: ", path.as_str()));
            self.phase = Phase::AwaitSnapshot;
            let a = ResolveAction::ReadFile(path);
            proof {
                assert(old(self)@.pending[0] == name@);
                assert(self.pending.deep_view() =~= old(self)@.pending.drop_first());
                assert(self.trace.deep_view() =~= old(self)@.trace.push(
                    msg_cache_entry(snapshot_file_of(old(self)@.model, old(self)@.pending[0])),
                ));
                assert(self@ =~= advance_view(old(self)@).0);
            }
            a
        }
    }

    /// Feeds the outcome of the last action back in and returns the next
    /// action; the whole move is pinned down by [`step_view`].
    pub fn step(&mut self, event: ResolveEvent) -> (a: ResolveAction)
        requires
            event_fits(old(self)@.phase, event@),
            inv(old(self)@),
        ensures
            (final(self)@, a@) == step_view(old(self)@, event@),
            a@ is FinishedOk ==> (a matches ResolveAction::Finished(Ok(_))),
            event matches ResolveEvent::HubFetched(Ok(t)) ==> a == ResolveAction::Finished(
                Ok(t),
            ),
            (old(self)@.phase is AwaitDirs || old(self)@.phase is AwaitSnapshot) && a@
                is FinishedErr ==> (a matches ResolveAction::Finished(Err(m)) && Some(m@) == old(
                self,
            )@.hub_error),
            inv(final(self)@),
    {
        let ghost pre = self@;
        let ghost ev = event@;
        match event {
            ResolveEvent::PathChecked(exists_locally) => {
                if exists_locally {
                    self.trace.push(concat2("Loading tokenizer from file: ", self.model.as_str()));
                    self.phase = Phase::AwaitFile;
                    let a = ResolveAction::ReadFile(self.model.clone());
                    proof {
                        assert(self.trace.deep_view() =~= pre.trace.push(msg_local_load(pre.model)));
                        assert(self@ =~= step_view(pre, ev).0);
                    }
                    a
                } else {
                    self.trace.push(
                        concat2("Trying to load tokenizer from the model hub: ", self.model.as_str()),
                    );
                    self.phase = Phase::AwaitHub;
                    let a = ResolveAction::FetchHub(self.model.clone(), self.credential.clone());
                    proof {
                        assert(self.trace.deep_view() =~= pre.trace.push(msg_hub_try(pre.model)));
                        assert(self@ =~= step_view(pre, ev).0);
                        assert(a@ == step_view(pre, ev).1);
                    }
                    a
                }
            },
            ResolveEvent::FileRead(maybe_bytes) => {
                let loaded: Result<LoadedModel, String> = match &maybe_bytes {
                    Some(bytes) => load_definition(bytes),
                    None => Err(String::from_str("could not read file")),
                };
                match self.phase {
                    Phase::AwaitFile => {
                        match loaded {
                            Ok(t) => {
                                self.trace.push(
                                    String::from_str("Successfully loaded tokenizer from file"),
                                );
                                self.phase = Phase::Done;
                                let a = ResolveAction::Finished(Ok(t));
                                proof {
                                    assert(self.trace.deep_view() =~= pre.trace.push(msg_local_ok()));
                                    assert(self@ =~= step_view(pre, ev).0);
                                }
                                a
                            },
                            Err(e) => {
                                self.trace.push(String::from_str("Error loading from file"));
                                self.phase = Phase::Done;
                                let a = ResolveAction::Finished(Err(e));
                                proof {
                                    assert(self.trace.deep_view() =~= pre.trace.push(msg_local_err()));
                                    assert(self@ =~= step_view(pre, ev).0);
                                }
                                a
                            },
                        }
                    },
                    Phase::AwaitSnapshot => {
                        match loaded {
                            Ok(t) => {
                                self.trace.push(String::from_str("Successfully loaded from cache"));
                                self.phase = Phase::Done;
                                let a = ResolveAction::Finished(Ok(t));
                                proof {
                                    assert(self.trace.deep_view() =~= pre.trace.push(msg_cache_ok()));
                                    assert(self@ =~= step_view(pre, ev).0);
                                }
                                a
                            },
                            Err(_) => {
                                if maybe_bytes.is_some() {
                                    self.trace.push(String::from_str("Error loading from cache file"));
                                    proof {
                                        assert(self.trace.deep_view() =~= pre.trace.push(
                                            msg_cache_err(),
                                        ));
                                        assert(self@ =~= (ResolverV {
                                            trace: pre.trace.push(msg_cache_err()),
                                            ..pre
                                        }));
                                    }
                                }
                                self.advance()
                            },
                        }
                    },
                    _ => {
                        // Excluded by `event_fits`.
                        proof {
                            assert(false);
                        }
                        ResolveAction::Finished(Err(String::new()))
                    },
                }
            },
            ResolveEvent::HubFetched(outcome) => {
                match outcome {
                    Ok(t) => {
                        self.trace.push(String::from_str("Successfully loaded from the model hub"));
                        self.phase = Phase::Done;
                        let a = ResolveAction::Finished(Ok(t));
                        proof {
                            assert(self.trace.deep_view() =~= pre.trace.push(msg_hub_ok()));
                            assert(self@ =~= step_view(pre, ev).0);
                        }
                        a
                    },
                    Err(err) => {
                        let head = concat3("Failed to load '", self.model.as_str(), "' from the model hub: ");
                        self.trace.push(concat2(head.as_str(), err.as_str()));
                        let dir = cache_dir_for(self.model.as_str());
                        self.trace.push(concat2("Trying to find in cache: ", dir.as_str()));
                        self.phase = Phase::AwaitDirs;
                        self.hub_error = Some(err);
                        let a = ResolveAction::ListDir(dir);
                        proof {
                            assert(msg_hub_err(pre.model, ev->HubErr_0) =~= "Failed to load '"@
                                + pre.model + "' from the model hub: "@ + ev->HubErr_0);
                            assert(self.trace.deep_view() =~= pre.trace.push(
                                msg_hub_err(pre.model, ev->HubErr_0),
                            ).push(msg_cache_try(pre.model)));
                            assert(self@ =~= step_view(pre, ev).0);
                        }
                        a
                    },
                }
            },
            ResolveEvent::DirListed(maybe_names) => {
                match maybe_names {
                    None => {
                        self.phase = Phase::Done;
                        let err = match &self.hub_error {
                            Some(e) => e.clone(),
                            None => String::new(),
                        };
                        let a = ResolveAction::Finished(Err(err));
                        proof {
                            assert(self@ =~= step_view(pre, ev).0);
                        }
                        a
                    },
                    Some(names) => {
                        self.trace.push(
                            String::from_str("Cache directory exists, looking for tokenizer.json"),
                        );
                        self.pending = names;
                        proof {
                            assert(self.trace.deep_view() =~= pre.trace.push(msg_cache_scan()));
                            assert(self@ =~= (ResolverV {
                                trace: pre.trace.push(msg_cache_scan()),
                                pending: ev->DirListed_0->Some_0,
                                ..pre
                            }));
                        }
                        self.advance()
                    },
                }
            },
        }
    }
}

} // verus!
