//! The component resolver: for one requested component, what is to be
//! asked of the file system, the cache and the metadata service, in which
//! order, and what the answers make of the component.
//!
//! A [`Resolution`] never reads, fetches or waits itself. It names the next
//! thing to do as a [`Command`], and is told what came of it as a
//! [`Reply`]. An override comes first and is final; then the cache; then
//! the metadata service.

use crate::cache::{cache_loaded_component_code, get_cached_component_code};
use crate::fetch::{
    first_attempt,
    plan_after,
    FetchEvent,
    FetchPlan,
    FetchReply,
    FetchState,
    FetchStep,
    Fetcher,
};
use crate::load::{
    build_component_filepath,
    component_file_url,
    get_component_js_paths,
    manifest_file,
    manifest_paths,
    request_component_js_paths,
};
use crate::query::{Pair, QueryParam};
use crate::text::optional_text;
use crate::transform::{remove_logging_code, strip_logging};
use vstd::prelude::*;
use vstd::string::*;

verus! {

/// The settings that every resolution of the process works under.
#[derive(Debug, Clone, PartialEq, Eq)]
pub struct Settings {
    /// Host, and port where there is one, of the metadata service.
    pub server: String,
    /// Whether resolved components are cached.
    pub use_cache: bool,
    /// The names of the components that are never stored in the cache.
    pub cache_exclude: Vec<String>,
    /// The directory that holds local overrides, where there is one.
    pub override_root: Option<String>,
    /// Whether the logging literals are taken out of fetched code.
    pub strip_logging: bool,
}

/// What [`Settings`] hold, as far as a resolution reads them.
pub struct Policy {
    pub server: Seq<char>,
    pub use_cache: bool,
    pub excluded: Seq<Seq<char>>,
    pub overrides: bool,
    pub strip_logging: bool,
}

/// A resolved component: its name, its version (empty for an override) and
/// its code.
#[derive(Debug, Clone, PartialEq, Eq)]
pub struct LoadedComponent {
    pub name: String,
    pub version: String,
    pub code: String,
}

/// What a [`LoadedComponent`] holds, as sequences of characters.
pub struct Component {
    pub name: Seq<char>,
    pub version: Seq<char>,
    pub code: Seq<char>,
}

/// The next thing to do for a component.
#[derive(Debug, Clone, PartialEq, Eq)]
pub enum Command {
    /// Find out whether the override directory of the component `name`
    /// exists, and report `Exists`.
    ProbeOverride { name: String },
    /// Read `file` in the override directory of the component `name`, and
    /// report `Read`.
    ReadOverride { name: String, file: String },
    /// Look the component up in the cache, and report `Cached`.
    Lookup { name: String, version: String },
    /// Store the code of the component in the cache, and report `Stored`.
    Store { name: String, version: String, code: String },
    /// Request `url` once, and report `Fetched`.
    Fetch { url: String },
    /// Wait for `millis` milliseconds, and report `Waited`.
    Wait { millis: u64 },
}

/// What a [`Command`] holds.
pub enum Action {
    ProbeOverride { name: Seq<char> },
    ReadOverride { name: Seq<char>, file: Seq<char> },
    Lookup { name: Seq<char>, version: Seq<char> },
    Store { name: Seq<char>, version: Seq<char>, code: Seq<char> },
    Fetch { url: Seq<char> },
    Wait { millis: u64 },
}

/// What came of a [`Command`].
#[derive(Debug, Clone, PartialEq, Eq)]
pub enum Reply {
    /// Whether the override directory exists.
    Exists(bool),
    /// The text of the file, or `None` where it is missing or unreadable.
    Read(Option<String>),
    /// The code found in the cache, if any.
    Cached(Option<String>),
    /// The code is stored.
    Stored,
    /// The text that the request brought, or `None` where it failed in
    /// transport.
    Fetched(Option<String>),
    /// The wait is over.
    Waited,
}

/// What a [`Reply`] holds.
pub enum Event {
    Exists(bool),
    Read(Option<Seq<char>>),
    Cached(Option<Seq<char>>),
    Stored,
    Fetched(Option<Seq<char>>),
    Waited,
}

#[derive(Debug)]
enum Phase {
    Probe,
    OverrideManifest,
    OverrideFiles { paths: Vec<String>, next: usize, code: String },
    Lookup,
    RemoteManifest { fetch: Fetcher },
    RemoteFiles { paths: Vec<String>, next: usize, code: String, fetch: Fetcher },
    Store { code: String },
}

/// How far the resolution of a component has come, by what it waits for.
pub enum Stage {
    /// Whether an override directory exists.
    Probe,
    /// The text of the override's manifest.
    OverrideManifest,
    /// The text of the override file `paths[next]`; `code` is what the
    /// files before it gave.
    OverrideFiles { paths: Seq<Seq<char>>, next: nat, code: Seq<char> },
    /// What the cache holds.
    Lookup,
    /// The manifest from the metadata service.
    RemoteManifest { fetch: FetchState },
    /// The file `paths[next]` from the metadata service; `code` is what the
    /// files before it gave.
    RemoteFiles { paths: Seq<Seq<char>>, next: nat, code: Seq<char>, fetch: FetchState },
    /// The cache taking `code`.
    Store { code: Seq<char> },
}

/// The resolution of one component, under way.
#[derive(Debug)]
pub struct Resolution {
    name: String,
    version: String,
    phase: Phase,
}

/// What a [`Resolution`] holds.
pub struct Progress {
    pub name: Seq<char>,
    pub version: Seq<char>,
    pub stage: Stage,
}

/// What a resolution has come to: a command and the resolution that takes
/// the reply to it, or the end.
#[derive(Debug)]
pub enum Step {
    /// Do `command` and hand the reply to `next`.
    Ask { command: Command, next: Resolution },
    /// The resolution is over: the component, or `None` where it is
    /// dropped.
    Done(Option<LoadedComponent>),
}

/// What a [`Step`] holds.
pub enum Outcome {
    Ask { action: Action, next: Progress },
    Done(Option<Component>),
}

impl View for Settings {
    type V = Policy;

    open spec fn view(&self) -> Policy {
        Policy {
            server: self.server@,
            use_cache: self.use_cache,
            excluded: self.cache_exclude.deep_view(),
            overrides: self.override_root is Some,
            strip_logging: self.strip_logging,
        }
    }
}

impl View for LoadedComponent {
    type V = Component;

    open spec fn view(&self) -> Component {
        Component { name: self.name@, version: self.version@, code: self.code@ }
    }
}

impl View for Command {
    type V = Action;

    open spec fn view(&self) -> Action {
        match self {
            Command::ProbeOverride { name } => Action::ProbeOverride { name: name@ },
            Command::ReadOverride { name, file } => Action::ReadOverride {
                name: name@,
                file: file@,
            },
            Command::Lookup { name, version } => Action::Lookup { name: name@, version: version@ },
            Command::Store { name, version, code } => Action::Store {
                name: name@,
                version: version@,
                code: code@,
            },
            Command::Fetch { url } => Action::Fetch { url: url@ },
            Command::Wait { millis } => Action::Wait { millis: *millis },
        }
    }
}

impl View for Reply {
    type V = Event;

    open spec fn view(&self) -> Event {
        match self {
            Reply::Exists(exists) => Event::Exists(*exists),
            Reply::Read(text) => Event::Read(optional_text(*text)),
            Reply::Cached(code) => Event::Cached(optional_text(*code)),
            Reply::Stored => Event::Stored,
            Reply::Fetched(text) => Event::Fetched(optional_text(*text)),
            Reply::Waited => Event::Waited,
        }
    }
}

impl View for Phase {
    type V = Stage;

    closed spec fn view(&self) -> Stage {
        match self {
            Phase::Probe => Stage::Probe,
            Phase::OverrideManifest => Stage::OverrideManifest,
            Phase::OverrideFiles { paths, next, code } => Stage::OverrideFiles {
                paths: paths.deep_view(),
                next: *next as nat,
                code: code@,
            },
            Phase::Lookup => Stage::Lookup,
            Phase::RemoteManifest { fetch } => Stage::RemoteManifest { fetch: fetch@ },
            Phase::RemoteFiles { paths, next, code, fetch } => Stage::RemoteFiles {
                paths: paths.deep_view(),
                next: *next as nat,
                code: code@,
                fetch: fetch@,
            },
            Phase::Store { code } => Stage::Store { code: code@ },
        }
    }
}

impl View for Resolution {
    type V = Progress;

    closed spec fn view(&self) -> Progress {
        Progress { name: self.name@, version: self.version@, stage: self.phase@ }
    }
}

impl View for Step {
    type V = Outcome;

    open spec fn view(&self) -> Outcome {
        match self {
            Step::Ask { command, next } => Outcome::Ask { action: command@, next: next@ },
            Step::Done(Some(component)) => Outcome::Done(Some(component@)),
            Step::Done(None) => Outcome::Done(None),
        }
    }
}

/// The step that starts on the metadata service: the request for the
/// manifest of the component.
pub open spec fn enter_remote(policy: Policy, name: Seq<char>, version: Seq<char>) -> Outcome {
    let url = component_file_url(policy.server, name, version, manifest_file());
    Outcome::Ask {
        action: Action::Fetch { url },
        next: Progress {
            name,
            version,
            stage: Stage::RemoteManifest { fetch: first_attempt(url) },
        },
    }
}

/// The step that follows when no override stands in the way: the cache is
/// asked where caching is on, else the metadata service.
pub open spec fn enter_cache(policy: Policy, name: Seq<char>, version: Seq<char>) -> Outcome {
    if policy.use_cache {
        Outcome::Ask {
            action: Action::Lookup { name, version },
            next: Progress { name, version, stage: Stage::Lookup },
        }
    } else {
        enter_remote(policy, name, version)
    }
}

/// The first step for a request. A request without a version is dropped.
/// Where an override directory is configured it is probed first.
pub open spec fn first_outcome(policy: Policy, request: Pair) -> Outcome {
    match request.value {
        None => Outcome::Done(None),
        Some(version) => if policy.overrides {
            Outcome::Ask {
                action: Action::ProbeOverride { name: request.name },
                next: Progress { name: request.name, version, stage: Stage::Probe },
            }
        } else {
            enter_cache(policy, request.name, version)
        },
    }
}

/// The step after file `next` of an override was read, or found missing:
/// the next file, or the component once the last file is through. A
/// missing file adds nothing and stops nothing. An override has no version.
pub open spec fn after_override_file(
    name: Seq<char>,
    version: Seq<char>,
    paths: Seq<Seq<char>>,
    next: nat,
    code: Seq<char>,
) -> Outcome {
    if next + 1 < paths.len() {
        Outcome::Ask {
            action: Action::ReadOverride { name, file: paths[(next + 1) as int] },
            next: Progress {
                name,
                version,
                stage: Stage::OverrideFiles { paths, next: next + 1, code },
            },
        }
    } else {
        Outcome::Done(Some(Component { name, version: Seq::empty(), code }))
    }
}

/// The step after the manifest of an override was read: its first file,
/// or the end where the text lists no paths.
pub open spec fn after_override_manifest(name: Seq<char>, version: Seq<char>, text: Seq<char>)
    -> Outcome {
    match manifest_paths(text) {
        Some(paths) => Outcome::Ask {
            action: Action::ReadOverride { name, file: paths[0] },
            next: Progress {
                name,
                version,
                stage: Stage::OverrideFiles { paths, next: 0, code: Seq::empty() },
            },
        },
        None => Outcome::Done(None),
    }
}

/// The first request for file `index` of a component on the metadata
/// service.
pub open spec fn ask_remote_file(
    policy: Policy,
    name: Seq<char>,
    version: Seq<char>,
    paths: Seq<Seq<char>>,
    index: nat,
    code: Seq<char>,
) -> Outcome {
    let url = component_file_url(policy.server, name, version, paths[index as int]);
    Outcome::Ask {
        action: Action::Fetch { url },
        next: Progress {
            name,
            version,
            stage: Stage::RemoteFiles { paths, next: index, code, fetch: first_attempt(url) },
        },
    }
}

/// The step after the manifest arrived from the metadata service: the
/// request for its first file, or the end where the text lists no paths.
pub open spec fn after_remote_manifest(
    policy: Policy,
    name: Seq<char>,
    version: Seq<char>,
    text: Seq<char>,
) -> Outcome {
    match manifest_paths(text) {
        Some(paths) => ask_remote_file(policy, name, version, paths, 0, Seq::empty()),
        None => Outcome::Done(None),
    }
}

/// The code of a fetched component as it is handed on and cached: without
/// the logging literals where stripping is on.
pub open spec fn finished_code(policy: Policy, code: Seq<char>) -> Seq<char> {
    if policy.strip_logging {
        strip_logging(code)
    } else {
        code
    }
}

/// Whether the code of the component `name` goes into the cache.
pub open spec fn stores(policy: Policy, name: Seq<char>) -> bool {
    policy.use_cache && !policy.excluded.contains(name)
}

/// The step after the last file arrived from the metadata service: the
/// code is stored where the cache takes it, else the component is done.
pub open spec fn after_last_remote_file(
    policy: Policy,
    name: Seq<char>,
    version: Seq<char>,
    code: Seq<char>,
) -> Outcome {
    let finished = finished_code(policy, code);
    if stores(policy, name) {
        Outcome::Ask {
            action: Action::Store { name, version, code: finished },
            next: Progress { name, version, stage: Stage::Store { code: finished } },
        }
    } else {
        Outcome::Done(Some(Component { name, version, code: finished }))
    }
}

/// What a reply means to a fetch under way, `None` where it is no reply to
/// a request or a wait.
pub open spec fn fetch_event(event: Event) -> Option<FetchEvent> {
    match event {
        Event::Fetched(Some(text)) => Some(FetchEvent::Arrived(text)),
        Event::Fetched(None) => Some(FetchEvent::Failed),
        Event::Waited => Some(FetchEvent::Rested),
        _ => None,
    }
}

/// The step that a reply leads to. A reply that does not answer what the
/// resolution waits for ends it without a component.
pub open spec fn next_outcome(policy: Policy, progress: Progress, event: Event) -> Outcome {
    let name = progress.name;
    let version = progress.version;
    match progress.stage {
        Stage::Probe => match event {
            Event::Exists(true) => Outcome::Ask {
                action: Action::ReadOverride { name, file: manifest_file() },
                next: Progress { name, version, stage: Stage::OverrideManifest },
            },
            Event::Exists(false) => enter_cache(policy, name, version),
            _ => Outcome::Done(None),
        },
        Stage::OverrideManifest => match event {
            Event::Read(Some(text)) => after_override_manifest(name, version, text),
            _ => Outcome::Done(None),
        },
        Stage::OverrideFiles { paths, next, code } => match event {
            Event::Read(Some(text)) => after_override_file(name, version, paths, next, code + text),
            Event::Read(None) => after_override_file(name, version, paths, next, code),
            _ => Outcome::Done(None),
        },
        Stage::Lookup => match event {
            Event::Cached(Some(code)) => Outcome::Done(Some(Component { name, version, code })),
            Event::Cached(None) => enter_remote(policy, name, version),
            _ => Outcome::Done(None),
        },
        Stage::RemoteManifest { fetch } => match fetch_event(event) {
            Some(fetched) => match plan_after(fetch, fetched) {
                FetchPlan::Request { state } => Outcome::Ask {
                    action: Action::Fetch { url: state.url },
                    next: Progress { name, version, stage: Stage::RemoteManifest { fetch: state } },
                },
                FetchPlan::Rest { state, millis } => Outcome::Ask {
                    action: Action::Wait { millis },
                    next: Progress { name, version, stage: Stage::RemoteManifest { fetch: state } },
                },
                FetchPlan::Done(Some(text)) => after_remote_manifest(policy, name, version, text),
                FetchPlan::Done(None) => Outcome::Done(None),
            },
            None => Outcome::Done(None),
        },
        Stage::RemoteFiles { paths, next, code, fetch } => match fetch_event(event) {
            Some(fetched) => match plan_after(fetch, fetched) {
                FetchPlan::Request { state } => Outcome::Ask {
                    action: Action::Fetch { url: state.url },
                    next: Progress {
                        name,
                        version,
                        stage: Stage::RemoteFiles { paths, next, code, fetch: state },
                    },
                },
                FetchPlan::Rest { state, millis } => Outcome::Ask {
                    action: Action::Wait { millis },
                    next: Progress {
                        name,
                        version,
                        stage: Stage::RemoteFiles { paths, next, code, fetch: state },
                    },
                },
                FetchPlan::Done(Some(text)) => if next + 1 < paths.len() {
                    ask_remote_file(policy, name, version, paths, next + 1, code + text)
                } else {
                    after_last_remote_file(policy, name, version, code + text)
                },
                FetchPlan::Done(None) => Outcome::Done(None),
            },
            None => Outcome::Done(None),
        },
        Stage::Store { code } => match event {
            Event::Stored => Outcome::Done(Some(Component { name, version, code })),
            _ => Outcome::Done(None),
        },
    }
}

/// Whether an outcome asks something of the cache.
pub open spec fn asks_cache(outcome: Outcome) -> bool {
    outcome matches Outcome::Ask { action, next } && (action is Lookup || action is Store)
}

/// The actions asked for, in order, while the replies are fed in one by
/// one, up to the end of the resolution or of the replies.
pub open spec fn actions_asked(policy: Policy, progress: Progress, events: Seq<Event>) -> Seq<
    Action,
>
    decreases events.len(),
{
    if events.len() == 0 {
        Seq::empty()
    } else {
        match next_outcome(policy, progress, events[0]) {
            Outcome::Ask { action, next } => seq![action] + actions_asked(
                policy,
                next,
                events.skip(1),
            ),
            Outcome::Done(_) => Seq::empty(),
        }
    }
}

/// Whether a resolution is reading an override.
pub open spec fn reads_override(stage: Stage) -> bool {
    stage is OverrideManifest || stage is OverrideFiles
}

/// A resolution that reads an override asks for nothing but files of the
/// override, whatever is reported: not for the cache, not for the metadata
/// service.
pub proof fn lemma_override_is_final(policy: Policy, progress: Progress, events: Seq<Event>)
    requires
        reads_override(progress.stage),
    ensures
        forall|i: int|
            0 <= i < actions_asked(policy, progress, events).len() ==> actions_asked(
                policy,
                progress,
                events,
            )[i] is ReadOverride,
    decreases events.len(),
{
    if events.len() > 0 {
        match next_outcome(policy, progress, events[0]) {
            Outcome::Ask { action, next } => {
                lemma_override_is_final(policy, next, events.skip(1));
            },
            Outcome::Done(_) => {},
        }
    }
}

/// Where an override root is set, the first thing asked for a request is
/// whether the override directory of its component exists. Once it is
/// reported to exist, the resolution asks for nothing but files of the
/// override, whatever is reported afterwards and whatever the cache holds.
pub proof fn lemma_existing_override_bypasses_cache_and_remote(
    policy: Policy,
    name: Seq<char>,
    version: Seq<char>,
    events: Seq<Event>,
)
    requires
        events.len() > 0,
        events[0] == Event::Exists(true),
    ensures
        policy.overrides ==> first_outcome(policy, Pair { name, value: Some(version) }) == (
        Outcome::Ask {
            action: Action::ProbeOverride { name },
            next: Progress { name, version, stage: Stage::Probe },
        }),
        forall|i: int|
            0 <= i < actions_asked(
                policy,
                Progress { name, version, stage: Stage::Probe },
                events,
            ).len() ==> actions_asked(
                policy,
                Progress { name, version, stage: Stage::Probe },
                events,
            )[i] is ReadOverride,
{
    let next = Progress { name, version, stage: Stage::OverrideManifest };
    lemma_override_is_final(policy, next, events.skip(1));
}

/// Where caching is on and no override exists, the cache is asked for the
/// component, and the code it reports is the code of the component as it
/// stands, with nothing asked of the metadata service.
pub proof fn lemma_cached_code_is_returned(
    policy: Policy,
    name: Seq<char>,
    version: Seq<char>,
    code: Seq<char>,
)
    ensures
        policy.use_cache ==> next_outcome(
            policy,
            Progress { name, version, stage: Stage::Probe },
            Event::Exists(false),
        ) == (Outcome::Ask {
            action: Action::Lookup { name, version },
            next: Progress { name, version, stage: Stage::Lookup },
        }),
        policy.use_cache && !policy.overrides ==> first_outcome(
            policy,
            Pair { name, value: Some(version) },
        ) == (Outcome::Ask {
            action: Action::Lookup { name, version },
            next: Progress { name, version, stage: Stage::Lookup },
        }),
        next_outcome(
            policy,
            Progress { name, version, stage: Stage::Lookup },
            Event::Cached(Some(code)),
        ) == Outcome::Done(Some(Component { name, version, code })),
{
}

/// A resolution stays with the component it was begun for: what it goes
/// on with and what it ends with carry the name of the request, and its
/// version or, for an override, none.
pub proof fn lemma_outcome_keeps_request(policy: Policy, progress: Progress, event: Event)
    ensures
        match next_outcome(policy, progress, event) {
            Outcome::Ask { action, next } => next.name == progress.name && next.version
                == progress.version,
            Outcome::Done(Some(component)) => component.name == progress.name && (
            component.version == progress.version || (reads_override(progress.stage)
                && component.version == Seq::<char>::empty())),
            Outcome::Done(None) => true,
        },
{
}

/// Every wait that a resolution asks for is the rest between two attempts
/// on one URL, a tenth of a second long, and comes after a failed request.
pub proof fn lemma_waits_follow_failures(policy: Policy, progress: Progress, event: Event)
    ensures
        next_outcome(policy, progress, event) matches Outcome::Ask {
            action: Action::Wait { millis },
            next,
        } ==> millis == 100 && event == Event::Fetched(None),
{
}

/// The step that stands once the replies were fed in one by one, or the
/// end where the resolution is over before they are.
pub open spec fn outcome_after(policy: Policy, outcome: Outcome, events: Seq<Event>) -> Outcome
    decreases events.len(),
{
    if events.len() == 0 {
        outcome
    } else {
        match outcome {
            Outcome::Ask { action, next } => outcome_after(
                policy,
                next_outcome(policy, next, events[0]),
                events.skip(1),
            ),
            Outcome::Done(_) => outcome,
        }
    }
}

/// The replies that report each of the texts as fetched, in order.
pub open spec fn all_fetched(texts: Seq<Seq<char>>) -> Seq<Event> {
    Seq::new(texts.len(), |i: int| Event::Fetched(Some(texts[i])))
}

/// The replies that report each of the files as read or missing, in order.
pub open spec fn all_read(files: Seq<Option<Seq<char>>>) -> Seq<Event> {
    Seq::new(files.len(), |i: int| Event::Read(files[i]))
}

/// The texts of the files that were there, one behind the other.
pub open spec fn present_code(files: Seq<Option<Seq<char>>>) -> Seq<char>
    decreases files.len(),
{
    if files.len() == 0 {
        Seq::empty()
    } else {
        (match files[0] {
            Some(text) => text,
            None => Seq::empty(),
        }) + present_code(files.skip(1))
    }
}

proof fn lemma_remote_files_run(
    policy: Policy,
    name: Seq<char>,
    version: Seq<char>,
    paths: Seq<Seq<char>>,
    next: nat,
    code: Seq<char>,
    texts: Seq<Seq<char>>,
)
    requires
        next < paths.len(),
        texts.len() == paths.len() - next,
    ensures
        outcome_after(
            policy,
            ask_remote_file(policy, name, version, paths, next, code),
            all_fetched(texts),
        ) == after_last_remote_file(policy, name, version, code + texts.flatten()),
    decreases texts.len(),
{
    let events = all_fetched(texts);
    let rest = texts.skip(1);
    assert(events[0] == Event::Fetched(Some(texts[0])));
    assert(events.skip(1) =~= all_fetched(rest));
    assert(texts.drop_first() =~= rest);
    assert(texts.flatten() == texts[0] + rest.flatten());
    assert(code + texts.flatten() =~= (code + texts[0]) + rest.flatten());
    let start = ask_remote_file(policy, name, version, paths, next, code);
    let after_first = next_outcome(policy, start->next, events[0]);
    assert(outcome_after(policy, start, events) == outcome_after(
        policy,
        after_first,
        events.skip(1),
    ));
    if next + 1 < paths.len() {
        assert(after_first == ask_remote_file(
            policy,
            name,
            version,
            paths,
            next + 1,
            code + texts[0],
        ));
        lemma_remote_files_run(policy, name, version, paths, next + 1, code + texts[0], rest);
    } else {
        assert(after_first == after_last_remote_file(policy, name, version, code + texts[0]));
        assert(events.skip(1).len() == 0);
        assert(rest.flatten() =~= Seq::<char>::empty());
        assert((code + texts[0]) + Seq::<char>::empty() =~= code + texts[0]);
    }
}

/// Where the manifest and each file it lists arrive, the code of the
/// component is the texts of the files joined in the order of the manifest,
/// without the logging literals where stripping is on. It is stored where
/// the cache takes it, and then handed on.
pub proof fn lemma_remote_code_is_joined_in_manifest_order(
    policy: Policy,
    name: Seq<char>,
    version: Seq<char>,
    manifest: Seq<char>,
    texts: Seq<Seq<char>>,
)
    requires
        manifest_paths(manifest) matches Some(paths) && paths.len() == texts.len() && paths.len()
            > 0,
    ensures
        outcome_after(
            policy,
            enter_remote(policy, name, version),
            seq![Event::Fetched(Some(manifest))] + all_fetched(texts),
        ) == after_last_remote_file(policy, name, version, texts.flatten()),
        next_outcome(
            policy,
            Progress {
                name,
                version,
                stage: Stage::Store { code: finished_code(policy, texts.flatten()) },
            },
            Event::Stored,
        ) == Outcome::Done(
            Some(Component { name, version, code: finished_code(policy, texts.flatten()) }),
        ),
{
    let paths = manifest_paths(manifest)->0;
    let events = seq![Event::Fetched(Some(manifest))] + all_fetched(texts);
    assert(events[0] == Event::Fetched(Some(manifest)));
    assert(events.skip(1) =~= all_fetched(texts));
    lemma_remote_files_run(policy, name, version, paths, 0, Seq::empty(), texts);
    assert(Seq::<char>::empty() + texts.flatten() =~= texts.flatten());
}

proof fn lemma_override_files_run(
    policy: Policy,
    name: Seq<char>,
    version: Seq<char>,
    paths: Seq<Seq<char>>,
    next: nat,
    code: Seq<char>,
    files: Seq<Option<Seq<char>>>,
)
    requires
        next < paths.len(),
        files.len() == paths.len() - next,
    ensures
        outcome_after(
            policy,
            Outcome::Ask {
                action: Action::ReadOverride { name, file: paths[next as int] },
                next: Progress { name, version, stage: Stage::OverrideFiles { paths, next, code } },
            },
            all_read(files),
        ) == Outcome::Done(
            Some(Component { name, version: Seq::empty(), code: code + present_code(files) }),
        ),
    decreases files.len(),
{
    let events = all_read(files);
    let rest = files.skip(1);
    let first = match files[0] {
        Some(text) => text,
        None => Seq::<char>::empty(),
    };
    assert(events[0] == Event::Read(files[0]));
    assert(events.skip(1) =~= all_read(rest));
    assert(code + present_code(files) =~= (code + first) + present_code(rest));
    assert(code + Seq::<char>::empty() =~= code);
    let start = Outcome::Ask {
        action: Action::ReadOverride { name, file: paths[next as int] },
        next: Progress { name, version, stage: Stage::OverrideFiles { paths, next, code } },
    };
    let after_first = next_outcome(policy, start->next, events[0]);
    assert(outcome_after(policy, start, events) == outcome_after(
        policy,
        after_first,
        events.skip(1),
    ));
    assert(after_first == after_override_file(name, version, paths, next, code + first));
    if next + 1 < paths.len() {
        lemma_override_files_run(policy, name, version, paths, next + 1, code + first, rest);
    } else {
        assert(events.skip(1).len() == 0);
        assert(present_code(rest) =~= Seq::<char>::empty());
        assert((code + first) + Seq::<char>::empty() =~= code + first);
    }
}

/// Where the manifest of an override is read, the code of the component is
/// the texts of the files it lists, joined in its order, with the missing
/// ones left out. The component has no version, and its code is not
/// stripped.
pub proof fn lemma_override_code_is_joined_in_manifest_order(
    policy: Policy,
    name: Seq<char>,
    version: Seq<char>,
    manifest: Seq<char>,
    files: Seq<Option<Seq<char>>>,
)
    requires
        manifest_paths(manifest) matches Some(paths) && paths.len() == files.len() && paths.len()
            > 0,
    ensures
        outcome_after(
            policy,
            next_outcome(
                policy,
                Progress { name, version, stage: Stage::Probe },
                Event::Exists(true),
            ),
            seq![Event::Read(Some(manifest))] + all_read(files),
        ) == Outcome::Done(
            Some(Component { name, version: Seq::empty(), code: present_code(files) }),
        ),
{
    let paths = manifest_paths(manifest)->0;
    let events = seq![Event::Read(Some(manifest))] + all_read(files);
    assert(events[0] == Event::Read(Some(manifest)));
    assert(events.skip(1) =~= all_read(files));
    lemma_override_files_run(policy, name, version, paths, 0, Seq::empty(), files);
    assert(Seq::<char>::empty() + present_code(files) =~= present_code(files));
}

/// Whether `name` stands in the list of components kept out of the cache.
fn is_excluded(settings: &Settings, name: &String) -> (excluded: bool)
    ensures
        excluded == settings@.excluded.contains(name@),
{
    let mut i: usize = 0;
    while i < settings.cache_exclude.len()
        invariant
            i <= settings.cache_exclude.len(),
            forall|j: int| 0 <= j < i ==> settings@.excluded[j] != name@,
        decreases settings.cache_exclude.len() - i,
    {
        if settings.cache_exclude[i] == *name {
            assert(settings@.excluded[i as int] == name@);
            return true;
        }
        i += 1;
    }
    false
}

impl Resolution {
    #[verifier::type_invariant]
    spec fn in_range(self) -> bool {
        match self.phase {
            Phase::OverrideFiles { paths, next, code } => next < paths.len(),
            Phase::RemoteFiles { paths, next, code, fetch } => next < paths.len(),
            _ => true,
        }
    }

    /// The name of the component that is resolved.
    pub fn name(&self) -> (name: &String)
        ensures
            name@ == self@.name,
    {
        &self.name
    }

    /// The version of the component that is resolved.
    pub fn version(&self) -> (version: &String)
        ensures
            version@ == self@.version,
    {
        &self.version
    }

    fn start_remote(settings: &Settings, name: String, version: String) -> (step: Step)
        ensures
            step@ == enter_remote(settings@, name@, version@),
    {
        let url = build_component_filepath(
            settings.server.as_str(),
            name.as_str(),
            version.as_str(),
            "diversity.json",
        );
        Step::Ask {
            command: Command::Fetch { url: url.clone() },
            next: Resolution {
                name,
                version,
                phase: Phase::RemoteManifest { fetch: Fetcher::start(url) },
            },
        }
    }

    fn start_cache(settings: &Settings, name: String, version: String) -> (step: Step)
        ensures
            step@ == enter_cache(settings@, name@, version@),
    {
        if settings.use_cache {
            Step::Ask {
                command: Command::Lookup { name: name.clone(), version: version.clone() },
                next: Resolution { name, version, phase: Phase::Lookup },
            }
        } else {
            Resolution::start_remote(settings, name, version)
        }
    }

    /// Starts the resolution of one request, see [`first_outcome`].
    pub fn begin(settings: &Settings, request: &QueryParam) -> (step: Step)
        ensures
            step@ == first_outcome(settings@, request@),
    {
        match &request.value {
            None => Step::Done(None),
            Some(version) => {
                if settings.override_root.is_some() {
                    Step::Ask {
                        command: Command::ProbeOverride { name: request.name.clone() },
                        next: Resolution {
                            name: request.name.clone(),
                            version: version.clone(),
                            phase: Phase::Probe,
                        },
                    }
                } else {
                    Resolution::start_cache(settings, request.name.clone(), version.clone())
                }
            },
        }
    }

    fn override_file_done(
        name: String,
        version: String,
        paths: Vec<String>,
        next: usize,
        code: String,
    ) -> (step: Step)
        requires
            next < paths.len(),
        ensures
            step@ == after_override_file(
                name@,
                version@,
                paths.deep_view(),
                next as nat,
                code@,
            ),
    {
        if next + 1 < paths.len() {
            Step::Ask {
                command: Command::ReadOverride {
                    name: name.clone(),
                    file: paths[next + 1].clone(),
                },
                next: Resolution {
                    name,
                    version,
                    phase: Phase::OverrideFiles { paths, next: next + 1, code },
                },
            }
        } else {
            Step::Done(Some(LoadedComponent { name, version: String::new(), code }))
        }
    }

    fn remote_file(
        settings: &Settings,
        name: String,
        version: String,
        paths: Vec<String>,
        index: usize,
        code: String,
    ) -> (step: Step)
        requires
            index < paths.len(),
        ensures
            step@ == ask_remote_file(
                settings@,
                name@,
                version@,
                paths.deep_view(),
                index as nat,
                code@,
            ),
    {
        let url = build_component_filepath(
            settings.server.as_str(),
            name.as_str(),
            version.as_str(),
            paths[index].as_str(),
        );
        Step::Ask {
            command: Command::Fetch { url: url.clone() },
            next: Resolution {
                name,
                version,
                phase: Phase::RemoteFiles { paths, next: index, code, fetch: Fetcher::start(url) },
            },
        }
    }

    fn remote_done(settings: &Settings, name: String, version: String, code: String) -> (step:
        Step)
        ensures
            step@ == after_last_remote_file(settings@, name@, version@, code@),
    {
        let finished = if settings.strip_logging {
            remove_logging_code(&code)
        } else {
            code
        };
        if settings.use_cache && !is_excluded(settings, &name) {
            Step::Ask {
                command: Command::Store {
                    name: name.clone(),
                    version: version.clone(),
                    code: finished.clone(),
                },
                next: Resolution { name, version, phase: Phase::Store { code: finished } },
            }
        } else {
            Step::Done(Some(LoadedComponent { name, version, code: finished }))
        }
    }

    /// Takes the reply to the command that was asked last, see
    /// [`next_outcome`].
    pub fn step(self, settings: &Settings, reply: Reply) -> (step: Step)
        ensures
            step@ == next_outcome(settings@, self@, reply@),
    {
        proof {
            use_type_invariant(&self);
        }
        let ghost progress = self@;
        let Resolution { name, version, phase } = self;
        match phase {
            Phase::Probe => match reply {
                Reply::Exists(true) => Step::Ask {
                    command: Command::ReadOverride {
                        name: name.clone(),
                        file: String::from_str("diversity.json"),
                    },
                    next: Resolution { name, version, phase: Phase::OverrideManifest },
                },
                Reply::Exists(false) => Resolution::start_cache(settings, name, version),
                _ => Step::Done(None),
            },
            Phase::OverrideManifest => match reply {
                Reply::Read(Some(text)) => match get_component_js_paths(&text) {
                    Some(paths) => Step::Ask {
                        command: Command::ReadOverride {
                            name: name.clone(),
                            file: paths[0].clone(),
                        },
                        next: Resolution {
                            name,
                            version,
                            phase: Phase::OverrideFiles { paths, next: 0, code: String::new() },
                        },
                    },
                    None => Step::Done(None),
                },
                _ => Step::Done(None),
            },
            Phase::OverrideFiles { paths, next, code } => match reply {
                Reply::Read(Some(text)) => {
                    let mut code = code;
                    code.append(text.as_str());
                    Resolution::override_file_done(name, version, paths, next, code)
                },
                Reply::Read(None) => Resolution::override_file_done(
                    name,
                    version,
                    paths,
                    next,
                    code,
                ),
                _ => Step::Done(None),
            },
            Phase::Lookup => match reply {
                Reply::Cached(Some(code)) => Step::Done(
                    Some(LoadedComponent { name, version, code }),
                ),
                Reply::Cached(None) => Resolution::start_remote(settings, name, version),
                _ => Step::Done(None),
            },
            Phase::RemoteManifest { fetch } => {
                let fetched = match reply {
                    Reply::Fetched(Some(text)) => FetchReply::Arrived(text),
                    Reply::Fetched(None) => FetchReply::Failed,
                    Reply::Waited => FetchReply::Rested,
                    _ => { return Step::Done(None); },
                };
                match fetch.after(fetched) {
                    FetchStep::Request { fetcher } => Step::Ask {
                        command: Command::Fetch { url: fetcher.url().clone() },
                        next: Resolution {
                            name,
                            version,
                            phase: Phase::RemoteManifest { fetch: fetcher },
                        },
                    },
                    FetchStep::Rest { fetcher, millis } => Step::Ask {
                        command: Command::Wait { millis },
                        next: Resolution {
                            name,
                            version,
                            phase: Phase::RemoteManifest { fetch: fetcher },
                        },
                    },
                    FetchStep::Done(Some(text)) => match request_component_js_paths(
                        &name,
                        &version,
                        &text,
                    ) {
                        Some(collection) => Resolution::remote_file(
                            settings,
                            name,
                            version,
                            collection.paths,
                            0,
                            String::new(),
                        ),
                        None => Step::Done(None),
                    },
                    FetchStep::Done(None) => Step::Done(None),
                }
            },
            Phase::RemoteFiles { paths, next, code, fetch } => {
                let fetched = match reply {
                    Reply::Fetched(Some(text)) => FetchReply::Arrived(text),
                    Reply::Fetched(None) => FetchReply::Failed,
                    Reply::Waited => FetchReply::Rested,
                    _ => { return Step::Done(None); },
                };
                match fetch.after(fetched) {
                    FetchStep::Request { fetcher } => Step::Ask {
                        command: Command::Fetch { url: fetcher.url().clone() },
                        next: Resolution {
                            name,
                            version,
                            phase: Phase::RemoteFiles { paths, next, code, fetch: fetcher },
                        },
                    },
                    FetchStep::Rest { fetcher, millis } => Step::Ask {
                        command: Command::Wait { millis },
                        next: Resolution {
                            name,
                            version,
                            phase: Phase::RemoteFiles { paths, next, code, fetch: fetcher },
                        },
                    },
                    FetchStep::Done(Some(text)) => {
                        let mut code = code;
                        code.append(text.as_str());
                        if next + 1 < paths.len() {
                            Resolution::remote_file(settings, name, version, paths, next + 1, code)
                        } else {
                            Resolution::remote_done(settings, name, version, code)
                        }
                    },
                    FetchStep::Done(None) => Step::Done(None),
                }
            },
            Phase::Store { code } => match reply {
                Reply::Stored => Step::Done(Some(LoadedComponent { name, version, code })),
                _ => Step::Done(None),
            },
        }
    }
}

impl Step {
    /// Does what a step asks of the cache, on `cache`, and returns the step
    /// that follows. A step that asks nothing of the cache is returned as it
    /// is. What a lookup finds is up to the cache, which every request of the
    /// process shares: the step that follows is the one for what was found.
    pub fn settle(self, settings: &Settings, cache: &chashmap::CHashMap<String, String>) -> (out:
        Step)
        ensures
            !asks_cache(out@),
            !asks_cache(self@) ==> out@ == self@,
            self@ matches Outcome::Ask { action: Action::Store { name, version, code }, next }
                ==> out@ == next_outcome(settings@, next, Event::Stored),
            self@ matches Outcome::Ask { action: Action::Lookup { name, version }, next }
                ==> exists|found: Option<Seq<char>>|
                out@ == next_outcome(settings@, next, Event::Cached(found)),
    {
        match self {
            Step::Ask { command: Command::Lookup { name, version }, next } => {
                let found = get_cached_component_code(cache, &name, &version);
                let ghost seen = optional_text(found);
                let out = next.step(settings, Reply::Cached(found));
                assert(out@ == next_outcome(settings@, next@, Event::Cached(seen)));
                out
            },
            Step::Ask { command: Command::Store { name, version, code }, next } => {
                cache_loaded_component_code(cache, &name, &version, &code);
                next.step(settings, Reply::Stored)
            },
            other => other,
        }
    }
}

} // verus!
