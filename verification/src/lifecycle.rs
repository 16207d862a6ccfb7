//! The order in which the engine's handles come into being and go away.
//!
//! Creating a view is a fixed run of calls into the engine, each of which may
//! fail. The functions here decide, from the outcome of one call, what comes
//! next: the following call, the end of the run, or giving up. The caller
//! makes the calls. What was created is recorded in a `HandleSet`, and that
//! set says what there is to release, and in which order, both when a run is
//! given up halfway and when a finished view is torn down.

use crate::error::Error;
use crate::text::{contains_text, occurs};
use vstd::prelude::*;
use vstd::string::StringExecFns;
use vstd::string::StringSliceAdditionalSpecFns;

verus! {

/// The width that a view is given before the host sizes it.
pub const DEFAULT_WIDTH: u32 = 1280;

/// The height that a view is given before the host sizes it.
pub const DEFAULT_HEIGHT: u32 = 720;

/// The title that a window is given before the host names it.
pub const DEFAULT_TITLE: &'static str = "WPE WebView";

/// The name of the rendering backend's library.
pub const BACKEND_LIBRARY: &'static str = "libWPEBackend-fdo-1.0.so";

/// What a runtime instance can hold of the engine.
#[derive(Debug, Clone, Copy, PartialEq, Eq, Structural)]
pub enum Resource {
    /// The signal connections that feed the queues.
    Signals,
    /// The engine's web view.
    WebView,
    /// The view that the web view renders to.
    View,
    /// The platform display.
    Display,
    /// The exporting backend that renders without a display.
    Exportable,
    /// The queue storage whose address the signal system holds.
    Queues,
}

/// One act of releasing, as a teardown asks for it.
#[derive(Debug, Clone, Copy, PartialEq, Eq, Structural)]
pub enum Release {
    /// Disconnect the signals, so that no callback fires any more.
    DisconnectSignals,
    /// Release the engine's web view.
    WebView,
    /// Release the view.
    View,
    /// Release the display.
    Display,
    /// Destroy the exporting backend.
    Exportable,
    /// Reclaim the queue storage.
    Queues,
}

/// What a runtime instance holds, one flag for each resource.
pub struct Handles {
    pub signals: bool,
    pub web_view: bool,
    pub view: bool,
    pub display: bool,
    pub exportable: bool,
    pub queues: bool,
}

impl Handles {
    /// Nothing is held.
    pub open spec fn none() -> Handles {
        Handles {
            signals: false,
            web_view: false,
            view: false,
            display: false,
            exportable: false,
            queues: false,
        }
    }

    /// Whether the resource is held.
    pub open spec fn holds(self, resource: Resource) -> bool {
        match resource {
            Resource::Signals => self.signals,
            Resource::WebView => self.web_view,
            Resource::View => self.view,
            Resource::Display => self.display,
            Resource::Exportable => self.exportable,
            Resource::Queues => self.queues,
        }
    }

    /// These handles and the resource besides.
    pub open spec fn with(self, resource: Resource) -> Handles {
        match resource {
            Resource::Signals => Handles { signals: true, ..self },
            Resource::WebView => Handles { web_view: true, ..self },
            Resource::View => Handles { view: true, ..self },
            Resource::Display => Handles { display: true, ..self },
            Resource::Exportable => Handles { exportable: true, ..self },
            Resource::Queues => Handles { queues: true, ..self },
        }
    }

    /// The releases that tear these handles down, in the order in which they
    /// are to be made: first the signals are disconnected, then the web view,
    /// the view, the display and the exporting backend are released, and the
    /// queue storage is reclaimed last. What is not held is left out.
    pub open spec fn release_plan(self) -> Seq<Release> {
        one_if(self.signals, Release::DisconnectSignals) + one_if(self.web_view, Release::WebView)
            + one_if(self.view, Release::View) + one_if(self.display, Release::Display) + one_if(
            self.exportable,
            Release::Exportable,
        ) + one_if(self.queues, Release::Queues)
    }
}

/// The release alone where the flag is set, and nothing where it is not.
pub open spec fn one_if(held: bool, release: Release) -> Seq<Release> {
    if held {
        seq![release]
    } else {
        Seq::empty()
    }
}

/// The place of a release in the order of a teardown.
pub open spec fn rank(release: Release) -> int {
    match release {
        Release::DisconnectSignals => 0,
        Release::WebView => 1,
        Release::View => 2,
        Release::Display => 3,
        Release::Exportable => 4,
        Release::Queues => 5,
    }
}

/// The release that gives a resource up.
pub open spec fn release_of(resource: Resource) -> Release {
    match resource {
        Resource::Signals => Release::DisconnectSignals,
        Resource::WebView => Release::WebView,
        Resource::View => Release::View,
        Resource::Display => Release::Display,
        Resource::Exportable => Release::Exportable,
        Resource::Queues => Release::Queues,
    }
}

/// A teardown releases exactly what is held, each thing once, and in the
/// strict order of the ranks. So the signals are disconnected before
/// anything else goes, and the queue storage goes after everything else.
pub proof fn lemma_release_order(handles: Handles)
    ensures
        forall|resource: Resource|
            handles.holds(resource) <==> handles.release_plan().contains(
                #[trigger] release_of(resource),
            ),
        forall|i: int, j: int|
            0 <= i < j < handles.release_plan().len() ==> rank(
                #[trigger] handles.release_plan()[i],
            ) < rank(#[trigger] handles.release_plan()[j]),
{
    let a = one_if(handles.signals, Release::DisconnectSignals);
    let b = one_if(handles.web_view, Release::WebView);
    let c = one_if(handles.view, Release::View);
    let d = one_if(handles.display, Release::Display);
    let e = one_if(handles.exportable, Release::Exportable);
    let f = one_if(handles.queues, Release::Queues);
    let plan = handles.release_plan();
    assert(plan == a + b + c + d + e + f);
    let ghost na = a.len() as int;
    let ghost nb = na + b.len();
    let ghost nc = nb + c.len();
    let ghost nd = nc + d.len();
    let ghost ne = nd + e.len();
    assert forall|k: int| 0 <= k < plan.len() implies {
        &&& (k < na ==> plan[k] == Release::DisconnectSignals && handles.signals)
        &&& (na <= k < nb ==> plan[k] == Release::WebView && handles.web_view)
        &&& (nb <= k < nc ==> plan[k] == Release::View && handles.view)
        &&& (nc <= k < nd ==> plan[k] == Release::Display && handles.display)
        &&& (nd <= k < ne ==> plan[k] == Release::Exportable && handles.exportable)
        &&& (ne <= k ==> plan[k] == Release::Queues && handles.queues)
    } by {}
    assert forall|resource: Resource|
        handles.holds(resource) <==> plan.contains(#[trigger] release_of(resource)) by {
        if handles.holds(resource) {
            let k = match resource {
                Resource::Signals => 0,
                Resource::WebView => na,
                Resource::View => nb,
                Resource::Display => nc,
                Resource::Exportable => nd,
                Resource::Queues => ne,
            };
            assert(plan[k] == release_of(resource));
        }
        if plan.contains(release_of(resource)) {
            let k = choose|k: int| 0 <= k < plan.len() && plan[k] == release_of(resource);
            assert(plan[k] == release_of(resource));
        }
    }
}

/// The handles that a runtime instance holds.
///
/// A handle may be used only while the set holds it: not before its creation
/// was recorded, and not once the teardown has begun.
#[derive(Debug)]
pub struct HandleSet {
    signals: bool,
    web_view: bool,
    view: bool,
    display: bool,
    exportable: bool,
    queues: bool,
}

impl View for HandleSet {
    type V = Handles;

    closed spec fn view(&self) -> Handles {
        Handles {
            signals: self.signals,
            web_view: self.web_view,
            view: self.view,
            display: self.display,
            exportable: self.exportable,
            queues: self.queues,
        }
    }
}

impl HandleSet {
    /// A set that holds nothing.
    pub fn new() -> (set: Self)
        ensures
            set@ == Handles::none(),
    {
        HandleSet {
            signals: false,
            web_view: false,
            view: false,
            display: false,
            exportable: false,
            queues: false,
        }
    }

    /// Whether the resource is held, and so may be used.
    pub fn holds(&self, resource: Resource) -> (held: bool)
        ensures
            held == self@.holds(resource),
    {
        match resource {
            Resource::Signals => self.signals,
            Resource::WebView => self.web_view,
            Resource::View => self.view,
            Resource::Display => self.display,
            Resource::Exportable => self.exportable,
            Resource::Queues => self.queues,
        }
    }

    /// Whether nothing is held.
    pub fn is_empty(&self) -> (empty: bool)
        ensures
            empty == (self@ == Handles::none()),
    {
        !self.signals && !self.web_view && !self.view && !self.display && !self.exportable
            && !self.queues
    }

    /// Record that a resource was created.
    pub fn acquire(&mut self, resource: Resource)
        ensures
            final(self)@ == old(self)@.with(resource),
    {
        match resource {
            Resource::Signals => {
                self.signals = true;
            },
            Resource::WebView => {
                self.web_view = true;
            },
            Resource::View => {
                self.view = true;
            },
            Resource::Display => {
                self.display = true;
            },
            Resource::Exportable => {
                self.exportable = true;
            },
            Resource::Queues => {
                self.queues = true;
            },
        }
    }

    /// Begin the teardown: the set gives up everything, and returns the
    /// releases that the caller has to make, in order. On a set that holds
    /// nothing, as after an earlier teardown, there is nothing to do.
    pub fn teardown(&mut self) -> (releases: Vec<Release>)
        ensures
            releases@ == old(self)@.release_plan(),
            final(self)@ == Handles::none(),
    {
        let mut releases: Vec<Release> = Vec::new();
        if self.signals {
            releases.push(Release::DisconnectSignals);
        }
        if self.web_view {
            releases.push(Release::WebView);
        }
        if self.view {
            releases.push(Release::View);
        }
        if self.display {
            releases.push(Release::Display);
        }
        if self.exportable {
            releases.push(Release::Exportable);
        }
        if self.queues {
            releases.push(Release::Queues);
        }
        proof {
            assert(releases@ =~= self@.release_plan());
        }
        self.signals = false;
        self.web_view = false;
        self.view = false;
        self.display = false;
        self.exportable = false;
        self.queues = false;
        releases
    }
}

/// A second teardown is a no-op: once a set was torn down, there is nothing
/// left to release.
pub proof fn lemma_teardown_once()
    ensures
        Handles::none().release_plan() == Seq::<Release>::empty(),
{
    assert(Handles::none().release_plan() =~= Seq::<Release>::empty());
}

/// The categories of events that the engine signals.
#[derive(Debug, Clone, Copy, PartialEq, Eq, Structural)]
pub enum SignalKind {
    /// A page script posted a message.
    ScriptMessage,
    /// The load state changed.
    LoadChanged,
    /// The page title changed.
    Title,
    /// The URL changed.
    Uri,
    /// The load progress changed.
    Progress,
}

impl SignalKind {
    /// The name of the signal, as the engine knows it.
    pub fn signal_name(self) -> (name: &'static str)
        ensures
            name@ == match self {
                SignalKind::ScriptMessage => "script-message-received::wpe"@,
                SignalKind::LoadChanged => "load-changed"@,
                SignalKind::Title => "notify::title"@,
                SignalKind::Uri => "notify::uri"@,
                SignalKind::Progress => "notify::estimated-load-progress"@,
            },
    {
        match self {
            SignalKind::ScriptMessage => "script-message-received::wpe",
            SignalKind::LoadChanged => "load-changed",
            SignalKind::Title => "notify::title",
            SignalKind::Uri => "notify::uri",
            SignalKind::Progress => "notify::estimated-load-progress",
        }
    }
}

/// One call into the engine while a view is created.
#[derive(Debug, Clone, Copy, PartialEq, Eq, Structural)]
pub enum Command {
    /// Load the rendering backend's library, once for the process.
    LoadBackend,
    /// Get the platform's default display, and take a hold on it.
    DefaultDisplay,
    /// Create a display that renders without a screen.
    HeadlessDisplay,
    /// Connect the display.
    ConnectDisplay,
    /// Create the exporting backend.
    CreateExportable,
    /// Get the view backend of the exporting backend.
    ViewBackend,
    /// Wrap the view backend for the web view.
    WebKitBackend,
    /// Create a view on the display.
    CreateView,
    /// Get the view that the web view made for itself.
    WebViewView,
    /// Create the web view.
    CreateWebView,
    /// Get the web view's user content manager.
    ContentManager,
    /// Pin the queue storage, so that its address stays the same for as long
    /// as the signal system holds it.
    PinQueues,
    /// Connect the signal of a category to its queue.
    ConnectSignal(SignalKind),
    /// Register the channel on which page scripts post messages.
    RegisterChannel,
    /// Give the view its first size, show it and give it the focus.
    ConfigureView,
    /// Give the window its first title.
    SetTitle,
}

/// Why the creation of a view was given up.
#[derive(Debug, Clone, Copy, PartialEq, Eq, Structural)]
pub enum Fault {
    /// The platform display is not available.
    InitFailed,
    /// The engine did not hand out a web view or one of its parts.
    WebViewCreationFailed,
    /// The headless display could not be created.
    HeadlessDisplay,
    /// The headless display could not be connected.
    HeadlessConnect,
    /// No view could be created on the headless display.
    HeadlessView,
    /// No web view could be created for the headless display.
    HeadlessWebView,
}

impl Fault {
    /// Whether an error is the report of this fault.
    pub open spec fn reports(self, error: Error) -> bool {
        match self {
            Fault::InitFailed => error is InitFailed,
            Fault::WebViewCreationFailed => error is WebViewCreationFailed,
            Fault::HeadlessDisplay => error matches Error::X11Error(text) && text@
                == "Failed to create headless WPE display"@,
            Fault::HeadlessConnect => error matches Error::X11Error(text) && text@
                == "Failed to connect headless display"@,
            Fault::HeadlessView => error matches Error::X11Error(text) && text@
                == "Failed to create WPE view"@,
            Fault::HeadlessWebView => error matches Error::X11Error(text) && text@
                == "Failed to create WebKit web view"@,
        }
    }

    /// Report the fault as an error.
    pub fn to_error(self) -> (error: Error)
        ensures
            self.reports(error),
    {
        match self {
            Fault::InitFailed => Error::InitFailed,
            Fault::WebViewCreationFailed => Error::WebViewCreationFailed,
            Fault::HeadlessDisplay => Error::X11Error(
                String::from_str("Failed to create headless WPE display"),
            ),
            Fault::HeadlessConnect => Error::X11Error(
                String::from_str("Failed to connect headless display"),
            ),
            Fault::HeadlessView => Error::X11Error(String::from_str("Failed to create WPE view")),
            Fault::HeadlessWebView => Error::X11Error(
                String::from_str("Failed to create WebKit web view"),
            ),
        }
    }
}

/// A creation that was given up: why, and what the caller has to release, in
/// order, so that nothing of the attempt is left behind.
#[derive(Debug)]
pub struct CreationFailure {
    pub error: Error,
    pub releases: Vec<Release>,
}

/// What a failed call means for the run.
#[derive(Debug, Clone, Copy, PartialEq, Eq, Structural)]
pub enum OnFailure {
    /// The run is given up with this fault.
    Abort(Fault),
    /// The run goes on with the next call.
    Continue,
    /// The run goes on, leaving out the given number of calls that depend on
    /// the failed one.
    Skip(usize),
}

/// One step of a run: the call to make, what it creates for the instance to
/// hold if it succeeds, and what its failure means.
#[derive(Debug, Clone, Copy, PartialEq, Eq, Structural)]
pub struct Step {
    pub command: Command,
    pub creates: Option<Resource>,
    pub on_failure: OnFailure,
}

/// The three ways in which a view is created.
#[derive(Debug, Clone, Copy, PartialEq, Eq, Structural)]
pub enum Flow {
    /// A window of its own on the platform's default display.
    Native,
    /// A view on a headless display, presented by the host.
    Headless,
    /// A web view on the exporting backend, embedded in a host window.
    Exported,
}

/// A step whose failure gives the run up.
pub open spec fn must(command: Command, creates: Option<Resource>, fault: Fault) -> Step {
    Step { command: command, creates: creates, on_failure: OnFailure::Abort(fault) }
}

/// A step whose failure is passed over.
pub open spec fn may(command: Command, creates: Option<Resource>) -> Step {
    Step { command: command, creates: creates, on_failure: OnFailure::Continue }
}

/// The steps of a native window, in order. The instance takes a hold of its
/// own on the platform's default display, which it gives up at its teardown
/// like every other handle. The web view makes its own view. The queue
/// storage is pinned before the first signal is connected to it.
pub open spec fn native_plan() -> Seq<Step> {
    seq![
        must(Command::DefaultDisplay, Some(Resource::Display), Fault::InitFailed),
        must(Command::ConnectDisplay, None, Fault::InitFailed),
        must(Command::CreateWebView, Some(Resource::WebView), Fault::WebViewCreationFailed),
        must(Command::ContentManager, None, Fault::WebViewCreationFailed),
        must(Command::PinQueues, Some(Resource::Queues), Fault::WebViewCreationFailed),
        may(Command::ConnectSignal(SignalKind::ScriptMessage), Some(Resource::Signals)),
        may(Command::RegisterChannel, None),
        must(Command::WebViewView, Some(Resource::View), Fault::WebViewCreationFailed),
        may(Command::ConfigureView, None),
        may(Command::SetTitle, None),
        may(Command::ConnectSignal(SignalKind::LoadChanged), Some(Resource::Signals)),
        may(Command::ConnectSignal(SignalKind::Title), Some(Resource::Signals)),
        may(Command::ConnectSignal(SignalKind::Uri), Some(Resource::Signals)),
        may(Command::ConnectSignal(SignalKind::Progress), Some(Resource::Signals)),
    ]
}

/// The steps of a headless view, in order. Without a content manager the view
/// works, but takes no messages: the three steps that set the channel up are
/// left out.
pub open spec fn headless_plan() -> Seq<Step> {
    seq![
        must(Command::HeadlessDisplay, Some(Resource::Display), Fault::HeadlessDisplay),
        must(Command::ConnectDisplay, None, Fault::HeadlessConnect),
        must(Command::CreateView, Some(Resource::View), Fault::HeadlessView),
        may(Command::ConfigureView, None),
        must(Command::CreateWebView, Some(Resource::WebView), Fault::HeadlessWebView),
        Step { command: Command::ContentManager, creates: None, on_failure: OnFailure::Skip(3) },
        must(Command::PinQueues, Some(Resource::Queues), Fault::HeadlessWebView),
        may(Command::ConnectSignal(SignalKind::ScriptMessage), Some(Resource::Signals)),
        may(Command::RegisterChannel, None),
    ]
}

/// The steps of a web view on the exporting backend, in order.
pub open spec fn exported_plan() -> Seq<Step> {
    seq![
        must(Command::LoadBackend, None, Fault::InitFailed),
        must(Command::CreateExportable, Some(Resource::Exportable), Fault::WebViewCreationFailed),
        must(Command::ViewBackend, None, Fault::WebViewCreationFailed),
        must(Command::WebKitBackend, None, Fault::WebViewCreationFailed),
        must(Command::CreateWebView, Some(Resource::WebView), Fault::WebViewCreationFailed),
    ]
}

/// The steps of a flow.
pub open spec fn plan(flow: Flow) -> Seq<Step> {
    match flow {
        Flow::Native => native_plan(),
        Flow::Headless => headless_plan(),
        Flow::Exported => exported_plan(),
    }
}

/// What a call works on, and so what must be held when it is made.
pub open spec fn needs(command: Command) -> Option<Resource> {
    match command {
        Command::ContentManager => Some(Resource::WebView),
        Command::WebViewView => Some(Resource::WebView),
        Command::RegisterChannel => Some(Resource::WebView),
        Command::ConnectSignal(_) => Some(Resource::Queues),
        Command::ViewBackend => Some(Resource::Exportable),
        Command::WebKitBackend => Some(Resource::Exportable),
        Command::CreateView => Some(Resource::Display),
        Command::ConnectDisplay => Some(Resource::Display),
        Command::ConfigureView => Some(Resource::View),
        Command::SetTitle => Some(Resource::View),
        _ => None,
    }
}

/// No call is made twice in a run: each signal is connected once, the channel
/// is registered once, and each handle is created once.
pub proof fn lemma_each_call_once(flow: Flow, i: int, j: int)
    requires
        0 <= i < plan(flow).len(),
        0 <= j < plan(flow).len(),
        plan(flow)[i].command == plan(flow)[j].command,
    ensures
        i == j,
{
}

/// A native window connects a signal of every category.
pub proof fn lemma_native_connects_all(kind: SignalKind)
    ensures
        exists|i: int|
            0 <= i < native_plan().len() && (#[trigger] native_plan()[i]).command
                == Command::ConnectSignal(kind),
{
    let i: int = match kind {
        SignalKind::ScriptMessage => 5,
        SignalKind::LoadChanged => 10,
        SignalKind::Title => 11,
        SignalKind::Uri => 12,
        SignalKind::Progress => 13,
    };
    assert(native_plan()[i].command == Command::ConnectSignal(kind));
}

/// Whether what a step creates is held.
pub open spec fn creation_held(step: Step, held: Handles) -> bool {
    match step.creates {
        Some(resource) => held.holds(resource),
        None => true,
    }
}

/// Whether the handles are those of a run that came to its phase step by
/// step: while the run is running, it holds what each step before the
/// current one had to create.
pub open spec fn on_course(flow: Flow, phase: Phase, held: Handles) -> bool {
    match phase {
        Phase::Running(at) => {
            &&& at < plan(flow).len()
            &&& forall|k: int|
                0 <= k < at && (#[trigger] plan(flow)[k]).on_failure is Abort ==> creation_held(
                    plan(flow)[k],
                    held,
                )
        },
        _ => true,
    }
}

/// No handle is used before it was created: a run starts on course and stays
/// on course with every outcome, and a run on course holds what the call that
/// is due works on.
pub proof fn lemma_created_before_use(flow: Flow, at: usize, succeeded: bool, held: Handles)
    requires
        on_course(flow, Phase::Running(at), held),
    ensures
        on_course(flow, Phase::Running(0), Handles::none()),
        needs(plan(flow)[at as int].command) matches Some(resource) ==> held.holds(resource),
        on_course(
            flow,
            next_phase(flow, at as int, succeeded),
            next_handles(flow, at as int, succeeded, held),
        ),
{
    let steps = plan(flow);
    let after = next_handles(flow, at as int, succeeded, held);
    assert forall|resource: Resource| held.holds(resource) implies after.holds(resource) by {}
    assert forall|k: int| 0 <= k < at && (#[trigger] steps[k]).on_failure is Abort implies
        creation_held(steps[k], after) by {
        assert(creation_held(plan(flow)[k], held));
    }
    match flow {
        Flow::Native => {
            assert(at < 14);
            if at >= 1 {
                assert(native_plan()[0].creates == Some(Resource::Display));
            }
            if at >= 3 {
                assert(native_plan()[2].creates == Some(Resource::WebView));
            }
            if at >= 5 {
                assert(native_plan()[4].creates == Some(Resource::Queues));
            }
            if at >= 8 {
                assert(native_plan()[7].creates == Some(Resource::View));
            }
        },
        Flow::Headless => {
            assert(at < 9);
            if at >= 1 {
                assert(headless_plan()[0].creates == Some(Resource::Display));
            }
            if at >= 3 {
                assert(headless_plan()[2].creates == Some(Resource::View));
            }
            if at >= 5 {
                assert(headless_plan()[4].creates == Some(Resource::WebView));
            }
            if at >= 7 {
                assert(headless_plan()[6].creates == Some(Resource::Queues));
            }
        },
        Flow::Exported => {
            assert(at < 5);
            if at >= 2 {
                assert(exported_plan()[1].creates == Some(Resource::Exportable));
            }
        },
    }
}

/// Where a run stands.
#[derive(Debug, Clone, Copy, PartialEq, Eq, Structural)]
pub enum Phase {
    /// The call of the step at this place is being made.
    Running(usize),
    /// Every step was taken: the view is ready.
    Ready,
    /// The run was given up.
    Failed(Fault),
}

/// What the caller does next.
#[derive(Debug, Clone, Copy, PartialEq, Eq, Structural)]
pub enum Directive {
    /// Make this call, and report its outcome.
    Run(Command),
    /// Nothing more: the view is ready.
    Ready,
    /// Give up: tear down what is held, and report the fault.
    Abort(Fault),
}

/// The directive that goes with a phase.
pub open spec fn directive_of(flow: Flow, phase: Phase) -> Directive {
    match phase {
        Phase::Running(at) => Directive::Run(plan(flow)[at as int].command),
        Phase::Ready => Directive::Ready,
        Phase::Failed(fault) => Directive::Abort(fault),
    }
}

/// The phase that begins at a place of the plan: the step there, or the end
/// of the run where the plan has no more steps.
pub open spec fn phase_at(flow: Flow, at: int) -> Phase {
    if 0 <= at < plan(flow).len() {
        Phase::Running(at as usize)
    } else {
        Phase::Ready
    }
}

/// The phase after the call of the step at `at` came back.
pub open spec fn next_phase(flow: Flow, at: int, succeeded: bool) -> Phase {
    if succeeded {
        phase_at(flow, at + 1)
    } else {
        match plan(flow)[at].on_failure {
            OnFailure::Abort(fault) => Phase::Failed(fault),
            OnFailure::Continue => phase_at(flow, at + 1),
            OnFailure::Skip(n) => phase_at(flow, at + 1 + n),
        }
    }
}

/// What is held after the call of the step at `at` came back: what the step
/// creates is held from its success on.
pub open spec fn next_handles(flow: Flow, at: int, succeeded: bool, held: Handles) -> Handles {
    match plan(flow)[at].creates {
        Some(resource) => if succeeded {
            held.with(resource)
        } else {
            held
        },
        None => held,
    }
}

/// Whether a display counts as connected: the call said so, or it failed only
/// because the display was connected before.
pub open spec fn connected(status: bool, complaint: Option<Seq<u8>>) -> bool {
    status || match complaint {
        Some(text) => occurs(text, "already connected".spec_bytes()),
        None => false,
    }
}

/// The steps of a flow, one at a time.
fn step_at(flow: Flow, at: usize) -> (step: Option<Step>)
    ensures
        match step {
            Some(s) => at < plan(flow).len() && s == plan(flow)[at as int],
            None => at >= plan(flow).len(),
        },
{
    let webview_fault = OnFailure::Abort(Fault::WebViewCreationFailed);
    let init_fault = OnFailure::Abort(Fault::InitFailed);
    let signals = Some(Resource::Signals);
    match flow {
        Flow::Native => match at {
            0 => Some(
                Step {
                    command: Command::DefaultDisplay,
                    creates: Some(Resource::Display),
                    on_failure: init_fault,
                },
            ),
            1 => Some(Step { command: Command::ConnectDisplay, creates: None, on_failure: init_fault }),
            2 => Some(
                Step {
                    command: Command::CreateWebView,
                    creates: Some(Resource::WebView),
                    on_failure: webview_fault,
                },
            ),
            3 => Some(
                Step { command: Command::ContentManager, creates: None, on_failure: webview_fault },
            ),
            4 => Some(
                Step {
                    command: Command::PinQueues,
                    creates: Some(Resource::Queues),
                    on_failure: webview_fault,
                },
            ),
            5 => Some(
                Step {
                    command: Command::ConnectSignal(SignalKind::ScriptMessage),
                    creates: signals,
                    on_failure: OnFailure::Continue,
                },
            ),
            6 => Some(
                Step {
                    command: Command::RegisterChannel,
                    creates: None,
                    on_failure: OnFailure::Continue,
                },
            ),
            7 => Some(
                Step {
                    command: Command::WebViewView,
                    creates: Some(Resource::View),
                    on_failure: webview_fault,
                },
            ),
            8 => Some(
                Step {
                    command: Command::ConfigureView,
                    creates: None,
                    on_failure: OnFailure::Continue,
                },
            ),
            9 => Some(
                Step { command: Command::SetTitle, creates: None, on_failure: OnFailure::Continue },
            ),
            10 => Some(
                Step {
                    command: Command::ConnectSignal(SignalKind::LoadChanged),
                    creates: signals,
                    on_failure: OnFailure::Continue,
                },
            ),
            11 => Some(
                Step {
                    command: Command::ConnectSignal(SignalKind::Title),
                    creates: signals,
                    on_failure: OnFailure::Continue,
                },
            ),
            12 => Some(
                Step {
                    command: Command::ConnectSignal(SignalKind::Uri),
                    creates: signals,
                    on_failure: OnFailure::Continue,
                },
            ),
            13 => Some(
                Step {
                    command: Command::ConnectSignal(SignalKind::Progress),
                    creates: signals,
                    on_failure: OnFailure::Continue,
                },
            ),
            _ => None,
        },
        Flow::Headless => match at {
            0 => Some(
                Step {
                    command: Command::HeadlessDisplay,
                    creates: Some(Resource::Display),
                    on_failure: OnFailure::Abort(Fault::HeadlessDisplay),
                },
            ),
            1 => Some(
                Step {
                    command: Command::ConnectDisplay,
                    creates: None,
                    on_failure: OnFailure::Abort(Fault::HeadlessConnect),
                },
            ),
            2 => Some(
                Step {
                    command: Command::CreateView,
                    creates: Some(Resource::View),
                    on_failure: OnFailure::Abort(Fault::HeadlessView),
                },
            ),
            3 => Some(
                Step {
                    command: Command::ConfigureView,
                    creates: None,
                    on_failure: OnFailure::Continue,
                },
            ),
            4 => Some(
                Step {
                    command: Command::CreateWebView,
                    creates: Some(Resource::WebView),
                    on_failure: OnFailure::Abort(Fault::HeadlessWebView),
                },
            ),
            5 => Some(
                Step {
                    command: Command::ContentManager,
                    creates: None,
                    on_failure: OnFailure::Skip(3),
                },
            ),
            6 => Some(
                Step {
                    command: Command::PinQueues,
                    creates: Some(Resource::Queues),
                    on_failure: OnFailure::Abort(Fault::HeadlessWebView),
                },
            ),
            7 => Some(
                Step {
                    command: Command::ConnectSignal(SignalKind::ScriptMessage),
                    creates: signals,
                    on_failure: OnFailure::Continue,
                },
            ),
            8 => Some(
                Step {
                    command: Command::RegisterChannel,
                    creates: None,
                    on_failure: OnFailure::Continue,
                },
            ),
            _ => None,
        },
        Flow::Exported => match at {
            0 => Some(Step { command: Command::LoadBackend, creates: None, on_failure: init_fault }),
            1 => Some(
                Step {
                    command: Command::CreateExportable,
                    creates: Some(Resource::Exportable),
                    on_failure: webview_fault,
                },
            ),
            2 => Some(Step { command: Command::ViewBackend, creates: None, on_failure: webview_fault }),
            3 => Some(
                Step { command: Command::WebKitBackend, creates: None, on_failure: webview_fault },
            ),
            4 => Some(
                Step {
                    command: Command::CreateWebView,
                    creates: Some(Resource::WebView),
                    on_failure: webview_fault,
                },
            ),
            _ => None,
        },
    }
}

/// The phase that begins at a place of the plan.
fn enter(flow: Flow, at: usize) -> (phase: Phase)
    ensures
        phase == phase_at(flow, at as int),
{
    match step_at(flow, at) {
        Some(_) => Phase::Running(at),
        None => Phase::Ready,
    }
}

/// The creation of one view: where the run stands, and what it has created.
#[derive(Debug)]
pub struct Setup {
    flow: Flow,
    phase: Phase,
    handles: HandleSet,
}

impl Setup {
    /// The way in which the view is created.
    pub closed spec fn flow(self) -> Flow {
        self.flow
    }

    /// Where the run stands.
    pub closed spec fn phase(self) -> Phase {
        self.phase
    }

    /// What the run has created and holds.
    pub closed spec fn held(self) -> Handles {
        self.handles@
    }

    /// Whether the run stands at a step of its plan, where it is running.
    pub closed spec fn wf(self) -> bool {
        self.phase matches Phase::Running(at) ==> at < plan(self.flow).len()
    }

    /// Begin a run: nothing is held, and the first call is due.
    pub fn begin(flow: Flow) -> (setup: Self)
        ensures
            setup.wf(),
            setup.flow() == flow,
            setup.phase() == Phase::Running(0),
            setup.held() == Handles::none(),
    {
        Setup { flow, phase: Phase::Running(0), handles: HandleSet::new() }
    }

    /// The way in which the view is created.
    pub fn kind(&self) -> (flow: Flow)
        ensures
            flow == self.flow(),
    {
        self.flow
    }

    /// What the caller does next.
    pub fn directive(&self) -> (directive: Directive)
        requires
            self.wf(),
        ensures
            directive == directive_of(self.flow(), self.phase()),
    {
        match self.phase {
            Phase::Running(at) => match step_at(self.flow, at) {
                Some(step) => Directive::Run(step.command),
                None => Directive::Ready,
            },
            Phase::Ready => Directive::Ready,
            Phase::Failed(fault) => Directive::Abort(fault),
        }
    }

    /// Take in the outcome of the call that was due, and say what comes next.
    ///
    /// A call that succeeded adds what it creates to the handles held. A call
    /// that failed gives the run up where the view cannot be without it, and
    /// is passed over otherwise. A run that is ready or was given up stays as
    /// it is.
    pub fn advance(&mut self, succeeded: bool) -> (directive: Directive)
        requires
            old(self).wf(),
        ensures
            final(self).wf(),
            final(self).flow() == old(self).flow(),
            final(self).phase() == match old(self).phase() {
                Phase::Running(at) => next_phase(old(self).flow(), at as int, succeeded),
                phase => phase,
            },
            final(self).held() == match old(self).phase() {
                Phase::Running(at) => next_handles(
                    old(self).flow(),
                    at as int,
                    succeeded,
                    old(self).held(),
                ),
                _ => old(self).held(),
            },
            directive == directive_of(final(self).flow(), final(self).phase()),
    {
        match self.phase {
            Phase::Running(at) => match step_at(self.flow, at) {
                Some(step) => {
                    if succeeded {
                        match step.creates {
                            Some(resource) => {
                                self.handles.acquire(resource);
                            },
                            None => {},
                        }
                        self.phase = enter(self.flow, at + 1);
                    } else {
                        match step.on_failure {
                            OnFailure::Abort(fault) => {
                                self.phase = Phase::Failed(fault);
                            },
                            OnFailure::Continue => {
                                self.phase = enter(self.flow, at + 1);
                            },
                            OnFailure::Skip(n) => {
                                self.phase = enter(self.flow, at + 1 + n);
                            },
                        }
                    }
                },
                None => {},
            },
            _ => {},
        }
        self.directive()
    }

    /// Whether the display counts as connected after a connect call: the call
    /// said so, or, for a native window, it failed only because the display
    /// was connected before. A headless display must connect.
    pub fn display_connected(&self, status: bool, complaint: Option<&str>) -> (ok: bool)
        ensures
            ok == match self.flow() {
                Flow::Native => connected(
                    status,
                    match complaint {
                        Some(text) => Some(text.spec_bytes()),
                        None => None,
                    },
                ),
                _ => status,
            },
    {
        if status {
            return true;
        }
        match self.flow {
            Flow::Native => match complaint {
                Some(text) => contains_text(text, "already connected"),
                None => false,
            },
            _ => false,
        }
    }

    /// Whether the run holds a resource, so that the caller may use it.
    pub fn holds(&self, resource: Resource) -> (held: bool)
        ensures
            held == self.held().holds(resource),
    {
        self.handles.holds(resource)
    }

    /// End a run that is no longer running. A run that is ready hands over the
    /// handles of the view. A run that was given up is torn down: it hands
    /// over its fault and what the caller has to release.
    pub fn finish(self) -> (r: Result<HandleSet, (Fault, Vec<Release>)>)
        requires
            !(self.phase() is Running),
        ensures
            match r {
                Ok(handles) => self.phase() is Ready && handles@ == self.held(),
                Err((fault, releases)) => self.phase() == Phase::Failed(fault) && releases@
                    == self.held().release_plan(),
            },
    {
        let mut handles = self.handles;
        match self.phase {
            Phase::Failed(fault) => {
                let releases = handles.teardown();
                Err((fault, releases))
            },
            _ => Ok(handles),
        }
    }

    /// End the run and hand over what it holds: the handles of the view where
    /// the run is ready, and what a teardown has to release where the run was
    /// given up.
    pub fn into_handles(self) -> (handles: HandleSet)
        ensures
            handles@ == self.held(),
    {
        self.handles
    }
}

} // verus!
