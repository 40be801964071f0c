//! What a process may do with its event loop, and when.

use vstd::prelude::*;

verus! {

/// What the platform tells about the moment of a call.
#[derive(Clone, Copy, Debug, PartialEq, Eq, Structural)]
pub struct Environment {
    /// Whether the call is made on the main thread.
    pub on_main_thread: bool,
    /// Whether the application object exists: whether the application's main function has started.
    pub application_running: bool,
}

/// A reason for which a call is not allowed.
#[derive(Clone, Copy, Debug, PartialEq, Eq, Structural)]
pub enum Refusal {
    /// An event loop is created off the main thread.
    CreatedOffMainThread,
    /// A second event loop is created.
    CreatedTwice,
    /// An event loop is run for good though the application has started.
    RunInApplication,
    /// A driver is called though the application has not started.
    PumpedOutsideApplication,
    /// The application is started off the main thread.
    StartedOffMainThread,
    /// The application is started a second time.
    StartedTwice,
}

impl Refusal {
    /// The message for this refusal.
    pub open spec fn text(self) -> Seq<char> {
        match self {
            Refusal::CreatedOffMainThread => {
                "On iOS, `EventLoop` must be created on the main thread"@
            },
            Refusal::CreatedTwice => {
                "Only one `EventLoop` is supported on iOS. `EventLoopProxy` might be helpful"@
            },
            Refusal::RunInApplication => {
                "`EventLoop` cannot be `run` after a call to `UIApplicationMain` on iOS\nNote: `EventLoop::run` calls `UIApplicationMain` on iOS"@
            },
            Refusal::PumpedOutsideApplication => {
                "`pump_events`/`run_on_demand` on iOS must be called from within the entry point passed to `winit::platform::ios::ios_application_main`, after `UIApplicationMain` has started"@
            },
            Refusal::StartedOffMainThread => {
                "`ios_application_main` must be called on the main thread"@
            },
            Refusal::StartedTwice => {
                "`ios_application_main` cannot be called after `UIApplicationMain`"@
            },
        }
    }

    /// The message for this refusal.
    pub fn message(self) -> (message: &'static str)
        ensures
            message@ == self.text(),
    {
        match self {
            Refusal::CreatedOffMainThread => {
                "On iOS, `EventLoop` must be created on the main thread"
            },
            Refusal::CreatedTwice => {
                "Only one `EventLoop` is supported on iOS. `EventLoopProxy` might be helpful"
            },
            Refusal::RunInApplication => {
                "`EventLoop` cannot be `run` after a call to `UIApplicationMain` on iOS\nNote: `EventLoop::run` calls `UIApplicationMain` on iOS"
            },
            Refusal::PumpedOutsideApplication => {
                "`pump_events`/`run_on_demand` on iOS must be called from within the entry point passed to `winit::platform::ios::ios_application_main`, after `UIApplicationMain` has started"
            },
            Refusal::StartedOffMainThread => {
                "`ios_application_main` must be called on the main thread"
            },
            Refusal::StartedTwice => {
                "`ios_application_main` cannot be called after `UIApplicationMain`"
            },
        }
    }
}

/// The call that starts the application. It does not return.
#[derive(Clone, Copy, Debug, PartialEq, Eq)]
pub struct Launch {
    /// How many arguments the application's main function gets.
    pub argc: i32,
    /// The class of the application object, if it is not the usual one.
    pub principal_class: Option<&'static str>,
    /// The class of the application delegate, which must be registered before the call.
    pub delegate_class: &'static str,
}

impl Launch {
    /// Whether this is the call by which an event loop starts the application: no arguments, the
    /// usual application object, and the event loop's own delegate.
    pub open spec fn is_application_main(self) -> bool {
        &&& self.argc == 0
        &&& self.principal_class is None
        &&& self.delegate_class@ == "WinitApplicationDelegate"@
    }

    /// The call by which an event loop starts the application.
    pub fn application_main() -> (launch: Launch)
        ensures
            launch.is_application_main(),
    {
        Launch { argc: 0, principal_class: None, delegate_class: "WinitApplicationDelegate" }
    }
}

/// What a process remembers of its event loop. `E` is the type of entry points.
#[derive(Debug)]
pub struct Process<E> {
    /// Whether an event loop has been created.
    pub singleton_init: bool,
    /// The entry point that is to be called once the application has launched.
    pub pump_entry: Option<E>,
}

/// Why an event loop cannot be run for good, if it cannot.
pub open spec fn run_refusal(env: Environment) -> Option<Refusal> {
    if env.application_running {
        Some(Refusal::RunInApplication)
    } else {
        None
    }
}

/// Why a driver cannot be called, if it cannot.
pub open spec fn pump_refusal(env: Environment) -> Option<Refusal> {
    if env.application_running {
        None
    } else {
        Some(Refusal::PumpedOutsideApplication)
    }
}

/// Why the application cannot be started with an entry point, if it cannot.
pub open spec fn main_refusal(env: Environment) -> Option<Refusal> {
    if !env.on_main_thread {
        Some(Refusal::StartedOffMainThread)
    } else if env.application_running {
        Some(Refusal::StartedTwice)
    } else {
        None
    }
}

/// Checks whether an event loop can be run for good.
pub fn check_run(env: Environment) -> (refusal: Option<Refusal>)
    ensures
        refusal == run_refusal(env),
        refusal is None <==> !env.application_running,
        refusal matches Some(why) ==> why == Refusal::RunInApplication,
{
    if env.application_running {
        Some(Refusal::RunInApplication)
    } else {
        None
    }
}

/// Checks whether a driver can be called.
pub fn check_pump(env: Environment) -> (refusal: Option<Refusal>)
    ensures
        refusal == pump_refusal(env),
        refusal is None <==> env.application_running,
        refusal matches Some(why) ==> why == Refusal::PumpedOutsideApplication,
{
    if env.application_running {
        None
    } else {
        Some(Refusal::PumpedOutsideApplication)
    }
}

/// Checks whether the application can be started with an entry point.
pub fn check_main(env: Environment) -> (refusal: Option<Refusal>)
    ensures
        refusal == main_refusal(env),
        refusal is None <==> env.on_main_thread && !env.application_running,
        refusal == Some(Refusal::StartedOffMainThread) <==> !env.on_main_thread,
        refusal == Some(Refusal::StartedTwice) <==> env.on_main_thread && env.application_running,
{
    if !env.on_main_thread {
        Some(Refusal::StartedOffMainThread)
    } else if env.application_running {
        Some(Refusal::StartedTwice)
    } else {
        None
    }
}

impl<E> Process<E> {
    /// Why an event loop cannot be created, if it cannot.
    pub open spec fn creation_refusal(self, env: Environment) -> Option<Refusal> {
        if !env.on_main_thread {
            Some(Refusal::CreatedOffMainThread)
        } else if self.singleton_init {
            Some(Refusal::CreatedTwice)
        } else {
            None
        }
    }

    /// A process that has not yet done anything.
    pub fn new() -> (process: Process<E>)
        ensures
            process == (Process { singleton_init: false, pump_entry: None::<E> }),
    {
        Process { singleton_init: false, pump_entry: None }
    }

    /// Checks whether an event loop can be created.
    pub fn check_creation(&self, env: Environment) -> (refusal: Option<Refusal>)
        ensures
            refusal == self.creation_refusal(env),
            refusal is None <==> env.on_main_thread && !self.singleton_init,
            refusal == Some(Refusal::CreatedOffMainThread) <==> !env.on_main_thread,
            refusal == Some(Refusal::CreatedTwice) <==> env.on_main_thread && self.singleton_init,
    {
        if !env.on_main_thread {
            Some(Refusal::CreatedOffMainThread)
        } else if self.singleton_init {
            Some(Refusal::CreatedTwice)
        } else {
            None
        }
    }

    /// Whether an entry point waits to be called. If so, the application was started with one, and
    /// no event loop runs for good.
    pub fn has_pump_entry(&self) -> (waiting: bool)
        ensures
            waiting == self.pump_entry is Some,
    {
        self.pump_entry.is_some()
    }

    /// Takes out the entry point that is to be called now, if one waits to be called.
    pub fn run_pump_entry(&mut self) -> (entry: Option<E>)
        ensures
            entry == old(self).pump_entry,
            *final(self) == (Process { pump_entry: None::<E>, ..*old(self) }),
    {
        self.pump_entry.take()
    }
}

/// Starts the application so that `entry` is called once it has launched.
pub fn ios_application_main<E>(process: &mut Process<E>, env: Environment, entry: E) -> (launch:
    Launch)
    requires
        main_refusal(env) is None,
    ensures
        *final(process) == (Process { pump_entry: Some(entry), ..*old(process) }),
        launch.is_application_main(),
{
    process.pump_entry = Some(entry);
    Launch::application_main()
}

/// What a process can do with its event loop.
pub enum ProcessOp<E> {
    /// Creates an event loop.
    Create,
    /// Starts the application with an entry point.
    Start(E),
    /// Calls the entry point that waits to be called.
    RunEntry,
}

impl<E> Process<E> {
    /// The process after `ops`, one after another.
    pub open spec fn after_ops(self, ops: Seq<ProcessOp<E>>) -> Process<E>
        decreases ops.len(),
    {
        if ops.len() == 0 {
            self
        } else {
            let before = self.after_ops(ops.drop_last());
            match ops.last() {
                ProcessOp::Create => Process { singleton_init: true, ..before },
                ProcessOp::Start(entry) => Process { pump_entry: Some(entry), ..before },
                ProcessOp::RunEntry => Process { pump_entry: None, ..before },
            }
        }
    }
}

/// An event loop can be created exactly on the main thread of a process that has created none. Off
/// the main thread that is what it is refused for, in every process; on the main thread, it is
/// refused for the event loop that is there. Whether the application runs makes no difference.
pub proof fn law_creation_allowed<E>(process: Process<E>, env: Environment, other: Environment)
    ensures
        process.creation_refusal(env) is None <==> env.on_main_thread && !process.singleton_init,
        process.creation_refusal(env) == Some(Refusal::CreatedOffMainThread)
            <==> !env.on_main_thread,
        process.creation_refusal(env) == Some(Refusal::CreatedTwice) <==> env.on_main_thread
            && process.singleton_init,
        env.on_main_thread == other.on_main_thread ==> process.creation_refusal(env)
            == process.creation_refusal(other),
{
}

/// On the main thread, a process can create an event loop exactly for as long as it has created
/// none, whatever else it has done; off the main thread, never.
pub proof fn law_creation_allowed_once<E>(
    process: Process<E>,
    ops: Seq<ProcessOp<E>>,
    env: Environment,
)
    ensures
        process.after_ops(ops).creation_refusal(env) is None <==> {
            &&& env.on_main_thread
            &&& !process.singleton_init
            &&& forall|i: int| 0 <= i < ops.len() ==> !(#[trigger] ops[i] is Create)
        },
    decreases ops.len(),
{
    if ops.len() > 0 {
        let before = ops.drop_last();
        law_creation_allowed_once(process, before, env);
        assert(ops.last() == ops[ops.len() - 1]);
        assert forall|i: int| 0 <= i < before.len() implies before[i] == #[trigger] ops[i] by {}
        if forall|i: int| 0 <= i < before.len() ==> !(#[trigger] before[i] is Create) {
            assert(!(ops.last() is Create) ==> forall|i: int|
                0 <= i < ops.len() ==> !(#[trigger] ops[i] is Create));
        } else {
            let i = choose|i: int| 0 <= i < before.len() && #[trigger] before[i] is Create;
            assert(ops[i] is Create);
        }
    }
}

/// The application can be started with an entry point exactly on the main thread and while it does
/// not run yet. Off the main thread that is what it is refused for, whether or not it runs.
pub proof fn law_start_allowed(env: Environment)
    ensures
        main_refusal(env) is None <==> env.on_main_thread && !env.application_running,
        main_refusal(env) == Some(Refusal::StartedOffMainThread) <==> !env.on_main_thread,
        main_refusal(env) == Some(Refusal::StartedTwice) <==> env.on_main_thread
            && env.application_running,
{
}

/// An event loop can be run for good exactly while the application does not run, and be pumped
/// exactly while it does, on whatever thread. Each is refused for one reason only.
pub proof fn law_drivers_allowed(env: Environment)
    ensures
        run_refusal(env) is None <==> !env.application_running,
        run_refusal(env) == Some(Refusal::RunInApplication) <==> env.application_running,
        pump_refusal(env) is None <==> env.application_running,
        pump_refusal(env) == Some(Refusal::PumpedOutsideApplication)
            <==> !env.application_running,
{
}

/// There is one way to start the application: an event loop that is run for good and an entry point
/// start it by the same call, without arguments and with the usual application object.
pub proof fn law_one_way_to_start(launch: Launch, other: Launch)
    requires
        launch.is_application_main(),
        other.is_application_main(),
    ensures
        launch.argc == other.argc == 0,
        launch.principal_class is None,
        other.principal_class is None,
        launch.delegate_class@ == other.delegate_class@,
{
}

/// Once an event loop has been created, whatever the process does, no other one is ever allowed.
pub proof fn law_only_one_event_loop<E>(
    process: Process<E>,
    ops: Seq<ProcessOp<E>>,
    env: Environment,
)
    requires
        process.singleton_init,
    ensures
        process.after_ops(ops).creation_refusal(env) is Some,
    decreases ops.len(),
{
    if ops.len() > 0 {
        law_only_one_event_loop(process, ops.drop_last(), env);
    }
}

/// An entry point is called at most once: after it has been called, and until the application is
/// started with another one, none waits to be called.
pub proof fn law_entry_runs_once<E>(process: Process<E>, ops: Seq<ProcessOp<E>>)
    requires
        forall|i: int| 0 <= i < ops.len() ==> !(#[trigger] ops[i] is Start),
    ensures
        process.after_ops(seq![ProcessOp::RunEntry] + ops).pump_entry is None,
    decreases ops.len(),
{
    let all = seq![ProcessOp::<E>::RunEntry] + ops;
    if ops.len() > 0 {
        law_entry_runs_once(process, ops.drop_last());
        assert(all.drop_last() == seq![ProcessOp::<E>::RunEntry] + ops.drop_last());
        assert(!(ops[ops.len() - 1] is Start));
    } else {
        assert(all.last() is RunEntry);
    }
}

/// Without a start no entry point waits to be called, whatever else the process does.
pub proof fn law_no_entry_without_start<E>(process: Process<E>, ops: Seq<ProcessOp<E>>)
    requires
        process.pump_entry is None,
        forall|i: int| 0 <= i < ops.len() ==> !(#[trigger] ops[i] is Start),
    ensures
        process.after_ops(ops).pump_entry is None,
    decreases ops.len(),
{
    if ops.len() > 0 {
        law_no_entry_without_start(process, ops.drop_last());
        assert(!(ops[ops.len() - 1] is Start));
    }
}

/// An entry point that the application was started with waits until it is called, whether or not
/// event loops are created in between.
pub proof fn law_entry_waits<E>(process: Process<E>, entry: E, ops: Seq<ProcessOp<E>>)
    requires
        forall|i: int| 0 <= i < ops.len() ==> #[trigger] ops[i] is Create,
    ensures
        process.after_ops(seq![ProcessOp::Start(entry)] + ops).pump_entry == Some(entry),
    decreases ops.len(),
{
    let all = seq![ProcessOp::Start(entry)] + ops;
    if ops.len() > 0 {
        law_entry_waits(process, entry, ops.drop_last());
        assert(all.drop_last() == seq![ProcessOp::Start(entry)] + ops.drop_last());
        assert(ops[ops.len() - 1] is Create);
    } else {
        assert(all.last() == ProcessOp::Start(entry));
    }
}

/// At any moment exactly one way of getting events is open: running for good until the application
/// has started, the drivers from then on. On the main thread, the application can be started
/// exactly while an event loop can still be run for good.
pub proof fn law_run_or_pump(env: Environment)
    ensures
        run_refusal(env) is None <==> pump_refusal(env) is Some,
        env.on_main_thread ==> (main_refusal(env) is None <==> run_refusal(env) is None),
{
}

} // verus!
