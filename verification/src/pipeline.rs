//! The course of one crash event. The module asks the operating system one
//! thing at a time; what it asks next depends only on how far it has come and
//! on the answer to the last question. `Pipeline` holds how far it has come,
//! `Pipeline::action` says what to ask, and `Pipeline::step` takes the answer.
//! No question is asked twice, and a failure is never retried.
use crate::host::{EXCEPTION_BREAKPOINT, NOTIFY_TIMEOUT_MS, WAIT_OBJECT_0};
use crate::shared_state::{InProcessCrashContext, MAIN_PROCESS_TYPE};
use vstd::prelude::*;

verus! {

/// How an event ended.
#[derive(Clone, Copy, PartialEq, Eq, Structural, Debug)]
pub enum Outcome {
    /// The crash was reported: by files for the client, or to the main process.
    Reported,
    /// The event was neither a crash nor a hang; nothing was done.
    Ignored,
    /// Something failed. What was written before stays as it is.
    Failed,
}

/// How far the handling of an event has come: what was asked last.
#[derive(Clone, Copy, PartialEq, Eq, Structural, Debug)]
pub enum Stage {
    Start,
    FindingHungWindow,
    CapturingHungThread,
    ResolvingApplication,
    ReadingContext,
    ReadingStartupTime,
    ReadingOomSize,
    WritingMinidump,
    WritingExtraFile,
    WritingEventFile,
    ReadingEnvironment,
    LaunchingClient,
    ReadingCommandLine,
    OpeningParent,
    ReadingSharedState,
    ReadingChildPid,
    WritingSharedState,
    StartingNotification,
    AwaitingNotification,
    ClosingNotification,
    Done(Outcome),
}

/// What is to be done next.
#[derive(Clone, Copy, PartialEq, Eq, Structural, Debug)]
pub enum Action {
    /// Hand over the event that the host reported.
    AwaitEvent,
    /// Look for a hung window of the crashed process.
    FindHungWindow,
    /// Open the thread and take its registers in place of the event's.
    CaptureThread { thread_id: u32 },
    /// Find out which application crashed.
    ResolveApplication,
    /// Read the crashed process's record about itself.
    ReadContext,
    /// Ask when the crashed process was created.
    ReadStartupTime,
    /// Read the size of the failed allocation at `address` in the process.
    ReadOomSize { address: usize },
    /// Write the minidump.
    WriteMinidump,
    /// Write the file of the annotations.
    WriteExtraFile,
    /// Write the event file.
    WriteEventFile,
    /// Read the crashed process's environment.
    ReadEnvironment,
    /// Start the reporting client.
    LaunchClient,
    /// Read the crashed process's command line, and from it the parent.
    ReadCommandLine,
    /// Open the parent process.
    OpenParent { pid: u32 },
    /// Read the child's record at `address` in the parent.
    ReadSharedState { address: usize },
    /// Ask for the id of the crashed process.
    ReadChildPid,
    /// Write the child's record, filled in, back to `address` in the parent.
    WriteSharedState { address: usize },
    /// Start a thread in the parent at `entry`, with `parameter`.
    StartNotification { entry: usize, parameter: usize },
    /// Wait for that thread, for at most `timeout_ms` milliseconds.
    AwaitNotification { timeout_ms: u32 },
    /// Close the thread's handle.
    CloseNotification,
    /// Nothing more: tell the host how it ended.
    Finish(Outcome),
}

/// Where a child's record lies: the parent process and the address in it.
#[derive(Clone, Copy, PartialEq, Eq, Structural, Debug)]
pub struct ParentLocation {
    /// Id of the parent process.
    pub pid: u32,
    /// Address of the child's record in the parent.
    pub address: usize,
}

/// What came back.
#[derive(Clone, Copy, PartialEq, Eq, Structural, Debug)]
pub enum Event {
    /// The host reported an event.
    Crash { is_fatal: bool, exception_code: i32 },
    /// The thread of the hung window, if one was found.
    HungWindow(Option<u32>),
    /// Whether what was to be done was done.
    Completed(bool),
    /// The crashed process's record about itself, if it could be read.
    Context(Option<InProcessCrashContext>),
    /// When the crashed process was created, if that could be had.
    StartupTime(Option<u64>),
    /// The size of the failed allocation, if it could be read.
    OomSize(Option<usize>),
    /// The parent's id and the record's address, if the command line could
    /// be read and names them.
    ChildData(Option<ParentLocation>),
    /// The notification routine named in the child's record, if the record
    /// could be read.
    NotifyEntry(Option<usize>),
    /// What waiting for the notification returned.
    Waited(u32),
}

/// The handling of one event.
#[derive(Clone, Copy, PartialEq, Eq, Structural, Debug)]
pub struct Pipeline {
    /// How far it has come.
    pub stage: Stage,
    /// Whether the event turned out to be a hang.
    pub ui_hang: bool,
    /// The thread of the hung window; zero before one is found.
    pub hung_thread: u32,
    /// The crashed process's role, and where it keeps its allocation size.
    pub context: InProcessCrashContext,
    /// When the crashed process was created, in seconds since 1970.
    pub startup_time: u64,
    /// Size of the failed allocation, or zero.
    pub oom_allocation_size: usize,
    /// Id of the parent process, for a child.
    pub parent_pid: u32,
    /// Address of the child's record in the parent.
    pub shared_address: usize,
    /// Address of the notification routine in the parent.
    pub notify_entry: usize,
}

impl Pipeline {
    /// The handling of an event that is yet to come.
    pub open spec fn initial() -> Pipeline {
        Pipeline {
            stage: Stage::Start,
            ui_hang: false,
            hung_thread: 0,
            context: InProcessCrashContext {
                process_type: MAIN_PROCESS_TYPE,
                oom_allocation_size_ptr: 0,
            },
            startup_time: 0,
            oom_allocation_size: 0,
            parent_pid: 0,
            shared_address: 0,
            notify_entry: 0,
        }
    }

    /// The same handling at another stage.
    pub open spec fn at(self, stage: Stage) -> Pipeline {
        Pipeline { stage, ..self }
    }

    /// The handling, ended in failure.
    pub open spec fn failed(self) -> Pipeline {
        self.at(Stage::Done(Outcome::Failed))
    }

    /// On success the next stage, on failure the end.
    pub open spec fn proceed(self, done: bool, stage: Stage) -> Pipeline {
        if done {
            self.at(stage)
        } else {
            self.failed()
        }
    }

    /// Where the handling stands after `event` came back.
    pub open spec fn next(self, event: Event) -> Pipeline {
        match (self.stage, event) {
            (Stage::Done(_), _) => self,
            (Stage::Start, Event::Crash { is_fatal, exception_code }) => if is_fatal {
                self.at(Stage::ResolvingApplication)
            } else if exception_code == EXCEPTION_BREAKPOINT {
                self.at(Stage::FindingHungWindow)
            } else {
                self.at(Stage::Done(Outcome::Ignored))
            },
            (Stage::FindingHungWindow, Event::HungWindow(found)) => match found {
                Some(thread_id) => Pipeline {
                    stage: Stage::CapturingHungThread,
                    hung_thread: thread_id,
                    ..self
                },
                None => self.at(Stage::Done(Outcome::Ignored)),
            },
            (Stage::CapturingHungThread, Event::Completed(done)) => if done {
                Pipeline { stage: Stage::ResolvingApplication, ui_hang: true, ..self }
            } else {
                self.at(Stage::Done(Outcome::Ignored))
            },
            (Stage::ResolvingApplication, Event::Completed(done)) => self.proceed(
                done,
                Stage::ReadingContext,
            ),
            (Stage::ReadingContext, Event::Context(read)) => match read {
                Some(context) => Pipeline { stage: Stage::ReadingStartupTime, context, ..self },
                None => self.failed(),
            },
            (Stage::ReadingStartupTime, Event::StartupTime(read)) => match read {
                Some(startup_time) => Pipeline {
                    stage: Stage::ReadingOomSize,
                    startup_time,
                    ..self
                },
                None => self.failed(),
            },
            (Stage::ReadingOomSize, Event::OomSize(read)) => Pipeline {
                stage: Stage::WritingMinidump,
                oom_allocation_size: match read {
                    Some(size) => size,
                    None => 0,
                },
                ..self
            },
            (Stage::WritingMinidump, Event::Completed(done)) => self.proceed(
                done,
                if self.context.process_type == MAIN_PROCESS_TYPE {
                    Stage::WritingExtraFile
                } else {
                    Stage::ReadingCommandLine
                },
            ),
            (Stage::WritingExtraFile, Event::Completed(done)) => self.proceed(
                done,
                Stage::WritingEventFile,
            ),
            (Stage::WritingEventFile, Event::Completed(done)) => self.proceed(
                done,
                Stage::ReadingEnvironment,
            ),
            (Stage::ReadingEnvironment, Event::Completed(done)) => self.proceed(
                done,
                Stage::LaunchingClient,
            ),
            (Stage::LaunchingClient, Event::Completed(_)) => self.at(
                Stage::Done(Outcome::Reported),
            ),
            (Stage::ReadingCommandLine, Event::ChildData(read)) => match read {
                Some(parent) => Pipeline {
                    stage: Stage::OpeningParent,
                    parent_pid: parent.pid,
                    shared_address: parent.address,
                    ..self
                },
                None => self.failed(),
            },
            (Stage::OpeningParent, Event::Completed(done)) => self.proceed(
                done,
                Stage::ReadingSharedState,
            ),
            (Stage::ReadingSharedState, Event::NotifyEntry(read)) => match read {
                Some(entry) => Pipeline {
                    stage: Stage::ReadingChildPid,
                    notify_entry: entry,
                    ..self
                },
                None => self.failed(),
            },
            (Stage::ReadingChildPid, Event::Completed(done)) => self.proceed(
                done,
                Stage::WritingSharedState,
            ),
            (Stage::WritingSharedState, Event::Completed(done)) => self.proceed(
                done,
                Stage::StartingNotification,
            ),
            (Stage::StartingNotification, Event::Completed(done)) => self.proceed(
                done,
                Stage::AwaitingNotification,
            ),
            (Stage::AwaitingNotification, Event::Waited(result)) => self.proceed(
                result == WAIT_OBJECT_0,
                Stage::ClosingNotification,
            ),
            (Stage::ClosingNotification, Event::Completed(done)) => self.proceed(
                done,
                Stage::Done(Outcome::Reported),
            ),
            _ => self.failed(),
        }
    }

    /// What is to be done at this stage.
    pub open spec fn pending(self) -> Action {
        match self.stage {
            Stage::Start => Action::AwaitEvent,
            Stage::FindingHungWindow => Action::FindHungWindow,
            Stage::CapturingHungThread => Action::CaptureThread { thread_id: self.hung_thread },
            Stage::ResolvingApplication => Action::ResolveApplication,
            Stage::ReadingContext => Action::ReadContext,
            Stage::ReadingStartupTime => Action::ReadStartupTime,
            Stage::ReadingOomSize => Action::ReadOomSize {
                address: self.context.oom_allocation_size_ptr,
            },
            Stage::WritingMinidump => Action::WriteMinidump,
            Stage::WritingExtraFile => Action::WriteExtraFile,
            Stage::WritingEventFile => Action::WriteEventFile,
            Stage::ReadingEnvironment => Action::ReadEnvironment,
            Stage::LaunchingClient => Action::LaunchClient,
            Stage::ReadingCommandLine => Action::ReadCommandLine,
            Stage::OpeningParent => Action::OpenParent { pid: self.parent_pid },
            Stage::ReadingSharedState => Action::ReadSharedState { address: self.shared_address },
            Stage::ReadingChildPid => Action::ReadChildPid,
            Stage::WritingSharedState => Action::WriteSharedState { address: self.shared_address },
            Stage::StartingNotification => Action::StartNotification {
                entry: self.notify_entry,
                parameter: self.shared_address,
            },
            Stage::AwaitingNotification => Action::AwaitNotification {
                timeout_ms: NOTIFY_TIMEOUT_MS,
            },
            Stage::ClosingNotification => Action::CloseNotification,
            Stage::Done(outcome) => Action::Finish(outcome),
        }
    }

    /// Where the handling stands after the events `events` came back in turn.
    pub open spec fn run(self, events: Seq<Event>) -> Pipeline
        decreases events.len(),
    {
        if events.len() == 0 {
            self
        } else {
            self.next(events[0]).run(events.skip(1))
        }
    }

    /// How many questions may at most still be asked.
    pub open spec fn questions_left(self) -> nat {
        match self.stage {
            Stage::Start => 17,
            Stage::FindingHungWindow => 16,
            Stage::CapturingHungThread => 15,
            Stage::ResolvingApplication => 14,
            Stage::ReadingContext => 13,
            Stage::ReadingStartupTime => 12,
            Stage::ReadingOomSize => 11,
            Stage::WritingMinidump => 10,
            Stage::ReadingCommandLine => 9,
            Stage::OpeningParent => 8,
            Stage::ReadingSharedState => 7,
            Stage::ReadingChildPid => 6,
            Stage::WritingSharedState => 5,
            Stage::WritingExtraFile => 5,
            Stage::StartingNotification => 4,
            Stage::WritingEventFile => 4,
            Stage::AwaitingNotification => 3,
            Stage::ReadingEnvironment => 3,
            Stage::ClosingNotification => 2,
            Stage::LaunchingClient => 2,
            Stage::Done(_) => 0,
        }
    }

    /// The handling of an event that is yet to come.
    pub fn new() -> (pipeline: Pipeline)
        ensures
            pipeline == Pipeline::initial(),
    {
        Pipeline {
            stage: Stage::Start,
            ui_hang: false,
            hung_thread: 0,
            context: InProcessCrashContext {
                process_type: MAIN_PROCESS_TYPE,
                oom_allocation_size_ptr: 0,
            },
            startup_time: 0,
            oom_allocation_size: 0,
            parent_pid: 0,
            shared_address: 0,
            notify_entry: 0,
        }
    }

    fn moved(self, stage: Stage) -> (r: Pipeline)
        ensures
            r == self.at(stage),
    {
        let mut r = self;
        r.stage = stage;
        r
    }

    fn carry_on(self, done: bool, stage: Stage) -> (r: Pipeline)
        ensures
            r == self.proceed(done, stage),
    {
        if done {
            self.moved(stage)
        } else {
            self.moved(Stage::Done(Outcome::Failed))
        }
    }

    /// Takes the answer to what was asked last.
    pub fn step(self, event: Event) -> (r: Pipeline)
        ensures
            r == self.next(event),
    {
        let failed = self.moved(Stage::Done(Outcome::Failed));
        match self.stage {
            Stage::Done(_) => self,
            Stage::Start => match event {
                Event::Crash { is_fatal, exception_code } => {
                    if is_fatal {
                        self.moved(Stage::ResolvingApplication)
                    } else if exception_code == EXCEPTION_BREAKPOINT {
                        self.moved(Stage::FindingHungWindow)
                    } else {
                        self.moved(Stage::Done(Outcome::Ignored))
                    }
                },
                _ => failed,
            },
            Stage::FindingHungWindow => match event {
                Event::HungWindow(Some(thread_id)) => {
                    let mut r = self.moved(Stage::CapturingHungThread);
                    r.hung_thread = thread_id;
                    r
                },
                Event::HungWindow(None) => self.moved(Stage::Done(Outcome::Ignored)),
                _ => failed,
            },
            Stage::CapturingHungThread => match event {
                Event::Completed(true) => {
                    let mut r = self.moved(Stage::ResolvingApplication);
                    r.ui_hang = true;
                    r
                },
                Event::Completed(false) => self.moved(Stage::Done(Outcome::Ignored)),
                _ => failed,
            },
            Stage::ResolvingApplication => match event {
                Event::Completed(done) => self.carry_on(done, Stage::ReadingContext),
                _ => failed,
            },
            Stage::ReadingContext => match event {
                Event::Context(Some(context)) => {
                    let mut r = self.moved(Stage::ReadingStartupTime);
                    r.context = context;
                    r
                },
                _ => failed,
            },
            Stage::ReadingStartupTime => match event {
                Event::StartupTime(Some(startup_time)) => {
                    let mut r = self.moved(Stage::ReadingOomSize);
                    r.startup_time = startup_time;
                    r
                },
                _ => failed,
            },
            Stage::ReadingOomSize => match event {
                Event::OomSize(read) => {
                    let mut r = self.moved(Stage::WritingMinidump);
                    r.oom_allocation_size = match read {
                        Some(size) => size,
                        None => 0,
                    };
                    r
                },
                _ => failed,
            },
            Stage::WritingMinidump => match event {
                Event::Completed(done) => {
                    if self.context.is_main_process() {
                        self.carry_on(done, Stage::WritingExtraFile)
                    } else {
                        self.carry_on(done, Stage::ReadingCommandLine)
                    }
                },
                _ => failed,
            },
            Stage::WritingExtraFile => match event {
                Event::Completed(done) => self.carry_on(done, Stage::WritingEventFile),
                _ => failed,
            },
            Stage::WritingEventFile => match event {
                Event::Completed(done) => self.carry_on(done, Stage::ReadingEnvironment),
                _ => failed,
            },
            Stage::ReadingEnvironment => match event {
                Event::Completed(done) => self.carry_on(done, Stage::LaunchingClient),
                _ => failed,
            },
            Stage::LaunchingClient => match event {
                Event::Completed(_) => self.moved(Stage::Done(Outcome::Reported)),
                _ => failed,
            },
            Stage::ReadingCommandLine => match event {
                Event::ChildData(Some(parent)) => {
                    let mut r = self.moved(Stage::OpeningParent);
                    r.parent_pid = parent.pid;
                    r.shared_address = parent.address;
                    r
                },
                _ => failed,
            },
            Stage::OpeningParent => match event {
                Event::Completed(done) => self.carry_on(done, Stage::ReadingSharedState),
                _ => failed,
            },
            Stage::ReadingSharedState => match event {
                Event::NotifyEntry(Some(entry)) => {
                    let mut r = self.moved(Stage::ReadingChildPid);
                    r.notify_entry = entry;
                    r
                },
                _ => failed,
            },
            Stage::ReadingChildPid => match event {
                Event::Completed(done) => self.carry_on(done, Stage::WritingSharedState),
                _ => failed,
            },
            Stage::WritingSharedState => match event {
                Event::Completed(done) => self.carry_on(done, Stage::StartingNotification),
                _ => failed,
            },
            Stage::StartingNotification => match event {
                Event::Completed(done) => self.carry_on(done, Stage::AwaitingNotification),
                _ => failed,
            },
            Stage::AwaitingNotification => match event {
                Event::Waited(result) => self.carry_on(
                    result == WAIT_OBJECT_0,
                    Stage::ClosingNotification,
                ),
                _ => failed,
            },
            Stage::ClosingNotification => match event {
                Event::Completed(done) => self.carry_on(done, Stage::Done(Outcome::Reported)),
                _ => failed,
            },
        }
    }

    /// What is to be done now.
    pub fn action(&self) -> (action: Action)
        ensures
            action == self.pending(),
    {
        match self.stage {
            Stage::Start => Action::AwaitEvent,
            Stage::FindingHungWindow => Action::FindHungWindow,
            Stage::CapturingHungThread => Action::CaptureThread { thread_id: self.hung_thread },
            Stage::ResolvingApplication => Action::ResolveApplication,
            Stage::ReadingContext => Action::ReadContext,
            Stage::ReadingStartupTime => Action::ReadStartupTime,
            Stage::ReadingOomSize => Action::ReadOomSize {
                address: self.context.oom_allocation_size_ptr,
            },
            Stage::WritingMinidump => Action::WriteMinidump,
            Stage::WritingExtraFile => Action::WriteExtraFile,
            Stage::WritingEventFile => Action::WriteEventFile,
            Stage::ReadingEnvironment => Action::ReadEnvironment,
            Stage::LaunchingClient => Action::LaunchClient,
            Stage::ReadingCommandLine => Action::ReadCommandLine,
            Stage::OpeningParent => Action::OpenParent { pid: self.parent_pid },
            Stage::ReadingSharedState => Action::ReadSharedState { address: self.shared_address },
            Stage::ReadingChildPid => Action::ReadChildPid,
            Stage::WritingSharedState => Action::WriteSharedState { address: self.shared_address },
            Stage::StartingNotification => Action::StartNotification {
                entry: self.notify_entry,
                parameter: self.shared_address,
            },
            Stage::AwaitingNotification => Action::AwaitNotification {
                timeout_ms: NOTIFY_TIMEOUT_MS,
            },
            Stage::ClosingNotification => Action::CloseNotification,
            Stage::Done(outcome) => Action::Finish(outcome),
        }
    }

    /// How the handling ended, once it has.
    pub fn outcome(&self) -> (r: Option<Outcome>)
        ensures
            r == match self.stage {
                Stage::Done(outcome) => Some(outcome),
                _ => None::<Outcome>,
            },
    {
        match self.stage {
            Stage::Done(outcome) => Some(outcome),
            _ => None,
        }
    }
}

/// Whether an outcome is told to the host as success: all but failure.
pub fn is_handled(outcome: Outcome) -> (r: bool)
    ensures
        r == (outcome != Outcome::Failed),
{
    match outcome {
        Outcome::Failed => false,
        _ => true,
    }
}

/// An event that is not fatal and is no breakpoint is ignored at once: the
/// first answer ends the handling, and nothing is asked of the crashed
/// process, whatever comes later.
pub proof fn lemma_other_events_are_ignored(exception_code: i32, later: Seq<Event>)
    requires
        exception_code != EXCEPTION_BREAKPOINT,
    ensures
        Pipeline::initial().next(Event::Crash { is_fatal: false, exception_code }).pending()
            == Action::Finish(Outcome::Ignored),
        Pipeline::initial().next(Event::Crash { is_fatal: false, exception_code }).run(
            later,
        ).pending() == Action::Finish(Outcome::Ignored),
{
    lemma_done_is_final(
        Pipeline::initial().next(Event::Crash { is_fatal: false, exception_code }),
        later,
    );
}

/// What has ended stays ended, as it ended.
pub proof fn lemma_done_is_final(pipeline: Pipeline, events: Seq<Event>)
    requires
        pipeline.stage is Done,
    ensures
        pipeline.run(events) == pipeline,
    decreases events.len(),
{
    if events.len() > 0 {
        lemma_done_is_final(pipeline, events.skip(1));
    }
}

/// Every answer brings the end nearer: no question is asked twice.
pub proof fn lemma_every_step_advances(pipeline: Pipeline, event: Event)
    requires
        !(pipeline.stage is Done),
    ensures
        pipeline.next(event).questions_left() < pipeline.questions_left(),
{
}

/// After as many answers as there were questions left, the handling has
/// ended.
pub proof fn lemma_run_ends(pipeline: Pipeline, events: Seq<Event>)
    requires
        events.len() >= pipeline.questions_left(),
    ensures
        pipeline.run(events).stage is Done,
    decreases events.len(),
{
    if pipeline.stage is Done {
        lemma_done_is_final(pipeline, events);
    } else {
        lemma_every_step_advances(pipeline, events[0]);
        lemma_run_ends(pipeline.next(events[0]), events.skip(1));
    }
}

/// A parent that cannot be opened is never written to: the failure ends the
/// handling, whatever the command line said and whatever comes later.
pub proof fn lemma_unopened_parent_is_not_written(pipeline: Pipeline, later: Seq<Event>)
    requires
        pipeline.stage == Stage::OpeningParent,
    ensures
        pipeline.next(Event::Completed(false)).pending() == Action::Finish(Outcome::Failed),
        pipeline.next(Event::Completed(false)).run(later).pending() == Action::Finish(
            Outcome::Failed,
        ),
{
    lemma_done_is_final(pipeline.next(Event::Completed(false)), later);
}

/// The child's record is written only after it was read, and read only after
/// the parent was opened.
pub proof fn lemma_write_follows_open_and_read(pipeline: Pipeline, event: Event)
    ensures
        pipeline.next(event).stage == Stage::WritingSharedState && pipeline.stage
            != Stage::WritingSharedState ==> pipeline.stage == Stage::ReadingChildPid && event
            == Event::Completed(true),
        pipeline.next(event).stage == Stage::ReadingChildPid && pipeline.stage
            != Stage::ReadingChildPid ==> pipeline.stage == Stage::ReadingSharedState && event
            is NotifyEntry,
        pipeline.next(event).stage == Stage::ReadingSharedState && pipeline.stage
            != Stage::ReadingSharedState ==> pipeline.stage == Stage::OpeningParent && event
            == Event::Completed(true),
{
}

/// The three failures that do not fail the event: a hang that cannot be
/// pinned down is ignored, an allocation size that cannot be read counts as
/// zero, and a client that cannot be started leaves the report reported.
pub proof fn lemma_failures_that_are_borne(pipeline: Pipeline)
    ensures
        pipeline.stage == Stage::FindingHungWindow ==> pipeline.next(
            Event::HungWindow(None),
        ).stage == Stage::Done(Outcome::Ignored),
        pipeline.stage == Stage::CapturingHungThread ==> pipeline.next(
            Event::Completed(false),
        ).stage == Stage::Done(Outcome::Ignored),
        pipeline.stage == Stage::ReadingOomSize ==> pipeline.next(Event::OomSize(None)).stage
            == Stage::WritingMinidump && pipeline.next(Event::OomSize(None)).oom_allocation_size
            == 0,
        pipeline.stage == Stage::LaunchingClient ==> pipeline.next(Event::Completed(false)).stage
            == Stage::Done(Outcome::Reported),
{
}

/// One more answer is taken after all those before it.
pub proof fn lemma_run_push(pipeline: Pipeline, events: Seq<Event>, event: Event)
    ensures
        pipeline.run(events.push(event)) == pipeline.run(events).next(event),
    decreases events.len(),
{
    if events.len() == 0 {
        assert(events.push(event).skip(1) == Seq::<Event>::empty());
        assert(pipeline.next(event).run(Seq::<Event>::empty()) == pipeline.next(event));
    } else {
        assert(events.push(event).skip(1) == events.skip(1).push(event));
        lemma_run_push(pipeline.next(events[0]), events.skip(1), event);
    }
}

/// The answers to a crash of the main process in which nothing fails but
/// what is borne: the allocation size may be unreadable and the client may
/// not start.
pub open spec fn main_process_course(
    exception_code: i32,
    context: InProcessCrashContext,
    startup_time: u64,
    oom_allocation_size: Option<usize>,
    client_started: bool,
) -> Seq<Event> {
    seq![
        Event::Crash { is_fatal: true, exception_code },
        Event::Completed(true),
        Event::Context(Some(context)),
        Event::StartupTime(Some(startup_time)),
        Event::OomSize(oom_allocation_size),
        Event::Completed(true),
        Event::Completed(true),
        Event::Completed(true),
        Event::Completed(true),
        Event::Completed(client_started),
    ]
}

/// A crash of the main process in which nothing fails but what is borne is
/// reported. The report is made for a crash, not a hang, with the start-up
/// time as it was read and the allocation size as it was read, or zero.
pub proof fn lemma_main_process_crash_is_reported(
    exception_code: i32,
    context: InProcessCrashContext,
    startup_time: u64,
    oom_allocation_size: Option<usize>,
    client_started: bool,
)
    requires
        context.process_type == MAIN_PROCESS_TYPE,
    ensures
        ({
            let end = Pipeline::initial().run(
                main_process_course(
                    exception_code,
                    context,
                    startup_time,
                    oom_allocation_size,
                    client_started,
                ),
            );
            &&& end.stage == Stage::Done(Outcome::Reported)
            &&& !end.ui_hang
            &&& end.startup_time == startup_time
            &&& end.oom_allocation_size == match oom_allocation_size {
                Some(size) => size,
                None => 0,
            }
        }),
{
    let course = main_process_course(
        exception_code,
        context,
        startup_time,
        oom_allocation_size,
        client_started,
    );
    let start = Pipeline::initial();
    assert(course.take(0) == Seq::<Event>::empty());
    assert(start.run(course.take(0)) == start);
    lemma_run_push(start, course.take(0), course[0]);
    assert(course.take(1) == course.take(0).push(course[0]));
    lemma_run_push(start, course.take(1), course[1]);
    assert(course.take(2) == course.take(1).push(course[1]));
    lemma_run_push(start, course.take(2), course[2]);
    assert(course.take(3) == course.take(2).push(course[2]));
    lemma_run_push(start, course.take(3), course[3]);
    assert(course.take(4) == course.take(3).push(course[3]));
    lemma_run_push(start, course.take(4), course[4]);
    assert(course.take(5) == course.take(4).push(course[4]));
    lemma_run_push(start, course.take(5), course[5]);
    assert(course.take(6) == course.take(5).push(course[5]));
    lemma_run_push(start, course.take(6), course[6]);
    assert(course.take(7) == course.take(6).push(course[6]));
    lemma_run_push(start, course.take(7), course[7]);
    assert(course.take(8) == course.take(7).push(course[7]));
    lemma_run_push(start, course.take(8), course[8]);
    assert(course.take(9) == course.take(8).push(course[8]));
    lemma_run_push(start, course.take(9), course[9]);
    assert(course.take(10) == course.take(9).push(course[9]));
    assert(course.take(10) == course);
}

} // verus!
