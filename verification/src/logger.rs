//! The logger engine: the shared configuration state, the decision logic
//! of the dispatch protocol (synchronous or through a worker), the
//! lazily-opened file sink's handle state, and the ordered hook registry.
//!
//! The engine itself performs no I/O and spawns no thread: it resolves,
//! renders and decides. A caller owning the actual sinks performs each
//! returned action, writes the returned lines (sinks first, hooks after),
//! and reports outcomes back, so every decision here is verified while
//! the effects stay at the edge.

use vstd::prelude::*;

use crate::hooks::LogHook;
use crate::model::{resolve_style, resolves_to, LogComponent, LogMessage, LogType};
use crate::render::{is_hms, now_hms, render_text, render_with_time};

verus! {

/// The mutable, shared configuration object: sinks enabled, output path,
/// component pipeline, hook list, threading mode, plus the model of the
/// private runtime state (whether a worker is running and whether the
/// file sink's handle is currently cached).
pub struct Logger<H: LogHook> {
    pub console: bool,
    pub file: bool,
    pub threaded: bool,
    pub worker_running: bool,
    pub output_file: String,
    pub file_sink_open: bool,
    pub components: Vec<LogComponent>,
    pub hooks: Vec<H>,
}

/// A unit of deferred log work: the event's kind and raw text, packaged
/// so it can cross to a worker and be executed later.
#[derive(Debug)]
pub enum LogTask {
    Event { log_type: LogType, text: String },
}

/// What one log call asks the sinks to do: the resolved message for the
/// hooks, the colored line for the console (when enabled), and the plain
/// line for the file (when enabled). No coloring escape sequences ever go
/// to the file.
#[derive(Debug)]
pub struct LogOutput {
    pub message: LogMessage,
    pub console_line: Option<String>,
    pub file_line: Option<String>,
}

/// How a log call is dispatched: packaged for the worker queue, or
/// rendered inline on the calling thread.
#[derive(Debug)]
pub enum Dispatch {
    Enqueue(LogTask),
    Inline(LogOutput),
}

/// What a threading transition demands of the runtime: spawn a worker,
/// join the running worker (blocking until it has drained), or nothing.
#[derive(Clone, Copy, PartialEq, Eq, Structural, Debug)]
pub enum ThreadAction {
    SpawnWorker,
    JoinWorker,
    Unchanged,
}

/// How the next file write must proceed: open the file in append+create
/// mode first (no handle is cached), or reuse the cached handle.
#[derive(Clone, Copy, PartialEq, Eq, Structural, Debug)]
pub enum FileWritePlan {
    OpenThenWrite,
    WriteCached,
}

/// The default component pipeline: time, space, prefix, space, message.
pub open spec fn default_components(cs: Seq<LogComponent>) -> bool {
    cs == seq![
        LogComponent::Time,
        LogComponent::Spacer,
        LogComponent::Prefix,
        LogComponent::Spacer,
        LogComponent::Message,
    ]
}

/// The state a freshly constructed logger is in: console on, file sink
/// off with path `debug.log`, synchronous, default pipeline, no hooks.
pub open spec fn is_default_logger<H: LogHook>(l: Logger<H>) -> bool {
    &&& l.console == true
    &&& l.file == false
    &&& l.threaded == false
    &&& l.worker_running == false
    &&& l.file_sink_open == false
    &&& l.output_file@ == "debug.log"@
    &&& default_components(l.components@)
    &&& l.hooks@ == Seq::<H>::empty()
}

/// What `set_file` does: it sets the flag, and disabling the sink drops
/// the cached handle, so a later enable starts from a closed sink and the
/// next write opens the file afresh. Nothing else changes.
pub open spec fn set_file_post<H: LogHook>(pre: Logger<H>, post: Logger<H>, file: bool) -> bool {
    &&& post.file == file
    &&& post.file_sink_open == (if file {
        pre.file_sink_open
    } else {
        false
    })
    &&& post.console == pre.console
    &&& post.threaded == pre.threaded
    &&& post.worker_running == pre.worker_running
    &&& post.output_file == pre.output_file
    &&& post.components == pre.components
    &&& post.hooks == pre.hooks
}

/// What `set_threaded` does: the flag follows the argument; a worker is
/// spawned exactly when threading turns on with no worker running, and
/// joined exactly when it turns off with one running; enabling twice or
/// disabling twice is a no-op. Nothing else changes.
pub open spec fn set_threaded_post<H: LogHook>(
    pre: Logger<H>,
    post: Logger<H>,
    threaded: bool,
    action: ThreadAction,
) -> bool {
    &&& post.threaded == threaded
    &&& ((action is SpawnWorker) <==> (threaded && !pre.worker_running))
    &&& ((action is JoinWorker) <==> (!threaded && pre.worker_running))
    &&& post.worker_running == (if action is SpawnWorker {
        true
    } else if action is JoinWorker {
        false
    } else {
        pre.worker_running
    })
    &&& post.console == pre.console
    &&& post.file == pre.file
    &&& post.file_sink_open == pre.file_sink_open
    &&& post.output_file == pre.output_file
    &&& post.components == pre.components
    &&& post.hooks == pre.hooks
}

impl<H: LogHook> Logger<H> {
    /// Validity of the runtime model: a handle is cached only while the
    /// file sink is enabled, and the threading flag agrees with the
    /// worker's existence.
    pub open spec fn wf(self) -> bool {
        &&& (self.file_sink_open ==> self.file)
        &&& self.threaded == self.worker_running
    }

    /// What one log call returns: the message carries the given kind and
    /// text with the style the kind resolves to, and for one clock
    /// reading, the console line is the colored rendering exactly when
    /// the console sink is on, and the file line the plain rendering
    /// exactly when the file sink is on.
    pub open spec fn log_output_ok(self, log_type: LogType, text: Seq<char>, out: LogOutput) -> bool {
        &&& out.message.log_type == log_type
        &&& out.message.log_message@ == text
        &&& resolves_to(log_type, out.message.log_style)
        &&& exists|t: Seq<char>|
            {
                &&& #[trigger] is_hms(t)
                &&& (self.console ==> (out.console_line matches Some(c) && c@ == render_text(
                    self.components@,
                    out.message,
                    true,
                    t,
                )))
                &&& (!self.console ==> out.console_line is None)
                &&& (self.file ==> (out.file_line matches Some(f) && f@ == render_text(
                    self.components@,
                    out.message,
                    false,
                    t,
                )))
                &&& (!self.file ==> out.file_line is None)
            }
    }

    pub fn set_console(&mut self, console: bool)
        ensures
            *final(self) == (Logger { console, ..*old(self) }),
    {
        self.console = console;
    }

    pub fn set_file(&mut self, file: bool)
        ensures
            set_file_post(*old(self), *final(self), file),
            old(self).wf() ==> final(self).wf(),
    {
        self.file = file;
        if !file {
            self.file_sink_open = false;
        }
    }

    pub fn set_output_file(&mut self, output_file: String)
        ensures
            *final(self) == (Logger { output_file, ..*old(self) }),
    {
        self.output_file = output_file;
    }

    pub fn set_components(&mut self, components: Vec<LogComponent>)
        ensures
            *final(self) == (Logger { components, ..*old(self) }),
    {
        self.components = components;
    }

    /// Append a hook to the ordered registry; it will observe every
    /// later message after the hooks registered before it.
    pub fn add_hook(&mut self, hook: H)
        ensures
            *final(self) == (Logger { hooks: final(self).hooks, ..*old(self) }),
            final(self).hooks@ == old(self).hooks@.push(hook),
    {
        self.hooks.push(hook);
    }

    /// Switch between synchronous dispatch and the worker, returning what
    /// the runtime must now do with its worker thread.
    pub fn set_threaded(&mut self, threaded: bool) -> (action: ThreadAction)
        ensures
            set_threaded_post(*old(self), *final(self), threaded, action),
            old(self).wf() ==> final(self).wf(),
    {
        let action = if threaded && !self.worker_running {
            self.worker_running = true;
            ThreadAction::SpawnWorker
        } else if !threaded && self.worker_running {
            self.worker_running = false;
            ThreadAction::JoinWorker
        } else {
            ThreadAction::Unchanged
        };
        self.threaded = threaded;
        action
    }

    /// Resolve, render, and say what the sinks must receive. Reads the
    /// clock once, so both lines show the same time. Rendering never
    /// fails and no message is dropped here: whenever the console sink is
    /// on a console line is produced, whatever the file sink's state.
    pub fn log(&self, log_type: LogType, text: &str) -> (out: LogOutput)
        ensures
            self.log_output_ok(log_type, text@, out),
    {
        let style = resolve_style(&log_type);
        let message = LogMessage { log_type, log_message: String::from_str(text), log_style: style };
        let time = now_hms();
        let console_line = if self.console {
            Some(render_with_time(&self.components, &message, true, time.as_str()))
        } else {
            None
        };
        let file_line = if self.file {
            Some(render_with_time(&self.components, &message, false, time.as_str()))
        } else {
            None
        };
        let out = LogOutput { message, console_line, file_line };
        proof {
            assert(is_hms(time@));
        }
        out
    }

    /// The entry point's dispatch decision: with threading on, package
    /// the event as a task for the queue; otherwise render inline.
    pub fn execute_log(&self, log_type: LogType, text: &str) -> (d: Dispatch)
        ensures
            self.threaded ==> (d matches Dispatch::Enqueue(task) && (task matches LogTask::Event {
                log_type: lt,
                text: tx,
            } && lt == log_type && tx@ == text@)),
            !self.threaded ==> (d matches Dispatch::Inline(out) && self.log_output_ok(
                log_type,
                text@,
                out,
            )),
    {
        if self.threaded {
            Dispatch::Enqueue(LogTask::Event { log_type, text: String::from_str(text) })
        } else {
            Dispatch::Inline(self.log(log_type, text))
        }
    }

    /// Execute one dequeued task: exactly a synchronous log of the kind
    /// and text it packaged, so a worker draining the queue in submission
    /// order produces the submitted events' output in submission order.
    pub fn run_task(&self, task: &LogTask) -> (out: LogOutput)
        ensures
            task matches LogTask::Event { log_type, text } ==> self.log_output_ok(
                *log_type,
                text@,
                out,
            ),
    {
        match task {
            LogTask::Event { log_type, text } => self.log(log_type.clone(), text.as_str()),
        }
    }

    /// Recovery when submitting to the queue fails (the worker is gone):
    /// fall back to synchronous mode, then deliver the triggering task's
    /// event inline, so the message is never lost.
    pub fn fallback_to_sync(&mut self, task: &LogTask) -> (r: (ThreadAction, LogOutput))
        ensures
            set_threaded_post(*old(self), *final(self), false, r.0),
            task matches LogTask::Event { log_type, text } ==> final(self).log_output_ok(
                *log_type,
                text@,
                r.1,
            ),
    {
        let action = self.set_threaded(false);
        let out = self.run_task(task);
        (action, out)
    }

    /// How the next write to the file sink must proceed: a fresh
    /// append+create open exactly when no handle is cached.
    pub fn plan_file_write(&self) -> (p: FileWritePlan)
        ensures
            (p is OpenThenWrite) <==> !self.file_sink_open,
    {
        if self.file_sink_open {
            FileWritePlan::WriteCached
        } else {
            FileWritePlan::OpenThenWrite
        }
    }

    /// Record the outcome of an open attempt: a successful open caches
    /// the handle, a failed one leaves the sink closed (the line for that
    /// attempt was dropped from the file sink only; nothing else is
    /// touched, so console output and hooks are unaffected).
    pub fn note_file_open(&mut self, opened: bool)
        requires
            opened ==> old(self).file,
        ensures
            *final(self) == (Logger { file_sink_open: opened, ..*old(self) }),
            old(self).wf() ==> final(self).wf(),
    {
        self.file_sink_open = opened;
    }

    /// Invoke every hook, in registration order, each with the same
    /// message: each hook's observation record is extended by exactly
    /// this message, so per hook the record lists the dispatched messages
    /// in dispatch order. Nothing else changes.
    pub fn execute_hooks(&mut self, message: &LogMessage)
        ensures
            final(self).hooks@.len() == old(self).hooks@.len(),
            forall|i: int|
                0 <= i < old(self).hooks@.len() ==> #[trigger] final(self).hooks@[i].observed()
                    == old(self).hooks@[i].observed().push(*message),
            final(self).console == old(self).console,
            final(self).file == old(self).file,
            final(self).threaded == old(self).threaded,
            final(self).worker_running == old(self).worker_running,
            final(self).output_file == old(self).output_file,
            final(self).file_sink_open == old(self).file_sink_open,
            final(self).components == old(self).components,
    {
        let mut i: usize = 0;
        while i < self.hooks.len()
            invariant
                i <= self.hooks@.len(),
                self.hooks@.len() == old(self).hooks@.len(),
                forall|j: int|
                    0 <= j < i ==> #[trigger] self.hooks@[j].observed() == old(
                        self,
                    ).hooks@[j].observed().push(*message),
                forall|j: int|
                    i <= j < self.hooks@.len() ==> #[trigger] self.hooks@[j] == old(self).hooks@[j],
                self.console == old(self).console,
                self.file == old(self).file,
                self.threaded == old(self).threaded,
                self.worker_running == old(self).worker_running,
                self.output_file == old(self).output_file,
                self.file_sink_open == old(self).file_sink_open,
                self.components == old(self).components,
            decreases self.hooks@.len() - i,
        {
            self.hooks[i].on_message(message);
            i = i + 1;
        }
    }
}

impl<H: LogHook> Default for Logger<H> {
    /// Console on, file sink off with path `debug.log`, synchronous, the
    /// default pipeline, and no hooks.
    fn default() -> (l: Self)
        ensures
            is_default_logger(l),
            l.wf(),
    {
        let mut components: Vec<LogComponent> = Vec::new();
        components.push(LogComponent::Time);
        components.push(LogComponent::Spacer);
        components.push(LogComponent::Prefix);
        components.push(LogComponent::Spacer);
        components.push(LogComponent::Message);
        let l = Logger {
            console: true,
            file: false,
            threaded: false,
            worker_running: false,
            output_file: String::from_str("debug.log"),
            file_sink_open: false,
            components,
            hooks: Vec::new(),
        };
        proof {
            assert(default_components(l.components@)) by {
                assert(l.components@ =~= seq![
                    LogComponent::Time,
                    LogComponent::Spacer,
                    LogComponent::Prefix,
                    LogComponent::Spacer,
                    LogComponent::Message,
                ]);
            }
        }
        l
    }
}

/// The worker protocol over the threading transitions: disabling with a
/// worker running demands the blocking join (only after it has drained
/// and exited does the transition complete), enabling when a worker
/// already runs is a no-op, and the model never loses a worker except by
/// joining it — so no queued task is abandoned by a transition.
pub proof fn lemma_threading_protocol<H: LogHook>(
    pre: Logger<H>,
    post: Logger<H>,
    threaded: bool,
    action: ThreadAction,
)
    requires
        set_threaded_post(pre, post, threaded, action),
    ensures
        (!threaded && pre.worker_running) ==> action is JoinWorker,
        (threaded && pre.worker_running) ==> (action is Unchanged && post.worker_running),
        (!threaded && !pre.worker_running) ==> action is Unchanged,
        !post.worker_running ==> ((action is JoinWorker) || !pre.worker_running),
{
}

/// Disabling the file sink and re-enabling it leaves the sink closed:
/// the cached handle is gone, so the next write plans a fresh
/// append-mode open of the same path rather than reusing a stale handle.
pub proof fn lemma_file_reenable_opens_fresh<H: LogHook>(l0: Logger<H>, l1: Logger<H>, l2: Logger<H>)
    requires
        set_file_post(l0, l1, false),
        set_file_post(l1, l2, true),
    ensures
        !l2.file_sink_open,
        l2.output_file == l0.output_file,
{
}

/// The console sink does not depend on the file sink: whenever the
/// console is enabled, a log call produces a console line, whatever the
/// file sink's state or the outcome of a file open; and the hooks take
/// the resolved message, which exists in every case too.
pub proof fn lemma_console_line_despite_file_failure<H: LogHook>(
    l: Logger<H>,
    log_type: LogType,
    text: Seq<char>,
    out: LogOutput,
)
    requires
        l.console,
        l.log_output_ok(log_type, text, out),
    ensures
        out.console_line is Some,
        out.message.log_type == log_type,
        out.message.log_message@ == text,
{
    let t = choose|t: Seq<char>|
        {
            &&& #[trigger] is_hms(t)
            &&& (l.console ==> (out.console_line matches Some(c) && c@ == render_text(
                l.components@,
                out.message,
                true,
                t,
            )))
            &&& (!l.console ==> out.console_line is None)
            &&& (l.file ==> (out.file_line matches Some(f) && f@ == render_text(
                l.components@,
                out.message,
                false,
                t,
            )))
            &&& (!l.file ==> out.file_line is None)
        };
    assert(is_hms(t));
}

/// Fluent construction for a logger: defaults, then option setters, then
/// an owned `Logger`. No validation: any combination of options is legal,
/// including both sinks off (logging is then a no-op except for hooks).
pub struct LoggerBuilder<H: LogHook> {
    logger: Logger<H>,
}

impl<H: LogHook> LoggerBuilder<H> {
    /// The logger this builder currently holds.
    pub closed spec fn spec_logger(&self) -> Logger<H> {
        self.logger
    }

    pub fn new() -> (b: Self)
        ensures
            is_default_logger(b.spec_logger()),
            b.spec_logger().wf(),
    {
        LoggerBuilder { logger: Logger::default() }
    }

    pub fn console(self, console: bool) -> (b: Self)
        ensures
            b.spec_logger() == (Logger { console, ..self.spec_logger() }),
    {
        let mut logger = self.logger;
        logger.set_console(console);
        LoggerBuilder { logger }
    }

    pub fn file(self, file: bool) -> (b: Self)
        ensures
            set_file_post(self.spec_logger(), b.spec_logger(), file),
    {
        let mut logger = self.logger;
        logger.set_file(file);
        LoggerBuilder { logger }
    }

    pub fn output_file(self, output_file: String) -> (b: Self)
        ensures
            b.spec_logger() == (Logger { output_file, ..self.spec_logger() }),
    {
        let mut logger = self.logger;
        logger.set_output_file(output_file);
        LoggerBuilder { logger }
    }

    pub fn components(self, components: Vec<LogComponent>) -> (b: Self)
        ensures
            b.spec_logger() == (Logger { components, ..self.spec_logger() }),
    {
        let mut logger = self.logger;
        logger.set_components(components);
        LoggerBuilder { logger }
    }

    pub fn add_hook(self, hook: H) -> (b: Self)
        ensures
            b.spec_logger() == (Logger { hooks: b.spec_logger().hooks, ..self.spec_logger() }),
            b.spec_logger().hooks@ == self.spec_logger().hooks@.push(hook),
    {
        let mut logger = self.logger;
        logger.add_hook(hook);
        LoggerBuilder { logger }
    }

    pub fn build(self) -> (l: Logger<H>)
        ensures
            l == self.spec_logger(),
    {
        self.logger
    }
}

} // verus!
