//! The job and connection scheduler.
//!
//! Four long-lived connection loops run concurrently: the primary
//! inbox loop with job execution, two watch-only mailbox loops, and
//! the outbound transport loop.  The loops themselves are tasks the
//! embedder runs; this module holds the scheduler state machine, the
//! non-blocking interrupt channels that wake an idle loop, and the
//! per-iteration decision logic of the loops.

use vstd::prelude::*;

verus! {

/// The payload carried by an interrupt: whether the network should be
/// probed again, and an optional message id whose send was unblocked.
#[derive(Debug, Copy, Clone, PartialEq, Eq, Structural)]
pub struct InterruptInfo {
    /// The environment signals the network likely came back.
    pub probe_network: bool,
    /// A message that is now ready to be sent.
    pub correlated_msg_id: Option<u32>,
}

impl InterruptInfo {
    /// An interrupt that only probes the network.
    pub fn probe() -> (r: InterruptInfo)
        ensures
            r.probe_network,
            r.correlated_msg_id is None,
    {
        InterruptInfo { probe_network: true, correlated_msg_id: None }
    }
}

/// A single-slot signaling channel used to wake a blocked wait.
///
/// Sending never blocks: when the slot is full the new value is
/// dropped, which is acceptable because a pending interrupt already
/// wakes the receiver.
#[derive(Debug, Copy, Clone, PartialEq, Eq, Structural)]
pub struct InterruptChannel {
    /// The pending interrupt, if one is queued.
    pub slot: Option<InterruptInfo>,
}

/// The channel after a non-blocking send: the value is queued when
/// the slot is free and dropped otherwise.
pub open spec fn chan_after_send(c: InterruptChannel, info: InterruptInfo) -> InterruptChannel {
    if c.slot is None {
        InterruptChannel { slot: Some(info) }
    } else {
        c
    }
}

impl InterruptChannel {
    /// An empty channel.
    pub fn new() -> (r: InterruptChannel)
        ensures
            r.slot is None,
    {
        InterruptChannel { slot: None }
    }

    /// Queue an interrupt without blocking.  Returns whether the
    /// value was queued; a full slot drops it.
    pub fn try_send(&mut self, info: InterruptInfo) -> (r: bool)
        ensures
            *final(self) == chan_after_send(*old(self), info),
            r == (old(self).slot is None),
    {
        match self.slot {
            None => {
                self.slot = Some(info);
                true
            },
            Some(_) => false,
        }
    }

    /// Take the pending interrupt, if any.
    pub fn take(&mut self) -> (r: Option<InterruptInfo>)
        ensures
            r == old(self).slot,
            final(self).slot is None,
    {
        let got = self.slot;
        self.slot = None;
        got
    }
}

/// Connection state logic shared between inbound and outbound
/// connections: a stop signal, a shutdown acknowledgment, and the
/// idle-interrupt channel.
#[derive(Debug, Copy, Clone, PartialEq, Eq, Structural)]
pub struct ConnectionState {
    /// The loop was asked to shut down.
    pub stop_requested: bool,
    /// The loop acknowledged that it has fully exited.
    pub shutdown_acked: bool,
    /// Channel to interrupt an idle wait.
    pub idle_interrupt: InterruptChannel,
}

impl ConnectionState {
    /// A fresh connection state: not stopping, nothing pending.
    pub fn new() -> (r: ConnectionState)
        ensures
            r == fresh_connection(),
    {
        ConnectionState {
            stop_requested: false,
            shutdown_acked: false,
            idle_interrupt: InterruptChannel::new(),
        }
    }

    /// Signal the loop to stop.  The embedder then blocks until the
    /// loop acknowledges shutdown ([`ConnectionState::ack_shutdown`]);
    /// this asymmetry — non-blocking interrupt, blocking stop — keeps
    /// network notifications cheap while shutdown stays deterministic.
    pub fn stop(&mut self)
        ensures
            *final(self) == (ConnectionState { stop_requested: true, ..*old(self) }),
    {
        self.stop_requested = true;
    }

    /// Record the loop's shutdown acknowledgment.
    pub fn ack_shutdown(&mut self)
        ensures
            *final(self) == (ConnectionState { shutdown_acked: true, ..*old(self) }),
    {
        self.shutdown_acked = true;
    }

    /// Best-effort wake of an idle wait; never blocks the caller.
    pub fn interrupt(&mut self, info: InterruptInfo)
        ensures
            *final(self) == (ConnectionState {
                idle_interrupt: chan_after_send(old(self).idle_interrupt, info),
                ..*old(self)
            }),
    {
        self.idle_interrupt.try_send(info);
    }
}

/// A fresh connection state.
pub open spec fn fresh_connection() -> ConnectionState {
    ConnectionState {
        stop_requested: false,
        shutdown_acked: false,
        idle_interrupt: InterruptChannel { slot: None },
    }
}

/// Proof that [`Scheduler::pre_stop`] ran; [`Scheduler::stop`]
/// consumes it.  It has no public constructor, so calling `stop`
/// without a prior `pre_stop` does not compile.
pub struct StopToken(());

/// The scheduler: stopped, or running with its four connections.
///
/// The task handles of the four loops are owned by the embedder that
/// spawned them; it joins them between `pre_stop` and `stop`.
#[derive(Debug, Copy, Clone, PartialEq, Eq, Structural)]
pub enum Scheduler {
    Stopped,
    Running {
        /// Primary inbox watcher, also executing jobs.
        inbox: ConnectionState,
        /// Secondary watcher for the special messages mailbox.
        mvbox: ConnectionState,
        /// Secondary watcher for the sent-messages mailbox.
        sentbox: ConnectionState,
        /// Outbound transport, executing send jobs.
        smtp: ConnectionState,
    },
}

/// Which of the four connections an interrupt addresses.
#[derive(Debug, Copy, Clone, PartialEq, Eq, Structural)]
pub enum ConnKind {
    Inbox,
    Mvbox,
    Sentbox,
    Smtp,
}

/// The scheduler after a best-effort interrupt of one connection:
/// while stopped nothing at all happens.
pub open spec fn interrupt_spec(s: Scheduler, which: ConnKind, info: InterruptInfo) -> Scheduler {
    match s {
        Scheduler::Stopped => s,
        Scheduler::Running { inbox, mvbox, sentbox, smtp } => {
            match which {
                ConnKind::Inbox => Scheduler::Running {
                    inbox: ConnectionState {
                        idle_interrupt: chan_after_send(inbox.idle_interrupt, info),
                        ..inbox
                    },
                    mvbox,
                    sentbox,
                    smtp,
                },
                ConnKind::Mvbox => Scheduler::Running {
                    inbox,
                    mvbox: ConnectionState {
                        idle_interrupt: chan_after_send(mvbox.idle_interrupt, info),
                        ..mvbox
                    },
                    sentbox,
                    smtp,
                },
                ConnKind::Sentbox => Scheduler::Running {
                    inbox,
                    mvbox,
                    sentbox: ConnectionState {
                        idle_interrupt: chan_after_send(sentbox.idle_interrupt, info),
                        ..sentbox
                    },
                    smtp,
                },
                ConnKind::Smtp => Scheduler::Running {
                    inbox,
                    mvbox,
                    sentbox,
                    smtp: ConnectionState {
                        idle_interrupt: chan_after_send(smtp.idle_interrupt, info),
                        ..smtp
                    },
                },
            }
        },
    }
}

/// The scheduler after the first shutdown phase: every connection
/// has its stop signal raised.
pub open spec fn pre_stop_spec(s: Scheduler) -> Scheduler {
    match s {
        Scheduler::Stopped => s,
        Scheduler::Running { inbox, mvbox, sentbox, smtp } => Scheduler::Running {
            inbox: ConnectionState { stop_requested: true, ..inbox },
            mvbox: ConnectionState { stop_requested: true, ..mvbox },
            sentbox: ConnectionState { stop_requested: true, ..sentbox },
            smtp: ConnectionState { stop_requested: true, ..smtp },
        },
    }
}

/// A freshly started scheduler: running, with four fresh connections.
pub open spec fn started_scheduler() -> Scheduler {
    Scheduler::Running {
        inbox: fresh_connection(),
        mvbox: fresh_connection(),
        sentbox: fresh_connection(),
        smtp: fresh_connection(),
    }
}

impl Scheduler {
    /// Whether the scheduler is running.
    pub open spec fn spec_is_running(self) -> bool {
        self is Running
    }

    /// Check if the scheduler is running.
    pub fn is_running(&self) -> (r: bool)
        ensures
            r == self.spec_is_running(),
    {
        match self {
            Scheduler::Running { .. } => true,
            Scheduler::Stopped => false,
        }
    }

    /// Start the scheduler.  Starting an already-running scheduler is
    /// a caller error, excluded by the precondition; the embedder then
    /// spawns the four loop tasks, each wired to one connection, and
    /// waits until every loop signalled that its initial connect step
    /// completed.
    pub fn start(&mut self)
        requires
            *old(self) is Stopped,
        ensures
            *final(self) == started_scheduler(),
    {
        *self = Scheduler::Running {
            inbox: ConnectionState::new(),
            mvbox: ConnectionState::new(),
            sentbox: ConnectionState::new(),
            smtp: ConnectionState::new(),
        };
    }

    /// Best-effort wake of the inbox loop; a no-op while stopped.
    /// Never blocks and never fails, whatever the state.
    pub fn interrupt_inbox(&mut self, info: InterruptInfo)
        ensures
            *final(self) == interrupt_spec(*old(self), ConnKind::Inbox, info),
    {
        match self {
            Scheduler::Running { inbox, .. } => {
                inbox.interrupt(info);
            },
            Scheduler::Stopped => {},
        }
    }

    /// Best-effort wake of the special-mailbox loop; no-op while stopped.
    pub fn interrupt_mvbox(&mut self, info: InterruptInfo)
        ensures
            *final(self) == interrupt_spec(*old(self), ConnKind::Mvbox, info),
    {
        match self {
            Scheduler::Running { mvbox, .. } => {
                mvbox.interrupt(info);
            },
            Scheduler::Stopped => {},
        }
    }

    /// Best-effort wake of the sent-mailbox loop; no-op while stopped.
    pub fn interrupt_sentbox(&mut self, info: InterruptInfo)
        ensures
            *final(self) == interrupt_spec(*old(self), ConnKind::Sentbox, info),
    {
        match self {
            Scheduler::Running { sentbox, .. } => {
                sentbox.interrupt(info);
            },
            Scheduler::Stopped => {},
        }
    }

    /// Best-effort wake of the outbound loop; no-op while stopped.
    pub fn interrupt_smtp(&mut self, info: InterruptInfo)
        ensures
            *final(self) == interrupt_spec(*old(self), ConnKind::Smtp, info),
    {
        match self {
            Scheduler::Running { smtp, .. } => {
                smtp.interrupt(info);
            },
            Scheduler::Stopped => {},
        }
    }

    /// Indicate that the network likely has come back: broadcast a
    /// network probe to all four connections.  A no-op while stopped.
    pub fn maybe_network(&mut self)
        ensures
            *final(self) == interrupt_spec(
                interrupt_spec(
                    interrupt_spec(
                        interrupt_spec(*old(self), ConnKind::Inbox, InterruptInfo {
                            probe_network: true,
                            correlated_msg_id: None,
                        }),
                        ConnKind::Mvbox,
                        InterruptInfo { probe_network: true, correlated_msg_id: None },
                    ),
                    ConnKind::Sentbox,
                    InterruptInfo { probe_network: true, correlated_msg_id: None },
                ),
                ConnKind::Smtp,
                InterruptInfo { probe_network: true, correlated_msg_id: None },
            ),
    {
        if !self.is_running() {
            return ;
        }
        self.interrupt_inbox(InterruptInfo::probe());
        self.interrupt_mvbox(InterruptInfo::probe());
        self.interrupt_sentbox(InterruptInfo::probe());
        self.interrupt_smtp(InterruptInfo::probe());
    }

    /// First half of the two-phase shutdown: signal all four loops to
    /// stop and hand out the capability to finish the shutdown.
    /// Stopping an already-stopped scheduler is a caller error,
    /// excluded by the precondition.  The split lets the caller
    /// release other locks between halting I/O and joining the loop
    /// tasks, which avoids deadlock with code the loops call into.
    pub fn pre_stop(&mut self) -> (r: StopToken)
        requires
            *old(self) is Running,
        ensures
            *final(self) == pre_stop_spec(*old(self)),
    {
        match self {
            Scheduler::Running { inbox, mvbox, sentbox, smtp } => {
                inbox.stop();
                mvbox.stop();
                sentbox.stop();
                smtp.stop();
            },
            Scheduler::Stopped => {},
        }
        StopToken(())
    }

    /// Second half of the two-phase shutdown: after the embedder
    /// joined the four loop tasks, consume the capability and leave
    /// the scheduler stopped.
    pub fn stop(&mut self, token: StopToken)
        requires
            *old(self) is Running,
        ensures
            *final(self) is Stopped,
    {
        let StopToken(_) = token;
        *self = Scheduler::Stopped;
    }
}

/// A sequence of inbox interrupts applied in order.
pub open spec fn apply_inbox_interrupts(s: Scheduler, infos: Seq<InterruptInfo>) -> Scheduler
    decreases infos.len(),
{
    if infos.len() == 0 {
        s
    } else {
        apply_inbox_interrupts(interrupt_spec(s, ConnKind::Inbox, infos[0]), infos.drop_first())
    }
}

/// While the scheduler is stopped, no sequence of inbox interrupts
/// has any observable effect: every call is a completed no-op (and,
/// per the contract of [`Scheduler::interrupt_inbox`], none of them
/// blocks or panics).
pub proof fn lemma_interrupts_noop_when_stopped(s: Scheduler, infos: Seq<InterruptInfo>)
    requires
        s is Stopped,
    ensures
        apply_inbox_interrupts(s, infos) == s,
    decreases infos.len(),
{
    if infos.len() > 0 {
        lemma_interrupts_noop_when_stopped(s, infos.drop_first());
    }
}

/// Starting a stopped scheduler and immediately running the two-phase
/// shutdown goes through with nothing in the way: the start yields a
/// running scheduler, after `pre_stop` the scheduler is still running
/// with every stop signal raised (so the embedder can join the loop
/// tasks), and `stop` then leaves it `Stopped`.  That `stop` cannot
/// be called without a prior `pre_stop` is enforced by the
/// [`StopToken`] it consumes, which only `pre_stop` hands out.
pub proof fn lemma_two_phase_shutdown()
    ensures
        started_scheduler() is Running,
        pre_stop_spec(started_scheduler()) is Running,
        (pre_stop_spec(started_scheduler()) matches Scheduler::Running {
            inbox,
            mvbox,
            sentbox,
            smtp,
        } && inbox.stop_requested && mvbox.stop_requested && sentbox.stop_requested
            && smtp.stop_requested),
{
}

/// What the primary inbox loop decides each iteration, after asking
/// the job queue for the next ready job.
#[derive(Debug, Copy, Clone, PartialEq, Eq, Structural)]
pub enum InboxAction {
    /// Execute the job just fetched.
    RunJob,
    /// A job is ready, but the consecutive-job budget is exhausted:
    /// run one fetch cycle first so new mail is not starved, then
    /// return to the job.
    FetchFirst,
    /// No job is ready: fetch, then idle until woken.
    FetchIdle,
}

/// How many jobs may run consecutively before the loop fetches mail
/// once; prevents a job backlog from starving new-mail fetching
/// without starving job throughput.
pub const MAX_CONSECUTIVE_JOBS: u32 = 20;

/// The per-iteration state of the primary inbox loop.
#[derive(Debug, Copy, Clone, PartialEq, Eq, Structural)]
pub struct InboxLoopState {
    /// Jobs run consecutively since the last fetch.
    pub jobs_loaded: u32,
    /// Whether the next job-queue query should probe the network.
    pub probe_network: bool,
}

impl InboxLoopState {
    /// The state at loop entry.
    pub fn new() -> (r: InboxLoopState)
        ensures
            r.jobs_loaded == 0,
            !r.probe_network,
    {
        InboxLoopState { jobs_loaded: 0, probe_network: false }
    }

    /// Decide one iteration of the primary inbox loop.
    ///
    /// A ready job runs while fewer than [`MAX_CONSECUTIVE_JOBS`]
    /// jobs ran consecutively; a ready job beyond the budget yields
    /// one fetch cycle first; no ready job yields fetch-then-idle.
    pub fn step(&mut self, job_available: bool) -> (r: InboxAction)
        ensures
            (job_available && old(self).jobs_loaded < MAX_CONSECUTIVE_JOBS) ==> r
                == InboxAction::RunJob && *final(self) == (InboxLoopState {
                jobs_loaded: (old(self).jobs_loaded + 1) as u32,
                probe_network: false,
            }),
            (job_available && old(self).jobs_loaded >= MAX_CONSECUTIVE_JOBS) ==> r
                == InboxAction::FetchFirst && *final(self) == (InboxLoopState {
                jobs_loaded: 0,
                ..*old(self)
            }),
            !job_available ==> r == InboxAction::FetchIdle && *final(self) == (InboxLoopState {
                jobs_loaded: 0,
                ..*old(self)
            }),
    {
        if job_available {
            if self.jobs_loaded < MAX_CONSECUTIVE_JOBS {
                self.jobs_loaded = self.jobs_loaded + 1;
                self.probe_network = false;
                InboxAction::RunJob
            } else {
                self.jobs_loaded = 0;
                InboxAction::FetchFirst
            }
        } else {
            self.jobs_loaded = 0;
            InboxAction::FetchIdle
        }
    }

    /// Record why the idle wait woke; the next job-queue query uses it
    /// so a job enqueued specifically to wake the loop is picked up at
    /// once.
    pub fn record_idle_result(&mut self, probe_network: bool)
        ensures
            *final(self) == (InboxLoopState { probe_network, ..*old(self) }),
    {
        self.probe_network = probe_network;
    }
}

/// What the outbound loop decides each iteration: its only idle
/// mechanism is blocking on its interrupt channel, since no network
/// idle exists for the outbound transport.
#[derive(Debug, Copy, Clone, PartialEq, Eq, Structural)]
pub enum SmtpAction {
    /// Execute the job just fetched.
    RunJob,
    /// No job is ready: block on the interrupt channel until woken.
    BlockOnInterrupt,
}

/// The per-iteration state of the outbound loop.
#[derive(Debug, Copy, Clone, PartialEq, Eq, Structural)]
pub struct SmtpLoopState {
    /// Whether the next job-queue query should probe the network.
    pub probe_network: bool,
}

impl SmtpLoopState {
    /// The state at loop entry.
    pub fn new() -> (r: SmtpLoopState)
        ensures
            !r.probe_network,
    {
        SmtpLoopState { probe_network: false }
    }

    /// Decide one iteration of the outbound loop.
    pub fn step(&mut self, job_available: bool) -> (r: SmtpAction)
        ensures
            job_available ==> r == SmtpAction::RunJob && *final(self) == (SmtpLoopState {
                probe_network: false,
            }),
            !job_available ==> r == SmtpAction::BlockOnInterrupt && *final(self) == *old(self),
    {
        if job_available {
            self.probe_network = false;
            SmtpAction::RunJob
        } else {
            SmtpAction::BlockOnInterrupt
        }
    }

    /// Record the interrupt that ended the blocking wait.
    pub fn record_interrupt(&mut self, info: InterruptInfo)
        ensures
            *final(self) == (SmtpLoopState { probe_network: info.probe_network }),
    {
        self.probe_network = info.probe_network;
    }
}

/// The mailbox folder a loop watches: the configured folder where
/// one is set; the primary inbox falls back to the standard folder
/// name when the configuration predates folder settings.
pub fn get_watch_folder(configured: Option<String>, is_inbox: bool) -> (r: Option<String>)
    ensures
        match configured {
            Some(name) => r matches Some(v) && v == name,
            None => {
                if is_inbox {
                    r matches Some(v) && v@ == "INBOX"@
                } else {
                    r is None
                }
            },
        },
{
    match configured {
        Some(name) => Some(name),
        None => {
            if is_inbox {
                let mut s = String::new();
                s.append("INBOX");
                Some(s)
            } else {
                None
            }
        },
    }
}

/// One long-lived network connection as its loop sees it.
#[derive(Debug, Clone)]
pub struct ConnectionHandle {
    /// Whether the connection is currently established.
    pub live: bool,
    /// The connection must be re-established before the next use.
    pub reconnect_needed: bool,
    /// The last error observed on this connection.
    pub last_error: Option<String>,
}

impl ConnectionHandle {
    /// A connection that has not been established yet.
    pub fn new() -> (r: ConnectionHandle)
        ensures
            !r.live,
            !r.reconnect_needed,
            r.last_error is None,
    {
        ConnectionHandle { live: false, reconnect_needed: false, last_error: None }
    }

    /// Record a fetch or idle error: the connection reconnects on next
    /// use, and the loop goes on; such errors are never fatal to it.
    pub fn note_error(&mut self, error: String)
        ensures
            final(self).live == old(self).live,
            final(self).reconnect_needed,
            final(self).last_error == Some(error),
    {
        self.reconnect_needed = true;
        self.last_error = Some(error);
    }

    /// Mark the connection established.
    pub fn note_connected(&mut self)
        ensures
            *final(self) == (ConnectionHandle { live: true, reconnect_needed: false, ..*old(self) }),
    {
        self.live = true;
        self.reconnect_needed = false;
    }
}

} // verus!
