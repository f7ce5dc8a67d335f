use deltachat::chat::ChatId;
use deltachat::context::{Config, Context};
use deltachat::scheduler::{
    get_watch_folder, ConnectionHandle, InboxAction, InboxLoopState, InterruptChannel,
    InterruptInfo, Scheduler, SmtpAction, SmtpLoopState, MAX_CONSECUTIVE_JOBS,
};

#[test]
fn test_interrupts_while_stopped_have_no_effect() {
    // any sequence of interrupts on a stopped scheduler is a no-op
    let mut s = Scheduler::Stopped;
    for i in 0..100u32 {
        s.interrupt_inbox(InterruptInfo {
            probe_network: i % 2 == 0,
            correlated_msg_id: Some(i),
        });
        s.interrupt_mvbox(InterruptInfo::probe());
        s.interrupt_sentbox(InterruptInfo::probe());
        s.interrupt_smtp(InterruptInfo::probe());
        s.maybe_network();
        assert_eq!(s, Scheduler::Stopped);
        assert!(!s.is_running());
    }
}

#[test]
fn test_start_then_two_phase_stop() {
    let mut s = Scheduler::Stopped;
    s.start();
    assert!(s.is_running());
    let token = s.pre_stop();
    assert!(s.is_running());
    match &s {
        Scheduler::Running {
            inbox,
            mvbox,
            sentbox,
            smtp,
        } => {
            assert!(inbox.stop_requested);
            assert!(mvbox.stop_requested);
            assert!(sentbox.stop_requested);
            assert!(smtp.stop_requested);
        }
        Scheduler::Stopped => unreachable!(),
    }
    s.stop(token);
    assert!(!s.is_running());
    assert_eq!(s, Scheduler::Stopped);

    // the scheduler can be started again
    s.start();
    assert!(s.is_running());
    let token = s.pre_stop();
    s.stop(token);
    assert_eq!(s, Scheduler::Stopped);
}

#[test]
fn test_interrupt_reaches_running_connection() {
    let mut s = Scheduler::Stopped;
    s.start();
    s.interrupt_inbox(InterruptInfo {
        probe_network: true,
        correlated_msg_id: Some(7),
    });
    match &s {
        Scheduler::Running { inbox, mvbox, .. } => {
            assert_eq!(
                inbox.idle_interrupt.slot,
                Some(InterruptInfo {
                    probe_network: true,
                    correlated_msg_id: Some(7),
                })
            );
            assert_eq!(mvbox.idle_interrupt.slot, None);
        }
        Scheduler::Stopped => unreachable!(),
    }
}

#[test]
fn test_try_send_drops_when_full() {
    let mut c = InterruptChannel::new();
    assert!(c.try_send(InterruptInfo {
        probe_network: false,
        correlated_msg_id: Some(1),
    }));
    // the slot is full: the next value is dropped, the call never blocks
    assert!(!c.try_send(InterruptInfo::probe()));
    assert_eq!(
        c.take(),
        Some(InterruptInfo {
            probe_network: false,
            correlated_msg_id: Some(1),
        })
    );
    assert_eq!(c.take(), None);
}

#[test]
fn test_maybe_network_reaches_all_connections() {
    let mut s = Scheduler::Stopped;
    s.start();
    s.maybe_network();
    match &s {
        Scheduler::Running {
            inbox,
            mvbox,
            sentbox,
            smtp,
        } => {
            for conn in [inbox, mvbox, sentbox, smtp] {
                let info = conn.idle_interrupt.slot.unwrap();
                assert!(info.probe_network);
            }
        }
        Scheduler::Stopped => unreachable!(),
    }
}

#[test]
fn test_inbox_loop_budget() {
    // the consecutive-job budget: jobs run until the bound, then one
    // fetch cycle is forced so new mail is not starved
    let mut state = InboxLoopState::new();
    for i in 0..MAX_CONSECUTIVE_JOBS {
        assert_eq!(state.step(true), InboxAction::RunJob);
        assert_eq!(state.jobs_loaded, i + 1);
        assert!(!state.probe_network);
    }
    assert_eq!(state.step(true), InboxAction::FetchFirst);
    assert_eq!(state.jobs_loaded, 0);
    // after the fetch the backlog continues
    assert_eq!(state.step(true), InboxAction::RunJob);

    // no job ready: fetch-then-idle, and the idle result feeds the
    // next job-queue query
    let mut idle = InboxLoopState::new();
    assert_eq!(idle.step(false), InboxAction::FetchIdle);
    idle.record_idle_result(true);
    assert!(idle.probe_network);
}

#[test]
fn test_smtp_loop_steps() {
    let mut state = SmtpLoopState::new();
    assert_eq!(state.step(true), SmtpAction::RunJob);
    assert!(!state.probe_network);
    assert_eq!(state.step(false), SmtpAction::BlockOnInterrupt);
    state.record_interrupt(InterruptInfo::probe());
    assert!(state.probe_network);
}

#[test]
fn test_connection_error_marks_reconnect() {
    let mut conn = ConnectionHandle::new();
    conn.note_connected();
    assert!(conn.live);
    conn.note_error("fetch failed".to_string());
    assert!(conn.reconnect_needed);
    assert_eq!(conn.last_error.as_deref(), Some("fetch failed"));
    // the loop is not fatal: reconnect clears the mark
    conn.note_connected();
    assert!(!conn.reconnect_needed);
}

#[test]
fn test_context_level_interrupts_while_stopped() {
    // the embedder-facing wrappers are no-ops while stopped as well
    let mut ctx = Context::new(Config {
        addr: Some("alice@example.org".to_string()),
        displayname: None,
        self_fingerprint: None,
    });
    assert_eq!(ctx.scheduler, Scheduler::Stopped);
    ctx.interrupt_inbox(InterruptInfo::probe());
    ctx.interrupt_mvbox(InterruptInfo::probe());
    ctx.interrupt_sentbox(InterruptInfo::probe());
    ctx.interrupt_smtp(InterruptInfo::probe());
    ctx.maybe_network();
    assert_eq!(ctx.scheduler, Scheduler::Stopped);
    assert!(ctx.outbox.is_empty());
    assert!(ctx.events.is_empty());

    ctx.scheduler.start();
    ctx.interrupt_smtp(InterruptInfo::probe());
    match &ctx.scheduler {
        Scheduler::Running { smtp, .. } => assert!(smtp.idle_interrupt.slot.is_some()),
        Scheduler::Stopped => unreachable!(),
    }
    assert!(!ctx.is_contact_in_chat(ChatId::new(10), 10));
}

#[test]
fn test_get_watch_folder() {
    let configured = get_watch_folder(Some("Archive".to_string()), false);
    assert_eq!(configured.as_deref(), Some("Archive"));
    assert_eq!(get_watch_folder(None, true).as_deref(), Some("INBOX"));
    assert_eq!(get_watch_folder(None, false), None);
}
