use tantraos::rt::{lang_start_code, set_panic_hook};
use tantraos::process::ExitCode;
use tantraos::runtime::{
    block_on_request, block_on_step, AsyncMainTermination, BlockOnStep, MailboxWaker, RuntimeMailboxes,
    RuntimeRequest, RuntimeResponse, Sent, TypedMailbox, RUNTIME_SERVICE, WAKER_BASE,
};

#[test]
fn mailboxes_connect_once() {
    let mut m = RuntimeMailboxes::new();
    assert!(!m.is_connected());
    assert!(m.response_mailbox().is_none());
    assert!(m.runtime_mailbox().is_none());
    m.init_runtime_mailbox();
    assert!(m.is_connected());
    assert_eq!(m.runtime_mailbox().unwrap().channel_id(), RUNTIME_SERVICE);
    assert_eq!(m.response_mailbox().unwrap().channel_id(), WAKER_BASE);
    m.init_runtime_mailbox();
    assert_eq!(m.response_mailbox().unwrap().channel_id(), WAKER_BASE);
}

#[test]
fn yield_and_exit_requests() {
    let mut m = RuntimeMailboxes::new();
    assert_eq!(m.yield_now(), Sent { channel: RUNTIME_SERVICE, message: RuntimeRequest::Yield });
    assert!(m.is_connected());
    let mut m2 = RuntimeMailboxes::new();
    assert_eq!(m2.request_exit(-1), Sent { channel: 0x1000, message: RuntimeRequest::Exit { status: -1 } });
    assert_eq!(m2.request_exit(0), Sent { channel: 0x1000, message: RuntimeRequest::Exit { status: 0 } });
    assert_eq!(
        m2.request_block_on(0x40),
        Sent { channel: RUNTIME_SERVICE, message: RuntimeRequest::BlockOn { future_ptr: 0x40 } }
    );
}

#[test]
fn mailbox_transport_is_not_connected() {
    let mb: TypedMailbox<RuntimeResponse> = TypedMailbox::connect(5);
    assert_eq!(mb.send(&RuntimeResponse::Completed), 5);
    assert!(mb.try_receive().is_none());
    assert_eq!(mb.channel_id(), 5);
}

#[test]
fn block_on_decisions() {
    assert_eq!(block_on_request(0xdead), RuntimeRequest::BlockOn { future_ptr: 0xdead });
    assert_eq!(block_on_step(&RuntimeResponse::Completed), BlockOnStep::Completed);
    assert_eq!(block_on_step(&RuntimeResponse::Error { code: 9 }), BlockOnStep::Failed { code: 9 });
    assert_eq!(block_on_step(&RuntimeResponse::Wake { task_id: 1 }), BlockOnStep::Wait);
    assert_eq!(block_on_step(&RuntimeResponse::TaskRegistered { task_id: 1 }), BlockOnStep::Wait);
}

#[test]
fn mailbox_waker() {
    let w = MailboxWaker::new(7);
    assert_eq!(w.wake_message(), RuntimeResponse::Wake { task_id: 7 });
    assert_eq!(w.wake(), Sent { channel: WAKER_BASE + 7, message: RuntimeResponse::Wake { task_id: 7 } });
    let _t = AsyncMainTermination;
}

#[test]
fn lang_start_codes() {
    assert_eq!(lang_start_code(Some(ExitCode::from_raw(0))), 0);
    assert_eq!(lang_start_code(Some(ExitCode::from(3u8))), 3);
    assert_eq!(lang_start_code(None), 101);
    set_panic_hook();
}
