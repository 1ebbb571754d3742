//! The tasklet side of the kernel's async runtime: the messages exchanged
//! with the runtime service, the typed mailboxes they travel through, and
//! the decisions the tasklet takes on each reply.
use vstd::prelude::*;
use core::marker::PhantomData;

verus! {

/// The mailbox of the kernel's runtime service.
pub const RUNTIME_SERVICE: u64 = 0x1000;

/// The first of the per-tasklet waker mailboxes: tasklet `t` listens on
/// `WAKER_BASE + t`.
pub const WAKER_BASE: u64 = 0x2000;

/// The tasklet identifier used for this tasklet's response mailbox until
/// the kernel reports the real one.
pub const PLACEHOLDER_TASKLET_ID: u64 = 0;

/// A request to the kernel runtime.
#[derive(Clone, Copy, Debug, PartialEq, Eq, Structural)]
pub enum RuntimeRequest {
    /// Register a new async task.
    RegisterTask { task_id: u64, entry_point: usize },
    /// Yield execution to the scheduler.
    Yield,
    /// Block on a future until it completes.
    BlockOn { future_ptr: usize },
    /// Exit the current tasklet.
    Exit { status: i32 },
}

/// A reply from the kernel runtime.
#[derive(Clone, Copy, Debug, PartialEq, Eq, Structural)]
pub enum RuntimeResponse {
    /// The task was registered.
    TaskRegistered { task_id: u64 },
    /// The future completed.
    Completed,
    /// A waker notification.
    Wake { task_id: u64 },
    /// An error, by code.
    Error { code: u32 },
}

/// A mailbox that carries messages of type `T` over a kernel channel.
pub struct TypedMailbox<T> where T: Send + Clone + 'static {
    channel_id: u64,
    _phantom: PhantomData<T>,
}

impl<T> TypedMailbox<T> where T: Send + Clone + 'static {
    /// The channel that the mailbox is connected to.
    pub closed spec fn channel(&self) -> u64 {
        self.channel_id
    }

    /// Connects to the existing mailbox `channel_id`.
    pub fn connect(channel_id: u64) -> (r: Self)
        ensures
            r.channel() == channel_id,
    {
        TypedMailbox { channel_id, _phantom: PhantomData }
    }

    /// The channel that the mailbox is connected to.
    pub fn channel_id(&self) -> (r: u64)
        ensures
            r == self.channel(),
    {
        self.channel_id
    }

    /// Sends a message on the mailbox's channel and returns that channel;
    /// the transport to the kernel is not connected yet, so the message goes
    /// no further.
    pub fn send(&self, msg: &T) -> (channel: u64)
        ensures
            channel == self.channel(),
    {
        self.channel_id
    }

    /// Takes a message if one is waiting; none ever is while the transport
    /// is not connected.
    pub fn try_receive(&self) -> (r: Option<T>)
        ensures
            r is None,
    {
        None
    }
}

/// A message as it was sent: the channel it went on and the message.
#[derive(Debug, PartialEq, Eq, Structural)]
pub struct Sent<M> {
    pub channel: u64,
    pub message: M,
}

/// The tasklet's two runtime mailboxes: the one to the runtime service and
/// the one on which the runtime answers, this tasklet's waker mailbox. Either
/// neither is connected yet, or both are.
pub struct RuntimeMailboxes {
    runtime: Option<TypedMailbox<RuntimeRequest>>,
    response: Option<TypedMailbox<RuntimeResponse>>,
}

impl RuntimeMailboxes {
    #[verifier::type_invariant]
    spec fn both_or_neither(self) -> bool {
        ||| self.runtime is None && self.response is None
        ||| {
            &&& self.runtime matches Some(r) && r.channel() == RUNTIME_SERVICE
            &&& self.response matches Some(r) && r.channel() == WAKER_BASE + PLACEHOLDER_TASKLET_ID
        }
    }

    /// Whether the mailboxes are connected.
    pub closed spec fn connected(&self) -> bool {
        self.runtime is Some
    }

    /// The channel of the mailbox to the runtime service, once connected.
    pub closed spec fn runtime_channel(&self) -> Option<u64> {
        match self.runtime {
            Some(m) => Some(m.channel()),
            None => None,
        }
    }

    /// The channel of the mailbox on which the runtime answers, once connected.
    pub closed spec fn response_channel(&self) -> Option<u64> {
        match self.response {
            Some(m) => Some(m.channel()),
            None => None,
        }
    }

    /// No mailbox connected yet.
    pub fn new() -> (r: Self)
        ensures
            !r.connected(),
            r.runtime_channel() is None,
            r.response_channel() is None,
    {
        RuntimeMailboxes { runtime: None, response: None }
    }

    /// Whether the mailboxes are connected.
    pub fn is_connected(&self) -> (r: bool)
        ensures
            r == self.connected(),
    {
        self.runtime.is_some()
    }

    /// Connects both mailboxes the first time: the runtime mailbox to the
    /// runtime service, the response mailbox to this tasklet's waker
    /// mailbox; once connected it leaves both as they are.
    pub fn init_runtime_mailbox(&mut self)
        ensures
            final(self).connected(),
            final(self).runtime_channel() == Some(RUNTIME_SERVICE),
            final(self).response_channel() == Some((WAKER_BASE + PLACEHOLDER_TASKLET_ID) as u64),
            old(self).connected() ==> *final(self) == *old(self),
    {
        proof {
            use_type_invariant(&*self);
        }
        if self.runtime.is_none() {
            let tasklet_id: u64 = PLACEHOLDER_TASKLET_ID;
            *self = RuntimeMailboxes {
                runtime: Some(TypedMailbox::connect(RUNTIME_SERVICE)),
                response: Some(TypedMailbox::connect(WAKER_BASE + tasklet_id)),
            };
        }
    }

    /// Sends `request` to the runtime service, connecting the mailboxes first
    /// if needed.
    fn send_request(&mut self, request: RuntimeRequest) -> (r: Sent<RuntimeRequest>)
        ensures
            final(self).connected(),
            old(self).connected() ==> *final(self) == *old(self),
            r == (Sent { channel: RUNTIME_SERVICE, message: request }),
    {
        self.init_runtime_mailbox();
        proof {
            use_type_invariant(&*self);
        }
        match &self.runtime {
            Some(mailbox) => {
                let channel = mailbox.send(&request);
                Sent { channel, message: request }
            },
            None => Sent { channel: RUNTIME_SERVICE, message: request },
        }
    }

    /// Yields to the kernel scheduler: sends `Yield` to the runtime service,
    /// connecting the mailboxes first if needed; returns what was sent.
    pub fn yield_now(&mut self) -> (r: Sent<RuntimeRequest>)
        ensures
            final(self).connected(),
            old(self).connected() ==> *final(self) == *old(self),
            r == (Sent { channel: RUNTIME_SERVICE, message: RuntimeRequest::Yield }),
    {
        self.send_request(RuntimeRequest::Yield)
    }

    /// The part of exiting the tasklet that precedes the endless wait: sends
    /// `Exit { status }` to the runtime service, connecting the mailboxes
    /// first if needed; returns what was sent.
    pub fn request_exit(&mut self, status: i32) -> (r: Sent<RuntimeRequest>)
        ensures
            final(self).connected(),
            old(self).connected() ==> *final(self) == *old(self),
            r == (Sent { channel: RUNTIME_SERVICE, message: RuntimeRequest::Exit { status } }),
    {
        self.send_request(RuntimeRequest::Exit { status })
    }

    /// The first part of blocking on the future at `future_ptr`: sends
    /// `BlockOn { future_ptr }` to the runtime service, connecting the
    /// mailboxes first if needed; returns what was sent.
    pub fn request_block_on(&mut self, future_ptr: usize) -> (r: Sent<RuntimeRequest>)
        ensures
            final(self).connected(),
            old(self).connected() ==> *final(self) == *old(self),
            r == (Sent { channel: RUNTIME_SERVICE, message: RuntimeRequest::BlockOn { future_ptr } }),
    {
        self.send_request(block_on_request(future_ptr))
    }

    /// The mailbox to the runtime service, once connected.
    pub fn runtime_mailbox(&self) -> (r: Option<&TypedMailbox<RuntimeRequest>>)
        ensures
            self.connected() ==> (r matches Some(m) && m.channel() == RUNTIME_SERVICE),
            !self.connected() ==> r is None,
    {
        proof {
            use_type_invariant(self);
        }
        self.runtime.as_ref()
    }

    /// The mailbox on which the runtime answers, once connected: this
    /// tasklet's waker mailbox.
    pub fn response_mailbox(&self) -> (r: Option<&TypedMailbox<RuntimeResponse>>)
        ensures
            self.connected() ==> (r matches Some(m) && m.channel() == WAKER_BASE + PLACEHOLDER_TASKLET_ID),
            !self.connected() ==> r is None,
    {
        proof {
            use_type_invariant(self);
        }
        self.response.as_ref()
    }
}

/// What blocking on a future does after a reply from the runtime.
#[derive(Clone, Copy, Debug, PartialEq, Eq, Structural)]
pub enum BlockOnStep {
    /// Keep waiting for the next reply.
    Wait,
    /// The future completed; its result cannot be collected yet, which is fatal.
    Completed,
    /// The runtime reported the error `code`, which is fatal.
    Failed { code: u32 },
}

/// The request that asks the runtime to drive the future at `future_ptr`.
pub fn block_on_request(future_ptr: usize) -> (r: RuntimeRequest)
    ensures
        r == (RuntimeRequest::BlockOn { future_ptr }),
{
    RuntimeRequest::BlockOn { future_ptr }
}

/// The step that blocking on a future takes after the reply `response`.
pub fn block_on_step(response: &RuntimeResponse) -> (r: BlockOnStep)
    ensures
        r == match *response {
            RuntimeResponse::Completed => BlockOnStep::Completed,
            RuntimeResponse::Error { code } => BlockOnStep::Failed { code },
            _ => BlockOnStep::Wait,
        },
{
    match response {
        RuntimeResponse::Completed => BlockOnStep::Completed,
        RuntimeResponse::Error { code } => BlockOnStep::Failed { code: *code },
        _ => BlockOnStep::Wait,
    }
}

/// The value that the async main of a tasklet reports through `Termination`.
pub struct AsyncMainTermination;

/// A waker that notifies the runtime through the waker mailbox of its task.
pub struct MailboxWaker {
    task_id: u64,
    mailbox: TypedMailbox<RuntimeResponse>,
}

impl MailboxWaker {
    /// The task that the waker wakes.
    pub closed spec fn task(&self) -> u64 {
        self.task_id
    }

    /// The channel on which the waker notifies.
    pub closed spec fn channel(&self) -> u64 {
        self.mailbox.channel()
    }

    /// A waker for `task_id`, connected to that task's waker mailbox.
    pub fn new(task_id: u64) -> (r: Self)
        requires
            WAKER_BASE + task_id <= u64::MAX,
        ensures
            r.task() == task_id,
            r.channel() == WAKER_BASE + task_id,
    {
        MailboxWaker { task_id, mailbox: TypedMailbox::connect(WAKER_BASE + task_id) }
    }

    /// The notification that waking sends.
    pub fn wake_message(&self) -> (r: RuntimeResponse)
        ensures
            r == (RuntimeResponse::Wake { task_id: self.task() }),
    {
        RuntimeResponse::Wake { task_id: self.task_id }
    }

    /// Sends `Wake { task_id }` on the waker mailbox of the task; returns
    /// what was sent.
    pub fn wake(&self) -> (r: Sent<RuntimeResponse>)
        ensures
            r == (Sent { channel: self.channel(), message: RuntimeResponse::Wake { task_id: self.task() } }),
    {
        let message = self.wake_message();
        let channel = self.mailbox.send(&message);
        Sent { channel, message }
    }
}

} // verus!
