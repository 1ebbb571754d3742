//! The protocol by which an EL0 tasklet asks the EL1 memory allocator for
//! memory: the request record, the mailbox header that precedes it, and
//! the wait for the answer.
//!
//! The mailbox is a run of 64-bit words in shared memory: the header
//! (target, sender, message size) at words 0 to 2, the request from word 3,
//! the ready flag at word 4, the answer flag at word 5 and the answer at
//! word 6. On the 64-bit target the request fills the four words 3 to 6, so
//! the ready flag is written over the request's size, and the answer flag
//! and the answer are read from the words that held its alignment and its
//! pointer (`lemma_flags_inside_request`).
use vstd::prelude::*;

verus! {

/// The kind of a `malloc` request.
pub const MALLOC_REQUEST: u64 = 0x2000;

/// The kind of a `free` request.
pub const FREE_REQUEST: u64 = 0x2001;

/// The kind of a `realloc` request.
pub const REALLOC_REQUEST: u64 = 0x2002;

/// The address of the shared mailbox.
pub const MAILBOX_BASE: usize = 0x4000_0000;

/// The mailbox of the EL1 memory-allocator service.
pub const ALLOCATOR_SERVICE: u64 = 0x1000_0002;

/// The alignment that `malloc` and `realloc` ask for.
pub const DEFAULT_ALIGN: usize = 8;

/// The word index of the ready flag.
pub const READY_FLAG_WORD: usize = 4;

/// The word index of the answer flag.
pub const ANSWER_FLAG_WORD: usize = 5;

/// The word index of the answer.
pub const ANSWER_WORD: usize = 6;

/// A request to the memory allocator.
#[derive(Clone, Copy, Debug, PartialEq, Eq, Structural)]
pub struct MemoryAllocationRequest {
    pub discriminant: u64,
    pub size: usize,
    pub align: usize,
    pub ptr: u64,
}

/// The first mailbox word of the request.
pub const REQUEST_FIRST_WORD: usize = 3;

/// The mailbox words that a request fills on the 64-bit target.
pub const REQUEST_WORDS: usize = 4;

/// The words of a request as they lie in the mailbox on the 64-bit target:
/// its kind, size, alignment and pointer, in that order.
pub fn request_words(request: &MemoryAllocationRequest) -> (r: [u64; 4])
    ensures
        r@ == seq![request.discriminant, request.size as u64, request.align as u64, request.ptr],
{
    let r = [request.discriminant, request.size as u64, request.align as u64, request.ptr];
    assert(r@ =~= seq![request.discriminant, request.size as u64, request.align as u64, request.ptr]);
    r
}

/// The ready flag, the answer flag and the answer all lie inside the words
/// of the request: the flag overwrites the size, and the answer flag and the
/// answer share the words of the alignment and the pointer.
pub proof fn lemma_flags_inside_request()
    ensures
        READY_FLAG_WORD == REQUEST_FIRST_WORD + 1,
        ANSWER_FLAG_WORD == REQUEST_FIRST_WORD + 2,
        ANSWER_WORD == REQUEST_FIRST_WORD + 3,
        ANSWER_WORD < REQUEST_FIRST_WORD + REQUEST_WORDS,
{
}

/// The request behind `malloc(size)`.
pub fn malloc_request(size: usize) -> (r: MemoryAllocationRequest)
    ensures
        r == (MemoryAllocationRequest { discriminant: MALLOC_REQUEST, size, align: DEFAULT_ALIGN, ptr: 0 }),
{
    MemoryAllocationRequest { discriminant: MALLOC_REQUEST, size, align: DEFAULT_ALIGN, ptr: 0 }
}

/// The request behind `free(ptr)`.
pub fn free_request(ptr: u64) -> (r: MemoryAllocationRequest)
    ensures
        r == (MemoryAllocationRequest { discriminant: FREE_REQUEST, size: 0, align: 0, ptr }),
{
    MemoryAllocationRequest { discriminant: FREE_REQUEST, size: 0, align: 0, ptr }
}

/// The request behind `realloc(ptr, size)`.
pub fn realloc_request(ptr: u64, size: usize) -> (r: MemoryAllocationRequest)
    ensures
        r == (MemoryAllocationRequest { discriminant: REALLOC_REQUEST, size, align: DEFAULT_ALIGN, ptr }),
{
    MemoryAllocationRequest { discriminant: REALLOC_REQUEST, size, align: DEFAULT_ALIGN, ptr }
}

/// The mailbox header for a message of `message_size` bytes from the
/// tasklet `tasklet_id` to the allocator service.
pub fn mailbox_header(tasklet_id: u64, message_size: u64) -> (r: [u64; 3])
    ensures
        r@ == seq![ALLOCATOR_SERVICE, tasklet_id, message_size],
{
    let r = [ALLOCATOR_SERVICE, tasklet_id, message_size];
    assert(r@ =~= seq![ALLOCATOR_SERVICE, tasklet_id, message_size]);
    r
}

/// What the tasklet does after looking at the answer flag.
#[derive(Clone, Copy, Debug, PartialEq, Eq, Structural)]
pub enum MailboxPoll {
    /// No answer yet: yield to the scheduler and look again.
    Yield,
    /// The answer is there: clear the flag and return `ptr`.
    Answered { ptr: u64 },
}

/// The step after reading the answer flag `flag` and the answer word `answer`.
pub fn mailbox_poll(flag: u64, answer: u64) -> (r: MailboxPoll)
    ensures
        r == (if flag == 1 { MailboxPoll::Answered { ptr: answer } } else { MailboxPoll::Yield }),
{
    if flag == 1 {
        MailboxPoll::Answered { ptr: answer }
    } else {
        MailboxPoll::Yield
    }
}

} // verus!
