//! Threads, which on TantraOS are tasklets, and thread-local keys. Pointers
//! stored under a key are addresses; 0 is the null pointer.
use vstd::prelude::*;
use crate::pal::IoResult;
use crate::time::Duration;

verus! {

/// The identifier that TantraOS reports for the current tasklet.
pub const CURRENT_TASKLET_ID: u32 = 1;

/// A handle to a tasklet.
pub struct Thread {
    id: u32,
}

impl Thread {
    /// The tasklet's identifier.
    pub closed spec fn ident(&self) -> u32 {
        self.id
    }

    /// The tasklet's identifier.
    pub fn id(&self) -> (r: u32)
        ensures
            r == self.ident(),
    {
        self.id
    }
}

/// A thread-local key; TantraOS stores nothing under it yet.
pub struct Key {
    key: u32,
}

impl Key {
    /// The key's number.
    pub closed spec fn number(&self) -> u32 {
        self.key
    }

    /// A new key, number 0.
    pub fn new() -> (r: Key)
        ensures
            r.number() == 0,
    {
        Key { key: 0 }
    }

    /// Stores an address under the key; it is not kept.
    pub fn set(&self, value: usize) {
    }

    /// The address stored under the key: always null.
    pub fn get(&self) -> (r: usize)
        ensures
            r == 0,
    {
        0
    }

    /// Releases the key.
    pub fn destroy(&self) {
    }
}

/// A thread-local key that is created on first use.
pub struct LazyKey {
    key: Key,
}

impl LazyKey {
    /// The number of the key inside.
    pub closed spec fn number(&self) -> u32 {
        self.key.number()
    }

    /// A lazy key holding key number 0.
    pub fn new() -> (r: LazyKey)
        ensures
            r.number() == 0,
    {
        LazyKey { key: Key::new() }
    }

    /// The address stored under the key: always null.
    pub fn get(&self) -> (r: usize)
        ensures
            r == 0,
    {
        self.key.get()
    }
}

/// Stores an address under `key`; it is not kept.
pub fn set(key: &Key, value: usize) {
    key.set(value);
}

/// The address stored under `key`: always null.
pub fn get(key: &Key) -> (r: usize)
    ensures
        r == 0,
{
    key.get()
}

/// The number of tasklets that can run at once: one.
pub fn available_parallelism() -> (r: IoResult<usize>)
    ensures
        r matches Ok(n) && n == 1,
{
    Ok(1)
}

/// The current tasklet.
pub fn current() -> (r: Thread)
    ensures
        r.ident() == CURRENT_TASKLET_ID,
{
    Thread { id: CURRENT_TASKLET_ID }
}

/// Yields to the scheduler; TantraOS does nothing here yet.
pub fn yield_now() {
}

/// Sleeps for `dur`; TantraOS returns at once for now.
pub fn sleep(dur: Duration) {
}

/// Parks the current tasklet; TantraOS returns at once for now.
pub fn park() {
}

/// Parks the current tasklet for at most `dur`; TantraOS returns at once for now.
pub fn park_timeout(dur: Duration) {
}

/// Unparks `thread`; TantraOS does nothing here yet.
pub fn unpark(thread: &Thread) {
}

/// Ends the current tasklet's thread-level bookkeeping; nothing to do yet.
pub fn exit() {
}

} // verus!
