use tantraos::allocator::{mm_request, Layout, MemoryRequest, System, TantraOSAllocator, PAGE_SIZE};
use tantraos::mm_ipc::{
    free_request, mailbox_header, malloc_request, mailbox_poll, realloc_request, request_words, MailboxPoll,
    ANSWER_FLAG_WORD, ANSWER_WORD, FREE_REQUEST, MALLOC_REQUEST, READY_FLAG_WORD, REALLOC_REQUEST,
    REQUEST_FIRST_WORD, REQUEST_WORDS,
};
use tantraos::target::{target, Cc, LinkerFlavor, Lld, PanicStrategy, RelocModel, TlsModel};

#[test]
fn tantraos_target_description() {
    let t = target();
    assert_eq!(t.llvm_target, "aarch64-unknown-none");
    assert_eq!(t.pointer_width, 64);
    assert_eq!(t.arch, "aarch64");
    assert_eq!(t.metadata.tier, Some(3));
    assert_eq!(t.metadata.std, Some(true));
    assert_eq!(t.options.os, "tantraos");
    assert_eq!(t.options.entry_name, "tasklet_main");
    assert_eq!(t.options.exe_suffix, ".tnf");
    assert_eq!(t.options.panic_strategy, PanicStrategy::Abort);
    assert_eq!(t.options.relocation_model, RelocModel::Static);
    assert_eq!(t.options.tls_model, TlsModel::Emulated);
    assert_eq!(t.options.linker_flavor, LinkerFlavor::Gnu { cc: Cc::No, lld: Lld::Yes });
    assert_eq!(t.options.pre_link_args, vec!["--entry=tasklet_main".to_string()]);
    assert!(t.options.families.is_empty());
    assert!(!t.options.has_thread_local);
}

#[test]
fn allocator_requests_fail_for_now() {
    let l = Layout { size: 64, align: 8 };
    let a = TantraOSAllocator;
    assert_eq!(a.alloc_request(l), MemoryRequest::Alloc { size: 64, align: 8 });
    assert_eq!(a.allocate(l), 0);
    assert_eq!(a.alloc_zeroed(l), 0);
    assert_eq!(a.realloc(0x1000, l, 128), 0);
    assert_eq!(a.dealloc(0x1000, l), MemoryRequest::Dealloc { ptr: 0x1000, size: 64, align: 8 });
    assert_eq!(a.dealloc_request(0x1000, l), MemoryRequest::Dealloc { ptr: 0x1000, size: 64, align: 8 });
    assert_eq!(
        a.realloc_request(0x1000, l, 128),
        MemoryRequest::Realloc { ptr: 0x1000, old_size: 64, align: 8, new_size: 128 }
    );
    assert_eq!(mm_request(MemoryRequest::Alloc { size: 1, align: 1 }), 0);
    assert_eq!(PAGE_SIZE, 4096);
}

#[test]
fn system_allocator_zero_sized_blocks() {
    assert_eq!(System.allocate(Layout { size: 0, align: 16 }), 16);
    assert_eq!(System.allocate(Layout { size: 0, align: 1 }), 1);
    assert_eq!(System.allocate(Layout { size: 1, align: 1 }), 0);
    assert_eq!(System.alloc_zeroed(Layout { size: 8, align: 8 }), 0);
    assert_eq!(System.realloc(8, Layout { size: 8, align: 8 }, 16), 0);
    assert_eq!(System.dealloc(8, Layout { size: 8, align: 8 }), MemoryRequest::Dealloc { ptr: 8, size: 8, align: 8 });
}

#[test]
fn allocator_ipc_messages() {
    let m = malloc_request(100);
    assert_eq!((m.discriminant, m.size, m.align, m.ptr), (MALLOC_REQUEST, 100, 8, 0));
    let f = free_request(0x5000);
    assert_eq!((f.discriminant, f.size, f.align, f.ptr), (FREE_REQUEST, 0, 0, 0x5000));
    let r = realloc_request(0x5000, 200);
    assert_eq!((r.discriminant, r.size, r.align, r.ptr), (REALLOC_REQUEST, 200, 8, 0x5000));
    assert_eq!(mailbox_header(7, 32), [0x1000_0002, 7, 32]);
    assert_eq!(request_words(&m), [MALLOC_REQUEST, 100, 8, 0]);
    assert_eq!(mailbox_poll(0, 0x99), MailboxPoll::Yield);
    assert_eq!(mailbox_poll(2, 0x99), MailboxPoll::Yield);
    assert_eq!(mailbox_poll(1, 0x99), MailboxPoll::Answered { ptr: 0x99 });
}

#[test]
fn mailbox_flags_share_request_words() {
    let words = request_words(&malloc_request(100));
    // The ready flag lands on the size, the answer flag and answer on alignment and pointer.
    assert_eq!(words[READY_FLAG_WORD - REQUEST_FIRST_WORD], 100);
    assert_eq!(words[ANSWER_FLAG_WORD - REQUEST_FIRST_WORD], 8);
    assert_eq!(words[ANSWER_WORD - REQUEST_FIRST_WORD], 0);
    assert!(ANSWER_WORD < REQUEST_FIRST_WORD + REQUEST_WORDS);
}
