//! The description of the `aarch64-tantraos` compilation target: the
//! settings that it fixes. Every setting that it leaves at its default is
//! not part of this description.
use vstd::prelude::*;

verus! {

/// Whether a linker flavor goes through a C compiler.
#[derive(Clone, Copy, Debug, PartialEq, Eq, Structural)]
pub enum Cc {
    Yes,
    No,
}

/// Whether a linker flavor is LLD.
#[derive(Clone, Copy, Debug, PartialEq, Eq, Structural)]
pub enum Lld {
    Yes,
    No,
}

/// A kind of linker.
#[derive(Clone, Copy, Debug, PartialEq, Eq, Structural)]
pub enum LinkerFlavor {
    Gnu { cc: Cc, lld: Lld },
}

/// How code is relocated.
#[derive(Clone, Copy, Debug, PartialEq, Eq, Structural)]
pub enum RelocModel {
    Static,
    Pic,
    Pie,
}

/// What a panic does.
#[derive(Clone, Copy, Debug, PartialEq, Eq, Structural)]
pub enum PanicStrategy {
    Unwind,
    Abort,
}

/// How much of the relocation data is made read-only.
#[derive(Clone, Copy, Debug, PartialEq, Eq, Structural)]
pub enum RelroLevel {
    Full,
    Partial,
    Off,
}

/// How the stack is probed.
#[derive(Clone, Copy, Debug, PartialEq, Eq, Structural)]
pub enum StackProbeType {
    Disabled,
    Inline,
    Call,
}

/// When frame pointers are kept.
#[derive(Clone, Copy, Debug, PartialEq, Eq, Structural)]
pub enum FramePointer {
    Always,
    NonLeaf,
    MayOmit,
}

/// How thread-local storage is reached.
#[derive(Clone, Copy, Debug, PartialEq, Eq, Structural)]
pub enum TlsModel {
    GeneralDynamic,
    LocalDynamic,
    InitialExec,
    LocalExec,
    Emulated,
}

/// What is said of the target for its users.
pub struct TargetMetadata {
    pub description: Option<String>,
    pub tier: Option<u64>,
    pub host_tools: Option<bool>,
    pub std: Option<bool>,
}

/// The options that the target sets.
pub struct TargetOptions {
    pub features: String,
    pub max_atomic_width: Option<u64>,
    /// The sanitizers supported, as bits; none here.
    pub supported_sanitizers: u64,
    pub linker_flavor: LinkerFlavor,
    pub linker: Option<String>,
    pub relocation_model: RelocModel,
    pub disable_redzone: bool,
    pub os: String,
    pub env: String,
    pub families: Vec<String>,
    pub entry_name: String,
    pub panic_strategy: PanicStrategy,
    pub no_default_libraries: bool,
    pub position_independent_executables: bool,
    pub static_position_independent_executables: bool,
    pub relro_level: RelroLevel,
    pub stack_probes: StackProbeType,
    pub frame_pointer: FramePointer,
    pub has_thread_local: bool,
    pub tls_model: TlsModel,
    pub exe_suffix: String,
    pub staticlib_suffix: String,
    pub dll_suffix: String,
    /// The linker flavor and the arguments given to it before all others.
    pub pre_link_flavor: LinkerFlavor,
    pub pre_link_args: Vec<String>,
}

/// A compilation target.
pub struct Target {
    pub llvm_target: String,
    pub metadata: TargetMetadata,
    pub pointer_width: u32,
    pub data_layout: String,
    pub arch: String,
    pub options: TargetOptions,
}

/// The text of an optional string.
pub open spec fn opt_text(s: Option<String>) -> Option<Seq<char>> {
    match s {
        Some(t) => Some(t@),
        None => None,
    }
}

/// The `aarch64-tantraos` target: a statically linked, non-Unix, 64-bit
/// AArch64 target whose executables are `.tnf` tasklets entered at
/// `tasklet_main`, which abort on panic and emulate thread-local storage.
pub fn target() -> (t: Target)
    ensures
        t.llvm_target@ == "aarch64-unknown-none"@,
        opt_text(t.metadata.description) == Some("TantraOS on AArch64 (async-first OS)"@),
        t.metadata.tier == Some(3u64),
        t.metadata.host_tools == Some(false),
        t.metadata.std == Some(true),
        t.pointer_width == 64,
        t.data_layout@
            == "e-m:e-p270:32:32-p271:32:32-p272:64:64-i8:8:32-i16:16:32-i64:64-i128:128-n32:64-S128-Fn32"@,
        t.arch@ == "aarch64"@,
        t.options.features@ == "+v8a,+strict-align,+neon,+fp-armv8"@,
        t.options.max_atomic_width == Some(128u64),
        t.options.supported_sanitizers == 0,
        t.options.linker_flavor == (LinkerFlavor::Gnu { cc: Cc::No, lld: Lld::Yes }),
        opt_text(t.options.linker) == Some("rust-lld"@),
        t.options.relocation_model == RelocModel::Static,
        t.options.disable_redzone,
        t.options.os@ == "tantraos"@,
        t.options.env@ == "eabi"@,
        t.options.families@.len() == 0,
        t.options.entry_name@ == "tasklet_main"@,
        t.options.panic_strategy == PanicStrategy::Abort,
        t.options.no_default_libraries,
        !t.options.position_independent_executables,
        !t.options.static_position_independent_executables,
        t.options.relro_level == RelroLevel::Off,
        t.options.stack_probes == StackProbeType::Inline,
        t.options.frame_pointer == FramePointer::Always,
        !t.options.has_thread_local,
        t.options.tls_model == TlsModel::Emulated,
        t.options.exe_suffix@ == ".tnf"@,
        t.options.staticlib_suffix@ == ".a"@,
        t.options.dll_suffix@ == ".so"@,
        t.options.pre_link_flavor == (LinkerFlavor::Gnu { cc: Cc::No, lld: Lld::No }),
        t.options.pre_link_args.deep_view() == seq!["--entry=tasklet_main"@],
{
    let mut pre_link_args: Vec<String> = Vec::new();
    pre_link_args.push(String::from_str("--entry=tasklet_main"));
    assert(pre_link_args.deep_view() =~= seq!["--entry=tasklet_main"@]);
    Target {
        llvm_target: String::from_str("aarch64-unknown-none"),
        metadata: TargetMetadata {
            description: Some(String::from_str("TantraOS on AArch64 (async-first OS)")),
            tier: Some(3),
            host_tools: Some(false),
            std: Some(true),
        },
        pointer_width: 64,
        data_layout: String::from_str(
            "e-m:e-p270:32:32-p271:32:32-p272:64:64-i8:8:32-i16:16:32-i64:64-i128:128-n32:64-S128-Fn32",
        ),
        arch: String::from_str("aarch64"),
        options: TargetOptions {
            features: String::from_str("+v8a,+strict-align,+neon,+fp-armv8"),
            max_atomic_width: Some(128),
            supported_sanitizers: 0,
            linker_flavor: LinkerFlavor::Gnu { cc: Cc::No, lld: Lld::Yes },
            linker: Some(String::from_str("rust-lld")),
            relocation_model: RelocModel::Static,
            disable_redzone: true,
            os: String::from_str("tantraos"),
            env: String::from_str("eabi"),
            families: Vec::new(),
            entry_name: String::from_str("tasklet_main"),
            panic_strategy: PanicStrategy::Abort,
            no_default_libraries: true,
            position_independent_executables: false,
            static_position_independent_executables: false,
            relro_level: RelroLevel::Off,
            stack_probes: StackProbeType::Inline,
            frame_pointer: FramePointer::Always,
            has_thread_local: false,
            tls_model: TlsModel::Emulated,
            exe_suffix: String::from_str(".tnf"),
            staticlib_suffix: String::from_str(".a"),
            dll_suffix: String::from_str(".so"),
            pre_link_flavor: LinkerFlavor::Gnu { cc: Cc::No, lld: Lld::No },
            pre_link_args,
        },
    }
}

} // verus!
