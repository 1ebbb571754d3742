//! Code generation for EL0 tasklets: which functions are compiled for EL0,
//! the layout of the polling wrapper around an async function, and the
//! attributes that make a function position independent. Emitting the
//! wrapper through the compiler's code builder is not part of this crate.
use vstd::prelude::*;
use crate::mir::{has_attr, item_has_attr, FnItem};
use crate::text::{contains_str, seq_contains};

verus! {

/// How a block of the polling wrapper ends.
#[derive(Clone, Copy, Debug, PartialEq, Eq, Structural)]
pub enum WrapperExit {
    /// Jump to block `to`.
    Jump { to: usize },
    /// Go to block `ready` when the poll reported 1 (ready), to block
    /// `pending` otherwise.
    OnPoll { ready: usize, pending: usize },
    /// The end of the block is never reached.
    Unreachable,
}

/// The calling convention of the polling wrapper.
#[derive(Clone, Copy, Debug, PartialEq, Eq, Structural)]
pub enum WrapperAbi {
    /// The C calling convention, without unwinding.
    C,
}

/// A parameter of the polling wrapper.
#[derive(Clone, Copy, Debug, PartialEq, Eq, Structural)]
pub enum WrapperParam {
    /// A `*mut u8` pointer to the polling context.
    ContextPtr,
    /// The async function's own parameter number `index` (from 0), with its type.
    Input { index: usize },
}

/// A value that inline machine code of the wrapper takes as an operand, in
/// a register.
#[derive(Clone, Copy, Debug, PartialEq, Eq, Structural)]
pub enum WrapperValue {
    /// The address of the wrapper's future.
    FuturePtr,
    /// The context pointer, the wrapper's first parameter.
    ContextPtr,
    /// The 64-bit result loaded from the finished future.
    Output,
}

/// Making the future: call the async function with the wrapper's parameters
/// `first_param .. first_param + count`, in order, and store the future it
/// returns in the wrapper's future slot.
#[derive(Clone, Copy, Debug, PartialEq, Eq, Structural)]
pub struct FutureCall {
    pub first_param: usize,
    pub count: usize,
}

/// A block of the polling wrapper: its label; the call that makes the
/// future, if the block makes it; the machine instructions it then runs
/// inline (one per line, `$0` and `$1` for its operands) and their operands;
/// and how it ends.
pub struct WrapperBlock {
    pub label: String,
    pub make_future: Option<FutureCall>,
    pub instructions: Vec<String>,
    pub operands: Vec<WrapperValue>,
    pub exit: WrapperExit,
}

/// The polling wrapper generated for an async EL0 function: a function with
/// calling convention `abi`, named `name`, taking `params`, laid out as
/// `blocks`.
///
/// Block 0 (`start`) makes the future by calling the async function with
/// the parameters after the context pointer and stores it, block 1 polls it,
/// block 2 saves x19 and x20, yields to EL1 with `svc #2`, restores them and
/// polls again, and block 3 loads the result and returns it to EL1 with
/// `svc #1`.
pub struct El0WrapperPlan {
    pub name: String,
    pub abi: WrapperAbi,
    pub params: Vec<WrapperParam>,
    pub blocks: Vec<WrapperBlock>,
}

/// The code generated for a function compiled for EL0.
pub enum El0Function {
    /// The function itself, as for any other target.
    Plain,
    /// A polling wrapper around the async function.
    AsyncWrapper { plan: El0WrapperPlan },
}

/// A block of the polling wrapper as the contracts see it.
pub ghost struct BlockPlan {
    pub label: Seq<char>,
    pub make_future: Option<FutureCall>,
    pub lines: Seq<Seq<char>>,
    pub operands: Seq<WrapperValue>,
    pub exit: WrapperExit,
}

/// A block of the polling wrapper as the contracts see it.
pub open spec fn block_view(b: WrapperBlock) -> BlockPlan {
    BlockPlan {
        label: b.label@,
        make_future: b.make_future,
        lines: lines_view(b.instructions@),
        operands: b.operands@,
        exit: b.exit,
    }
}

/// The parameters of the polling wrapper of a function with `inputs`
/// parameters: the context pointer, then the function's own, in order.
pub open spec fn wrapper_params(inputs: usize) -> Seq<WrapperParam> {
    seq![WrapperParam::ContextPtr] + Seq::new(inputs as nat, |i: int| WrapperParam::Input { index: i as usize })
}

/// The blocks of the polling wrapper of a function with `inputs` parameters.
pub open spec fn wrapper_blocks(inputs: usize) -> Seq<BlockPlan> {
    seq![
        BlockPlan {
            label: "start"@,
            make_future: Some(FutureCall { first_param: 1, count: inputs }),
            lines: Seq::empty(),
            operands: Seq::empty(),
            exit: WrapperExit::Jump { to: 1 },
        },
        BlockPlan {
            label: "poll_future"@,
            make_future: None,
            lines: seq!["mov x19, $0"@, "mov x20, $1"@, "ldr x21, [x19]"@, "cmp x21, #0"@, "cset x0, eq"@],
            operands: seq![WrapperValue::FuturePtr, WrapperValue::ContextPtr],
            exit: WrapperExit::OnPoll { ready: 3, pending: 2 },
        },
        BlockPlan {
            label: "pending"@,
            make_future: None,
            lines: seq![
                "str x19, [sp, #-16]!"@,
                "str x20, [sp, #-16]!"@,
                "svc #2"@,
                "ldr x20, [sp], #16"@,
                "ldr x19, [sp], #16"@,
            ],
            operands: Seq::empty(),
            exit: WrapperExit::Jump { to: 1 },
        },
        BlockPlan {
            label: "ready"@,
            make_future: None,
            lines: seq!["mov x0, $0"@, "svc #1"@],
            operands: seq![WrapperValue::Output],
            exit: WrapperExit::Unreachable,
        },
    ]
}

/// Whether a plan is the polling wrapper for the function at `def_path`
/// with `inputs` parameters: named `__tantraos_el0_` and the path, with the C
/// calling convention, the context pointer and then the function's own
/// parameters, and the four blocks.
pub open spec fn is_wrapper_plan(plan: El0WrapperPlan, def_path: Seq<char>, inputs: usize) -> bool {
    &&& plan.name@ == "__tantraos_el0_"@ + def_path
    &&& plan.abi == WrapperAbi::C
    &&& plan.params@ == wrapper_params(inputs)
    &&& plan.blocks@.map_values(|b: WrapperBlock| block_view(b)) == wrapper_blocks(inputs)
}

/// The text of a list of lines.
pub open spec fn lines_view(v: Seq<String>) -> Seq<Seq<char>> {
    v.map_values(|t: String| t@)
}

/// Appends the line `line` to `v`.
fn push_line(v: &mut Vec<String>, line: &str)
    ensures
        lines_view(final(v)@) == lines_view(old(v)@).push(line@),
{
    v.push(String::from_str(line));
    assert(lines_view(v@) =~= lines_view(old(v)@).push(line@));
}

/// The parameters of the wrapper of a function with `inputs` parameters.
fn wrapper_param_list(inputs: usize) -> (r: Vec<WrapperParam>)
    ensures
        r@ == wrapper_params(inputs),
{
    let mut r: Vec<WrapperParam> = Vec::new();
    r.push(WrapperParam::ContextPtr);
    let mut i: usize = 0;
    while i < inputs
        invariant
            i <= inputs,
            r@ == seq![WrapperParam::ContextPtr] + Seq::new(i as nat, |k: int| WrapperParam::Input { index: k as usize }),
        decreases inputs - i,
    {
        r.push(WrapperParam::Input { index: i });
        i = i + 1;
        assert(r@ =~= seq![WrapperParam::ContextPtr] + Seq::new(i as nat, |k: int| WrapperParam::Input { index: k as usize }));
    }
    r
}

/// The polling wrapper for the function at `def_path` with `inputs` parameters.
pub fn el0_wrapper_plan(def_path: &str, inputs: usize) -> (r: El0WrapperPlan)
    requires
        inputs < usize::MAX,
    ensures
        is_wrapper_plan(r, def_path@, inputs),
{
    let mut poll: Vec<String> = Vec::new();
    assert(lines_view(poll@) =~= Seq::empty());
    push_line(&mut poll, "mov x19, $0");
    push_line(&mut poll, "mov x20, $1");
    push_line(&mut poll, "ldr x21, [x19]");
    push_line(&mut poll, "cmp x21, #0");
    push_line(&mut poll, "cset x0, eq");
    assert(lines_view(poll@) =~= seq!["mov x19, $0"@, "mov x20, $1"@, "ldr x21, [x19]"@, "cmp x21, #0"@, "cset x0, eq"@]);
    let mut pending: Vec<String> = Vec::new();
    assert(lines_view(pending@) =~= Seq::empty());
    push_line(&mut pending, "str x19, [sp, #-16]!");
    push_line(&mut pending, "str x20, [sp, #-16]!");
    push_line(&mut pending, "svc #2");
    push_line(&mut pending, "ldr x20, [sp], #16");
    push_line(&mut pending, "ldr x19, [sp], #16");
    assert(lines_view(pending@) =~= seq![
        "str x19, [sp, #-16]!"@,
        "str x20, [sp, #-16]!"@,
        "svc #2"@,
        "ldr x20, [sp], #16"@,
        "ldr x19, [sp], #16"@,
    ]);
    let mut ready: Vec<String> = Vec::new();
    assert(lines_view(ready@) =~= Seq::empty());
    push_line(&mut ready, "mov x0, $0");
    push_line(&mut ready, "svc #1");
    assert(lines_view(ready@) =~= seq!["mov x0, $0"@, "svc #1"@]);
    let start: Vec<String> = Vec::new();
    assert(lines_view(start@) =~= Seq::empty());
    let no_operands: Vec<WrapperValue> = Vec::new();
    let mut poll_operands: Vec<WrapperValue> = Vec::new();
    poll_operands.push(WrapperValue::FuturePtr);
    poll_operands.push(WrapperValue::ContextPtr);
    let no_operands_pending: Vec<WrapperValue> = Vec::new();
    let mut ready_operands: Vec<WrapperValue> = Vec::new();
    ready_operands.push(WrapperValue::Output);
    assert(no_operands@ =~= Seq::empty());
    assert(no_operands_pending@ =~= Seq::empty());
    assert(poll_operands@ =~= seq![WrapperValue::FuturePtr, WrapperValue::ContextPtr]);
    assert(ready_operands@ =~= seq![WrapperValue::Output]);
    let mut blocks: Vec<WrapperBlock> = Vec::new();
    blocks.push(WrapperBlock {
        label: String::from_str("start"),
        make_future: Some(FutureCall { first_param: 1, count: inputs }),
        instructions: start,
        operands: no_operands,
        exit: WrapperExit::Jump { to: 1 },
    });
    blocks.push(WrapperBlock {
        label: String::from_str("poll_future"),
        make_future: None,
        instructions: poll,
        operands: poll_operands,
        exit: WrapperExit::OnPoll { ready: 3, pending: 2 },
    });
    blocks.push(WrapperBlock {
        label: String::from_str("pending"),
        make_future: None,
        instructions: pending,
        operands: no_operands_pending,
        exit: WrapperExit::Jump { to: 1 },
    });
    blocks.push(WrapperBlock {
        label: String::from_str("ready"),
        make_future: None,
        instructions: ready,
        operands: ready_operands,
        exit: WrapperExit::Unreachable,
    });
    let r = El0WrapperPlan {
        name: el0_wrapper_name(def_path),
        abi: WrapperAbi::C,
        params: wrapper_param_list(inputs),
        blocks,
    };
    assert(r.blocks@.map_values(|b: WrapperBlock| block_view(b)) =~= wrapper_blocks(inputs));
    r
}

/// The polling wrapper's control flow: block 0 alone makes the future, by
/// calling the async function with exactly the wrapper's parameters after
/// the context pointer, which are the function's own parameters in order;
/// every jump lands on a block of the wrapper; the poll in block 1 goes on to
/// a block that hands the result to EL1 with `svc #1` when ready, and to a
/// block that yields with `svc #2` and polls again otherwise; and that block
/// restores x19 and x20 in the reverse order of saving them.
pub proof fn lemma_wrapper_control_flow(inputs: usize)
    ensures
        ({
            let bs = wrapper_blocks(inputs);
            let ps = wrapper_params(inputs);
            &&& ps[0] == WrapperParam::ContextPtr
            &&& bs[0].make_future matches Some(call) && call.first_param + call.count == ps.len() && (forall|i: int|
                0 <= i < call.count ==> #[trigger] ps[call.first_param + i] == WrapperParam::Input { index: i as usize })
            &&& forall|b: int| 0 < b < bs.len() ==> #[trigger] bs[b].make_future is None
            &&& forall|b: int|
                0 <= b < bs.len() ==> match #[trigger] bs[b].exit {
                    WrapperExit::Jump { to } => to < bs.len(),
                    WrapperExit::OnPoll { ready, pending } => ready < bs.len() && pending < bs.len(),
                    WrapperExit::Unreachable => true,
                }
            &&& bs[0].exit == WrapperExit::Jump { to: 1 }
            &&& bs[1].exit matches WrapperExit::OnPoll { ready, pending } && ready < bs.len() && pending < bs.len()
                && bs[ready as int].lines.last() == "svc #1"@ && bs[ready as int].exit == WrapperExit::Unreachable
                && bs[pending as int].lines.contains("svc #2"@) && bs[pending as int].exit == WrapperExit::Jump { to: 1 }
                && bs[pending as int].lines.len() == 5
                && bs[pending as int].lines[0] == "str x19, [sp, #-16]!"@
                && bs[pending as int].lines[1] == "str x20, [sp, #-16]!"@
                && bs[pending as int].lines[2] == "svc #2"@
                && bs[pending as int].lines[3] == "ldr x20, [sp], #16"@
                && bs[pending as int].lines[4] == "ldr x19, [sp], #16"@
        }),
{
    let bs = wrapper_blocks(inputs);
    let ps = wrapper_params(inputs);
    assert(ps[0] == WrapperParam::ContextPtr);
    assert forall|i: int| 0 <= i < inputs implies #[trigger] ps[1 + i] == WrapperParam::Input { index: i as usize } by {
        assert(ps[1 + i] == Seq::new(inputs as nat, |k: int| WrapperParam::Input { index: k as usize })[i]);
    }
    assert(bs[2].lines[2] == "svc #2"@);
    assert(bs[2].lines.contains("svc #2"@));
}

/// Whether a function whose result type is written `output` is async: its
/// result is a coroutine, or names `impl Future`.
pub open spec fn async_signature(output_is_coroutine: bool, output: Seq<char>) -> bool {
    output_is_coroutine || seq_contains(output, "impl Future"@)
}

/// Whether a function is to be compiled for EL0: it carries `#[tantraos_el0]`.
pub fn should_compile_for_el0(item: &FnItem) -> (r: bool)
    ensures
        r == has_attr(item.attrs_view(), "tantraos_el0"@),
{
    if item_has_attr(item, "tantraos_el0") {
        return true;
    }
    false
}

/// The name of the polling wrapper of the function at `def_path`.
pub fn el0_wrapper_name(def_path: &str) -> (r: String)
    ensures
        r@ == "__tantraos_el0_"@ + def_path@,
{
    String::from_str("__tantraos_el0_").concat(def_path)
}

/// The code to generate for an EL0 function at `def_path` with `inputs`
/// parameters whose result type is a coroutine when `output_is_coroutine`
/// holds, and is written `output`: the polling wrapper for an async
/// function, the function itself otherwise.
pub fn generate_el0_tasklet(output_is_coroutine: bool, output: &str, def_path: &str, inputs: usize) -> (r: El0Function)
    requires
        inputs < usize::MAX,
    ensures
        async_signature(output_is_coroutine, output@) ==> (r matches El0Function::AsyncWrapper { plan }
            && is_wrapper_plan(plan, def_path@, inputs)),
        !async_signature(output_is_coroutine, output@) ==> r is Plain,
{
    let is_async = output_is_coroutine || contains_str(output, "impl Future");
    if !is_async {
        return El0Function::Plain;
    }
    El0Function::AsyncWrapper { plan: el0_wrapper_plan(def_path, inputs) }
}

/// The attribute settings, in order, that make a function position
/// independent.
pub open spec fn pic_attributes() -> Seq<(Seq<char>, Seq<char>)> {
    seq![("pic-level"@, "2"@), ("pie-level"@, "2"@), ("relocation-model"@, "pic"@)]
}

/// The text of a list of attribute settings.
pub open spec fn settings_view(attrs: Seq<(String, String)>) -> Seq<(Seq<char>, Seq<char>)> {
    attrs.map_values(|a: (String, String)| (a.0@, a.1@))
}

/// Makes a function position independent: appends to its attribute settings
/// `pic-level = 2`, `pie-level = 2` and `relocation-model = pic`, in that order.
pub fn make_position_independent(llfn_attrs: &mut Vec<(String, String)>)
    ensures
        settings_view(final(llfn_attrs)@) == settings_view(old(llfn_attrs)@) + pic_attributes(),
{
    llfn_attrs.push((String::from_str("pic-level"), String::from_str("2")));
    llfn_attrs.push((String::from_str("pie-level"), String::from_str("2")));
    llfn_attrs.push((String::from_str("relocation-model"), String::from_str("pic")));
    assert(settings_view(llfn_attrs@) =~= settings_view(old(llfn_attrs)@) + pic_attributes());
}

} // verus!
