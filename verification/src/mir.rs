//! The EL0 transformation pass over a function body.
//!
//! A body is a list of basic blocks; a block is a list of statements and an
//! optional terminator. The pass touches inline-assembly statements and the
//! `Yield`, `Return` and `Goto` terminators; every other statement or
//! terminator is carried through under an opaque identifier.
//!
//! For a function that is to run at EL0 the pass
//! - turns every `Yield` into an `svc #2` followed by a jump to the resume block,
//! - starts every block that is jumped to right after such an `svc #2` by
//!   reloading the registers x19 and x20 saved around the yield,
//! - and ends every returning block with an `svc #1`.
use vstd::prelude::*;
use crate::text::{contains_str, lemma_seq_contains_any_position, seq_contains, str_is};

verus! {

/// The inline-assembly option bit that promises not to touch the stack.
pub const ASM_NOSTACK: u32 = 1;

/// The inline-assembly option bit that promises a pure computation.
pub const ASM_PURE: u32 = 2;

/// The inline-assembly option bit that promises no memory access.
pub const ASM_NOMEM: u32 = 4;

/// An inline assembly block: its template lines and its option bits.
pub struct InlineAsm {
    pub template: Vec<String>,
    pub options: u32,
}

/// What a statement does.
pub enum StatementKind {
    /// An assignment of an inline assembly block to `_local`.
    AsmAssign { local: usize, code: InlineAsm },
    /// Any statement that the pass leaves as it is.
    Other { id: u64 },
}

/// One statement of a basic block.
pub struct Statement {
    pub kind: StatementKind,
}

/// How a basic block ends.
#[derive(Clone, Copy, Debug, PartialEq, Eq, Structural)]
pub enum TerminatorKind {
    /// Jump to the block `target`.
    Goto { target: usize },
    /// Return from the function.
    Return,
    /// Suspend the coroutine with `value`, resuming at `resume` with the
    /// resume argument stored in `resume_arg`, or dropping at `drop`.
    Yield { value: u64, resume: usize, resume_arg: usize, drop: Option<usize> },
    /// Any other terminator, which the pass leaves as it is.
    Other { id: u64 },
}

/// A basic block: its statements and its terminator, if it has one yet.
pub struct BasicBlockData {
    pub statements: Vec<Statement>,
    pub terminator: Option<TerminatorKind>,
}

/// A function body: its basic blocks, indexed from 0.
pub struct Body {
    pub basic_blocks: Vec<BasicBlockData>,
}

/// An attribute on a function item: its name, and for `name = "value"`
/// attributes whether the value is a literal and the value's text.
pub struct Attribute {
    pub name: String,
    pub name_value_literal: bool,
    pub value: Option<String>,
}

/// What the pass learns of the function that owns a body: its path and its
/// attributes.
pub struct FnItem {
    pub def_path: String,
    pub attrs: Vec<Attribute>,
}

/// A statement as the contracts see it.
pub ghost enum StatementView {
    AsmAssign { local: usize, template: Seq<Seq<char>>, options: u32 },
    Other { id: u64 },
}

/// A basic block as the contracts see it.
pub ghost struct BlockView {
    pub statements: Seq<StatementView>,
    pub terminator: Option<TerminatorKind>,
}

/// An attribute as the contracts see it.
pub ghost struct AttributeView {
    pub name: Seq<char>,
    pub name_value_literal: bool,
    pub value: Option<Seq<char>>,
}

impl View for Statement {
    type V = StatementView;

    open spec fn view(&self) -> StatementView {
        match self.kind {
            StatementKind::AsmAssign { local, code } => StatementView::AsmAssign {
                local,
                template: code.template.deep_view(),
                options: code.options,
            },
            StatementKind::Other { id } => StatementView::Other { id },
        }
    }
}

impl View for BasicBlockData {
    type V = BlockView;

    open spec fn view(&self) -> BlockView {
        BlockView {
            statements: self.statements@.map_values(|s: Statement| s@),
            terminator: self.terminator,
        }
    }
}

impl View for Body {
    type V = Seq<BlockView>;

    open spec fn view(&self) -> Seq<BlockView> {
        self.basic_blocks@.map_values(|b: BasicBlockData| b@)
    }
}

impl View for Attribute {
    type V = AttributeView;

    open spec fn view(&self) -> AttributeView {
        AttributeView {
            name: self.name@,
            name_value_literal: self.name_value_literal,
            value: match self.value {
                Some(v) => Some(v@),
                None => None,
            },
        }
    }
}

/// The statement assigning the one-line inline assembly `line`, with `nostack`, to `_0`.
pub open spec fn svc_statement(line: Seq<char>) -> StatementView {
    StatementView::AsmAssign { local: 0, template: seq![line], options: ASM_NOSTACK }
}

/// The statement that reloads the registers saved around a yield.
pub open spec fn restore_statement() -> StatementView {
    StatementView::AsmAssign {
        local: 0,
        template: seq!["ldr x19, [sp], #16"@, "ldr x20, [sp], #16"@],
        options: ASM_NOSTACK,
    }
}

/// A block after its `Yield` (if any) became `svc #2` and a jump to the
/// resume block.
pub open spec fn yield_rewritten(b: BlockView) -> BlockView {
    match b.terminator {
        Some(TerminatorKind::Yield { resume, .. }) => BlockView {
            statements: b.statements.push(svc_statement("svc #2"@)),
            terminator: Some(TerminatorKind::Goto { target: resume }),
        },
        _ => b,
    }
}

/// A block after a `svc #1` was added before its `Return` (if any).
pub open spec fn return_rewritten(b: BlockView) -> BlockView {
    match b.terminator {
        Some(TerminatorKind::Return) => BlockView {
            statements: b.statements.push(svc_statement("svc #1"@)),
            terminator: b.terminator,
        },
        _ => b,
    }
}

/// Whether a block ends with the `svc #2` that a rewritten yield leaves.
pub open spec fn ends_in_yield_call(b: BlockView) -> bool {
    b.statements.len() > 0 && b.statements.last() == svc_statement("svc #2"@)
}

/// Whether block `b` ends with the `svc #2` of a rewritten yield and then
/// jumps to block `bb`.
pub open spec fn jumps_after_yield(b: BlockView, bb: int) -> bool {
    ends_in_yield_call(b) && (b.terminator matches Some(TerminatorKind::Goto { target }) && target == bb)
}

/// Whether block `bb` is where execution resumes after a rewritten yield, and
/// so needs its registers restored: some block ends with `svc #2` and jumps
/// to it.
pub open spec fn restoration_needed(blocks: Seq<BlockView>, bb: int) -> bool {
    exists|j: int| 0 <= j < blocks.len() && #[trigger] jumps_after_yield(blocks[j], bb)
}

/// A block with the register reload put in front of its statements.
pub open spec fn restored(b: BlockView) -> BlockView {
    BlockView { statements: seq![restore_statement()] + b.statements, terminator: b.terminator }
}

/// The body in which exactly the blocks that resume after a rewritten yield
/// start with the register reload.
pub open spec fn state_restored(blocks: Seq<BlockView>) -> Seq<BlockView> {
    Seq::new(
        blocks.len(),
        |k: int| if restoration_needed(blocks, k) { restored(blocks[k]) } else { blocks[k] },
    )
}

/// Whether some block of the body ends in a `Yield`.
pub open spec fn has_yield(blocks: Seq<BlockView>) -> bool {
    exists|i: int| 0 <= i < blocks.len() && #[trigger] blocks[i].terminator matches Some(
        TerminatorKind::Yield { .. },
    )
}

/// A body after the whole EL0 rewrite: for a coroutine body, yields are
/// rewritten, the resume blocks get their register reload, and returns are
/// rewritten; for any other body only returns are.
pub open spec fn el0_rewritten(blocks: Seq<BlockView>) -> Seq<BlockView> {
    if has_yield(blocks) {
        state_restored(blocks.map_values(|b: BlockView| yield_rewritten(b))).map_values(
            |b: BlockView| return_rewritten(b),
        )
    } else {
        blocks.map_values(|b: BlockView| return_rewritten(b))
    }
}

/// Whether the item carries an attribute named `name`.
pub open spec fn has_attr(item: Seq<AttributeView>, name: Seq<char>) -> bool {
    exists|i: int| 0 <= i < item.len() && #[trigger] item[i].name == name
}

/// Whether the item is marked `tantraos = "user"` by a literal value.
pub open spec fn marked_user(attrs: Seq<AttributeView>) -> bool {
    exists|i: int|
        0 <= i < attrs.len() && #[trigger] attrs[i].name == "tantraos"@ && attrs[i].name_value_literal
            && attrs[i].value == Some("user"@)
}

/// Whether a function is to be rewritten for EL0: it carries
/// `#[tantraos_el0]`, or is marked `tantraos = "user"`, or its path names
/// `el0`, `user` or `uart`.
pub open spec fn el0_function(path: Seq<char>, attrs: Seq<AttributeView>) -> bool {
    ||| has_attr(attrs, "tantraos_el0"@)
    ||| marked_user(attrs)
    ||| seq_contains(path, "el0"@)
    ||| seq_contains(path, "user"@)
    ||| seq_contains(path, "uart"@)
}

impl FnItem {
    /// The attributes as the contracts see them.
    pub open spec fn attrs_view(&self) -> Seq<AttributeView> {
        self.attrs@.map_values(|a: Attribute| a@)
    }
}

/// The single-line `svc` statement assigning the one-line inline assembly `line`, with `nostack`, to `_0`.
fn svc(line: &str) -> (r: Statement)
    ensures
        r@ == svc_statement(line@),
{
    let mut template: Vec<String> = Vec::new();
    template.push(String::from_str(line));
    let r = Statement {
        kind: StatementKind::AsmAssign {
            local: 0,
            code: InlineAsm { template, options: ASM_NOSTACK },
        },
    };
    assert(r@ == svc_statement(line@)) by {
        assert(template.deep_view() =~= seq![line@]);
    }
    r
}

/// Whether an attribute is named `name`.
fn attr_named(a: &Attribute, name: &str) -> (r: bool)
    ensures
        r == (a@.name == name@),
{
    str_is(a.name.as_str(), name)
}

/// Whether the item carries an attribute named `name`.
pub fn item_has_attr(item: &FnItem, name: &str) -> (r: bool)
    ensures
        r == has_attr(item.attrs_view(), name@),
{
    let mut i: usize = 0;
    while i < item.attrs.len()
        invariant
            i <= item.attrs@.len(),
            forall|k: int| 0 <= k < i ==> item.attrs_view()[k].name != name@,
        decreases item.attrs@.len() - i,
    {
        if attr_named(&item.attrs[i], name) {
            assert(item.attrs_view()[i as int].name == name@);
            return true;
        }
        i = i + 1;
    }
    false
}

/// Whether some attribute is `tantraos = "user"` with a literal value.
fn item_marked_user(item: &FnItem) -> (r: bool)
    ensures
        r == marked_user(item.attrs_view()),
{
    let mut i: usize = 0;
    while i < item.attrs.len()
        invariant
            i <= item.attrs@.len(),
            forall|k: int|
                0 <= k < i ==> !(#[trigger] item.attrs_view()[k].name == "tantraos"@
                    && item.attrs_view()[k].name_value_literal && item.attrs_view()[k].value == Some(
                    "user"@,
                )),
        decreases item.attrs@.len() - i,
    {
        let a = &item.attrs[i];
        if attr_named(a, "tantraos") && a.name_value_literal {
            match &a.value {
                Some(v) => {
                    if str_is(v.as_str(), "user") {
                        assert(item.attrs_view()[i as int] == a@);
                        return true;
                    }
                },
                None => {},
            }
        }
        assert(item.attrs_view()[i as int] == a@);
        i = i + 1;
    }
    false
}

/// Whether a function is to be rewritten for EL0.
pub fn should_transform_for_el0(item: &FnItem) -> (r: bool)
    ensures
        r == el0_function(item.def_path@, item.attrs_view()),
{
    if item_has_attr(item, "tantraos_el0") {
        return true;
    }
    if item_marked_user(item) {
        return true;
    }
    let name = item.def_path.as_str();
    contains_str(name, "el0") || contains_str(name, "user") || contains_str(name, "uart")
}

/// Whether a statement is the `svc #2` of a rewritten yield.
fn is_yield_call(st: &Statement) -> (r: bool)
    ensures
        r == (st@ == svc_statement("svc #2"@)),
{
    match &st.kind {
        StatementKind::AsmAssign { local, code } => {
            if *local != 0 || code.options != ASM_NOSTACK || code.template.len() != 1 {
                proof {
                    if code.template.len() != 1 {
                        assert(code.template.deep_view().len() != 1);
                    }
                }
                return false;
            }
            let r = str_is(code.template[0].as_str(), "svc #2");
            proof {
                assert(code.template.deep_view()[0] == code.template@[0]@);
                if r {
                    assert(code.template.deep_view() =~= seq!["svc #2"@]);
                }
            }
            r
        },
        StatementKind::Other { .. } => false,
    }
}

/// Whether block `b` ends with the `svc #2` of a rewritten yield and then
/// jumps to block `bb`.
fn block_jumps_after_yield(b: &BasicBlockData, bb: usize) -> (r: bool)
    ensures
        r == jumps_after_yield(b@, bb as int),
{
    match b.terminator {
        Some(TerminatorKind::Goto { target }) => {
            if target != bb {
                return false;
            }
        },
        _ => {
            return false;
        },
    }
    let n = b.statements.len();
    if n == 0 {
        return false;
    }
    let r = is_yield_call(&b.statements[n - 1]);
    assert(b@.statements.last() == b.statements@[n - 1]@);
    r
}

/// Whether block `bb` resumes after a rewritten yield and needs its
/// registers restored.
pub fn needs_state_restoration(body: &Body, bb: usize) -> (r: bool)
    ensures
        r == restoration_needed(body@, bb as int),
{
    let n = body.basic_blocks.len();
    let mut j: usize = 0;
    while j < n
        invariant
            j <= n,
            n == body@.len(),
            forall|k: int| 0 <= k < j ==> !#[trigger] jumps_after_yield(body@[k], bb as int),
        decreases n - j,
    {
        if block_jumps_after_yield(&body.basic_blocks[j], bb) {
            assert(jumps_after_yield(body@[j as int], bb as int));
            return true;
        }
        j = j + 1;
    }
    false
}

/// Rewrites every `Yield` into `svc #2` and a jump to its resume block.
pub fn transform_yield_points(body: &mut Body)
    ensures
        final(body)@ == old(body)@.map_values(|b: BlockView| yield_rewritten(b)),
{
    let n = body.basic_blocks.len();
    let mut i: usize = 0;
    while i < n
        invariant
            i <= n,
            n == old(body)@.len(),
            body@.len() == n,
            forall|k: int| 0 <= k < i ==> body@[k] == yield_rewritten(#[trigger] old(body)@[k]),
            forall|k: int| i <= k < n ==> body@[k] == #[trigger] old(body)@[k],
        decreases n - i,
    {
        let ghost ob = body.basic_blocks@[i as int];
        let block = &mut body.basic_blocks[i];
        match block.terminator {
            Some(TerminatorKind::Yield { value: _, resume, resume_arg: _, drop: _ }) => {
                let s = svc("svc #2");
                block.statements.push(s);
                block.terminator = Some(TerminatorKind::Goto { target: resume });
                assert(block.statements@.map_values(|s: Statement| s@) =~= ob.statements@.map_values(
                    |s: Statement| s@,
                ).push(svc_statement("svc #2"@)));
            },
            _ => {},
        }
        assert(body@[i as int] =~= yield_rewritten(old(body)@[i as int]));
        i = i + 1;
    }
    assert(body@ =~= old(body)@.map_values(|b: BlockView| yield_rewritten(b)));
}

/// The statement that reloads the registers saved around a yield.
fn restore() -> (r: Statement)
    ensures
        r@ == restore_statement(),
{
    let mut template: Vec<String> = Vec::new();
    template.push(String::from_str("ldr x19, [sp], #16"));
    template.push(String::from_str("ldr x20, [sp], #16"));
    assert(template.deep_view() =~= seq!["ldr x19, [sp], #16"@, "ldr x20, [sp], #16"@]);
    Statement { kind: StatementKind::AsmAssign { local: 0, code: InlineAsm { template, options: ASM_NOSTACK } } }
}

/// Reloads the saved registers at the start of every block that resumes
/// from a yield: every block that some block jumps to right after the
/// `svc #2` of a rewritten yield. Which blocks those are is decided on the
/// body as it is before any reload is put in.
pub fn inject_state_preservation(body: &mut Body)
    ensures
        final(body)@ == state_restored(old(body)@),
{
    let n = body.basic_blocks.len();
    let mut flags: Vec<bool> = Vec::new();
    let mut k: usize = 0;
    while k < n
        invariant
            k <= n,
            n == body@.len(),
            body@ == old(body)@,
            flags@.len() == k,
            forall|m: int| 0 <= m < k ==> flags@[m] == restoration_needed(old(body)@, m),
        decreases n - k,
    {
        let f = needs_state_restoration(body, k);
        flags.push(f);
        k = k + 1;
    }
    let mut i: usize = 0;
    while i < n
        invariant
            i <= n,
            n == old(body)@.len(),
            body@.len() == n,
            flags@.len() == n,
            forall|m: int| 0 <= m < n ==> flags@[m] == restoration_needed(old(body)@, m),
            forall|m: int|
                0 <= m < n ==> body@[m] == if m < i && restoration_needed(old(body)@, m) {
                    restored(old(body)@[m])
                } else {
                    old(body)@[m]
                },
        decreases n - i,
    {
        let ghost prev = body@;
        let ghost prev_blocks = body.basic_blocks@;
        if flags[i] {
            let st = restore();
            let ghost ob = body.basic_blocks@[i as int];
            let block = &mut body.basic_blocks[i];
            block.statements.insert(0, st);
            assert(block.statements@.map_values(|s: Statement| s@) =~= seq![restore_statement()]
                + ob.statements@.map_values(|s: Statement| s@));
        }
        assert forall|m: int| 0 <= m < n && m != i implies body@[m] == prev[m] by {
            assert(body.basic_blocks@[m] == prev_blocks[m]);
        }
        assert(body@[i as int] =~= if restoration_needed(old(body)@, i as int) {
            restored(old(body)@[i as int])
        } else {
            old(body)@[i as int]
        });
        assert forall|m: int| 0 <= m < n implies body@[m] == if m < i + 1 && restoration_needed(
            old(body)@,
            m,
        ) {
            restored(old(body)@[m])
        } else {
            old(body)@[m]
        } by {
            if m != i {
                assert(body@[m] == prev[m]);
            }
        }
        i = i + 1;
    }
    assert(body@ =~= state_restored(old(body)@));
}

/// Adds `svc #1` before every `Return`, to signal completion to EL1.
pub fn transform_returns_for_el0(body: &mut Body)
    ensures
        final(body)@ == old(body)@.map_values(|b: BlockView| return_rewritten(b)),
{
    let n = body.basic_blocks.len();
    let mut i: usize = 0;
    while i < n
        invariant
            i <= n,
            n == old(body)@.len(),
            body@.len() == n,
            forall|k: int| 0 <= k < i ==> body@[k] == return_rewritten(#[trigger] old(body)@[k]),
            forall|k: int| i <= k < n ==> body@[k] == #[trigger] old(body)@[k],
        decreases n - i,
    {
        let ghost ob = body.basic_blocks@[i as int];
        let block = &mut body.basic_blocks[i];
        match block.terminator {
            Some(TerminatorKind::Return) => {
                let s = svc("svc #1");
                block.statements.push(s);
                assert(block.statements@.map_values(|s: Statement| s@) =~= ob.statements@.map_values(
                    |s: Statement| s@,
                ).push(svc_statement("svc #1"@)));
            },
            _ => {},
        }
        assert(body@[i as int] =~= return_rewritten(old(body)@[i as int]));
        i = i + 1;
    }
    assert(body@ =~= old(body)@.map_values(|b: BlockView| return_rewritten(b)));
}

/// Rewrites a coroutine body for EL0: yields become `svc #2`, the resume
/// blocks reload the saved registers, and returns get `svc #1`.
pub fn transform_async_for_el0(body: &mut Body)
    ensures
        final(body)@ == state_restored(old(body)@.map_values(|b: BlockView| yield_rewritten(b))).map_values(
            |b: BlockView| return_rewritten(b),
        ),
{
    transform_yield_points(body);
    inject_state_preservation(body);
    transform_returns_for_el0(body);
}

/// Rewrites a plain function body for EL0: returns get `svc #1`.
pub fn add_el0_wrappers(body: &mut Body)
    ensures
        final(body)@ == old(body)@.map_values(|b: BlockView| return_rewritten(b)),
{
    transform_returns_for_el0(body);
}

/// Whether some block ends in a `Yield`, that is, whether the body is a coroutine.
pub fn body_has_yield(body: &Body) -> (r: bool)
    ensures
        r == has_yield(body@),
{
    let n = body.basic_blocks.len();
    let mut i: usize = 0;
    while i < n
        invariant
            i <= n,
            n == body@.len(),
            forall|k: int| 0 <= k < i ==> !(#[trigger] body@[k].terminator matches Some(TerminatorKind::Yield { .. })),
        decreases n - i,
    {
        match body.basic_blocks[i].terminator {
            Some(TerminatorKind::Yield { .. }) => {
                assert(body@[i as int].terminator matches Some(TerminatorKind::Yield { .. }));
                return true;
            },
            _ => {},
        }
        i = i + 1;
    }
    false
}

/// Rewrites a body for EL0, as a coroutine when some block yields.
pub fn transform_for_el0(body: &mut Body)
    ensures
        final(body)@ == el0_rewritten(old(body)@),
{
    if body_has_yield(body) {
        transform_async_for_el0(body);
    } else {
        add_el0_wrappers(body);
    }
}

/// The EL0 transformation pass.
pub struct TantraosEl0Transform;

impl TantraosEl0Transform {
    /// Runs the pass on the body of `item` when compiling for TantraOS and the
    /// function is to run at EL0; leaves the body as it is otherwise.
    pub fn run_pass(&self, target_os: &str, item: &FnItem, body: &mut Body)
        ensures
            final(body)@ == if target_os@ == "tantraos"@ && el0_function(
                item.def_path@,
                item.attrs_view(),
            ) {
                el0_rewritten(old(body)@)
            } else {
                old(body)@
            },
    {
        if !str_is(target_os, "tantraos") {
            return;
        }
        if !should_transform_for_el0(item) {
            return;
        }
        transform_for_el0(body);
    }
}

/// Where the old statements of block `i` start after the EL0 rewrite: after
/// the register reload in a resume block, at the front otherwise.
pub open spec fn kept_offset(blocks: Seq<BlockView>, i: int) -> int {
    if has_yield(blocks) && restoration_needed(blocks.map_values(|b: BlockView| yield_rewritten(b)), i) {
        1
    } else {
        0
    }
}

/// The EL0 rewrite keeps the number of blocks and leaves no `Yield` behind;
/// every block that resumes after a yield starts with the register reload;
/// and every block keeps its old statements, in order, after at most one new
/// statement in front, with at most one new statement behind them.
pub proof fn lemma_el0_rewrite_shape(blocks: Seq<BlockView>)
    ensures
        el0_rewritten(blocks).len() == blocks.len(),
        forall|i: int|
            0 <= i < blocks.len() ==> !(#[trigger] el0_rewritten(blocks)[i].terminator matches Some(
                TerminatorKind::Yield { .. },
            )),
        forall|i: int|
            0 <= i < blocks.len() && kept_offset(blocks, i) == 1 ==> #[trigger] el0_rewritten(
                blocks,
            )[i].statements[0] == restore_statement(),
        forall|i: int|
            0 <= i < blocks.len() ==> {
                let old_s = blocks[i].statements;
                let new_s = #[trigger] el0_rewritten(blocks)[i].statements;
                let off = kept_offset(blocks, i);
                &&& old_s.len() + off <= new_s.len() <= old_s.len() + off + 1
                &&& new_s.subrange(off, off + old_s.len()) == old_s
            },
{
    let yr = blocks.map_values(|b: BlockView| yield_rewritten(b));
    assert forall|i: int| 0 <= i < blocks.len() implies !(#[trigger] el0_rewritten(
        blocks,
    )[i].terminator matches Some(TerminatorKind::Yield { .. })) by {
        if !has_yield(blocks) {
            assert(!(blocks[i].terminator matches Some(TerminatorKind::Yield { .. })));
        }
    }
    assert forall|i: int|
        0 <= i < blocks.len() && kept_offset(blocks, i) == 1 implies #[trigger] el0_rewritten(
        blocks,
    )[i].statements[0] == restore_statement() by {
        assert(state_restored(yr)[i] == restored(yr[i]));
    }
    assert forall|i: int| 0 <= i < blocks.len() implies {
        let old_s = blocks[i].statements;
        let new_s = #[trigger] el0_rewritten(blocks)[i].statements;
        let off = kept_offset(blocks, i);
        &&& old_s.len() + off <= new_s.len() <= old_s.len() + off + 1
        &&& new_s.subrange(off, off + old_s.len()) == old_s
    } by {
        let old_s = blocks[i].statements;
        let new_s = el0_rewritten(blocks)[i].statements;
        let off = kept_offset(blocks, i);
        if has_yield(blocks) {
            let mid = state_restored(yr)[i];
            if off == 1 {
                assert(mid == restored(yr[i]));
            } else {
                assert(mid == yr[i]);
            }
            match blocks[i].terminator {
                Some(TerminatorKind::Yield { .. }) => {
                    assert(!(mid.terminator matches Some(TerminatorKind::Return)));
                },
                _ => {},
            }
        }
        assert(new_s.subrange(off, off + old_s.len()) =~= old_s);
    }
}

/// Rewriting the yields of a body keeps its blocks, and in each block that
/// ends in `Yield { resume, .. }` appends one statement, the single line
/// `svc #2` with `nostack` assigned to `_0`, and ends the block with a jump to
/// `resume`, whatever the yield's drop block; every other block is left as it
/// is.
pub proof fn lemma_yield_rewrite_jumps_to_resume(blocks: Seq<BlockView>)
    ensures
        blocks.map_values(|b: BlockView| yield_rewritten(b)).len() == blocks.len(),
        forall|i: int|
            0 <= i < blocks.len() && ((#[trigger] blocks[i]).terminator matches Some(TerminatorKind::Yield { .. }))
                ==> {
                let nb = blocks.map_values(|b: BlockView| yield_rewritten(b))[i];
                &&& nb.terminator == Some(TerminatorKind::Goto { target: blocks[i].terminator->0->resume })
                &&& nb.statements == blocks[i].statements.push(
                    StatementView::AsmAssign { local: 0, template: seq!["svc #2"@], options: 1 },
                )
            },
        forall|i: int|
            0 <= i < blocks.len() && !(blocks[i].terminator matches Some(TerminatorKind::Yield { .. }))
                ==> blocks.map_values(|b: BlockView| yield_rewritten(b))[i] == #[trigger] blocks[i],
{
}

/// Rewriting the returns of a body keeps its blocks, appends to each block
/// that ends in `Return` the single line `svc #1` with `nostack` assigned to
/// `_0`, keeping the `Return`, and leaves every other block as it is.
pub proof fn lemma_return_rewrite_appends_svc(blocks: Seq<BlockView>)
    ensures
        blocks.map_values(|b: BlockView| return_rewritten(b)).len() == blocks.len(),
        forall|i: int|
            0 <= i < blocks.len() && (#[trigger] blocks[i]).terminator == Some(TerminatorKind::Return) ==> {
                let nb = blocks.map_values(|b: BlockView| return_rewritten(b))[i];
                &&& nb.terminator == Some(TerminatorKind::Return)
                &&& nb.statements == blocks[i].statements.push(
                    StatementView::AsmAssign { local: 0, template: seq!["svc #1"@], options: 1 },
                )
            },
        forall|i: int|
            0 <= i < blocks.len() && blocks[i].terminator != Some(TerminatorKind::Return)
                ==> blocks.map_values(|b: BlockView| return_rewritten(b))[i] == #[trigger] blocks[i],
{
}

/// In the whole EL0 rewrite of a coroutine body, a block that ended in
/// `Yield { resume, .. }` ends in a jump to `resume` and its last statement is
/// the line `svc #2`; and the block `resume` starts with the two lines that
/// reload x19 and x20.
pub proof fn lemma_el0_rewrite_yield_then_resume(blocks: Seq<BlockView>, i: int)
    requires
        0 <= i < blocks.len(),
        blocks[i].terminator matches Some(TerminatorKind::Yield { .. }),
    ensures
        ({
            let resume = blocks[i].terminator->0->resume;
            let nb = el0_rewritten(blocks)[i];
            &&& nb.terminator == Some(TerminatorKind::Goto { target: resume })
            &&& nb.statements.last() == (StatementView::AsmAssign {
                local: 0,
                template: seq!["svc #2"@],
                options: 1,
            })
            &&& 0 <= resume < blocks.len() ==> el0_rewritten(blocks)[resume as int].statements[0] == (
            StatementView::AsmAssign {
                local: 0,
                template: seq!["ldr x19, [sp], #16"@, "ldr x20, [sp], #16"@],
                options: 1,
            })
        }),
{
    let resume = blocks[i].terminator->0->resume;
    let yr = blocks.map_values(|b: BlockView| yield_rewritten(b));
    assert(has_yield(blocks));
    assert(jumps_after_yield(yr[i], resume as int));
    if 0 <= resume < blocks.len() {
        assert(restoration_needed(yr, resume as int));
    }
    assert(restoration_needed(yr, i) ==> state_restored(yr)[i] == restored(yr[i]));
}

/// A function runs at EL0 when it carries `#[tantraos_el0]` among its
/// attributes, whatever else it carries; when it is marked
/// `tantraos = "user"`; or when its path holds `el0`, `user` or `uart`
/// anywhere. A function with none of these stays at EL1.
pub proof fn lemma_el0_function_criteria(
    p: Seq<char>,
    q: Seq<char>,
    x: Seq<AttributeView>,
    y: Seq<AttributeView>,
    a: AttributeView,
)
    ensures
        a.name == "tantraos_el0"@ ==> el0_function(p, x + seq![a] + y),
        (a.name == "tantraos"@ && a.name_value_literal && a.value == Some("user"@)) ==> el0_function(
            p,
            x + seq![a] + y,
        ),
        el0_function(p + "el0"@ + q, x),
        el0_function(p + "user"@ + q, x),
        el0_function(p + "uart"@ + q, x),
        (!has_attr(x, "tantraos_el0"@) && !marked_user(x) && !seq_contains(p, "el0"@) && !seq_contains(p, "user"@)
            && !seq_contains(p, "uart"@)) ==> !el0_function(p, x),
{
    let xs = x + seq![a] + y;
    assert(xs[x.len() as int] == a);
    lemma_seq_contains_any_position(p, "el0"@, q);
    lemma_seq_contains_any_position(p, "user"@, q);
    lemma_seq_contains_any_position(p, "uart"@, q);
}

/// In the EL0 rewrite of a coroutine body, a block gets the register reload
/// only if execution resumes there: when no block yields with it as the
/// resume block, and no block already ended with `svc #2` and a jump to it,
/// the block only has its own yield and return rewritten.
pub proof fn lemma_el0_rewrite_reload_only_at_resume(blocks: Seq<BlockView>, k: int)
    requires
        0 <= k < blocks.len(),
        forall|j: int|
            0 <= j < blocks.len() ==> !((#[trigger] blocks[j]).terminator matches Some(
                TerminatorKind::Yield { resume, .. },
            ) && resume == k),
        forall|j: int| 0 <= j < blocks.len() ==> !jumps_after_yield(#[trigger] blocks[j], k),
    ensures
        el0_rewritten(blocks)[k] == return_rewritten(yield_rewritten(blocks[k])),
{
    let yr = blocks.map_values(|b: BlockView| yield_rewritten(b));
    if restoration_needed(yr, k) {
        let j = choose|j: int| 0 <= j < yr.len() && #[trigger] jumps_after_yield(yr[j], k);
        assert(!jumps_after_yield(blocks[j], k));
        match blocks[j].terminator {
            Some(TerminatorKind::Yield { resume, .. }) => {
                assert(yr[j].terminator == Some(TerminatorKind::Goto { target: resume }));
            },
            _ => {
                assert(yr[j] == blocks[j]);
            },
        }
    }
    if has_yield(blocks) {
        assert(state_restored(yr)[k] == yr[k]);
    }
}

/// An item carries an attribute named `name` exactly when one of its
/// attributes, at whatever position, is so named: a single attribute
/// carries it when it is so named, no attributes carry none, joining two
/// lists carries it when either list does, and putting another attribute in
/// front of or behind the others never takes it away.
pub proof fn lemma_has_attr_any_position(x: Seq<AttributeView>, y: Seq<AttributeView>, a: AttributeView, name: Seq<char>)
    ensures
        !has_attr(Seq::empty(), name),
        has_attr(seq![a], name) <==> a.name == name,
        has_attr(x + y, name) <==> (has_attr(x, name) || has_attr(y, name)),
        forall|i: int| 0 <= i < x.len() && (#[trigger] x[i]).name == name ==> has_attr(x, name),
        has_attr(x, name) ==> has_attr(seq![a] + x, name) && has_attr(x.push(a), name),
{
    if has_attr(x, name) {
        let k = choose|k: int| 0 <= k < x.len() && #[trigger] x[k].name == name;
        assert((seq![a] + x)[k + 1] == x[k]);
        assert(x.push(a)[k] == x[k]);
    }
    if has_attr(x + y, name) {
        let k = choose|k: int| 0 <= k < (x + y).len() && #[trigger] (x + y)[k].name == name;
        if k < x.len() {
            assert(x[k] == (x + y)[k]);
        } else {
            assert(y[k - x.len()] == (x + y)[k]);
        }
    }
    if has_attr(x, name) {
        let k = choose|k: int| 0 <= k < x.len() && #[trigger] x[k].name == name;
        assert((x + y)[k] == x[k]);
    }
    if has_attr(y, name) {
        let k = choose|k: int| 0 <= k < y.len() && #[trigger] y[k].name == name;
        assert((x + y)[x.len() + k] == y[k]);
    }
    if a.name == name {
        assert(seq![a][0] == a);
    }
}

/// An item is marked `tantraos = "user"` exactly when one of its attributes,
/// at whatever position, is named `tantraos` with the literal value `user`.
pub proof fn lemma_marked_user_any_position(x: Seq<AttributeView>, y: Seq<AttributeView>, a: AttributeView)
    ensures
        !marked_user(Seq::empty()),
        marked_user(seq![a]) <==> (a.name == "tantraos"@ && a.name_value_literal && a.value == Some("user"@)),
        marked_user(x + y) <==> (marked_user(x) || marked_user(y)),
{
    if marked_user(x + y) {
        let k = choose|k: int|
            0 <= k < (x + y).len() && #[trigger] (x + y)[k].name == "tantraos"@ && (x + y)[k].name_value_literal
                && (x + y)[k].value == Some("user"@);
        if k < x.len() {
            assert(x[k] == (x + y)[k]);
        } else {
            assert(y[k - x.len()] == (x + y)[k]);
        }
    }
    if marked_user(x) {
        let k = choose|k: int|
            0 <= k < x.len() && #[trigger] x[k].name == "tantraos"@ && x[k].name_value_literal && x[k].value
                == Some("user"@);
        assert((x + y)[k] == x[k]);
    }
    if marked_user(y) {
        let k = choose|k: int|
            0 <= k < y.len() && #[trigger] y[k].name == "tantraos"@ && y[k].name_value_literal && y[k].value
                == Some("user"@);
        assert((x + y)[x.len() + k] == y[k]);
    }
    if a.name == "tantraos"@ && a.name_value_literal && a.value == Some("user"@) {
        assert(seq![a][0] == a);
    }
}

} // verus!
