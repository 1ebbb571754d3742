use tantraos::codegen::{
    el0_wrapper_name, generate_el0_tasklet, make_position_independent, should_compile_for_el0, El0Function, FutureCall,
    WrapperAbi, WrapperExit, WrapperParam, WrapperValue,
};
use tantraos::mir::{
    add_el0_wrappers, inject_state_preservation, needs_state_restoration, should_transform_for_el0,
    transform_async_for_el0, transform_for_el0, transform_returns_for_el0, transform_yield_points, Attribute,
    BasicBlockData, Body, FnItem, StatementKind, TantraosEl0Transform, TerminatorKind, ASM_NOSTACK,
};

fn block(ids: &[u64], term: Option<TerminatorKind>) -> BasicBlockData {
    BasicBlockData {
        statements: ids.iter().map(|&id| tantraos::mir::Statement { kind: StatementKind::Other { id } }).collect(),
        terminator: term,
    }
}

fn coroutine_body() -> Body {
    Body {
        basic_blocks: vec![
            block(&[1], Some(TerminatorKind::Yield { value: 5, resume: 1, resume_arg: 3, drop: Some(2) })),
            block(&[2, 3], Some(TerminatorKind::Return)),
            block(&[], Some(TerminatorKind::Other { id: 9 })),
            block(&[4], None),
        ],
    }
}

fn svc_line(s: &tantraos::mir::Statement) -> Option<(usize, Vec<String>, u32)> {
    match &s.kind {
        StatementKind::AsmAssign { local, code } => Some((*local, code.template.clone(), code.options)),
        StatementKind::Other { .. } => None,
    }
}

fn item(path: &str, attrs: Vec<Attribute>) -> FnItem {
    FnItem { def_path: path.to_string(), attrs }
}

fn attr(name: &str, literal: bool, value: Option<&str>) -> Attribute {
    Attribute { name: name.to_string(), name_value_literal: literal, value: value.map(|v| v.to_string()) }
}

#[test]
fn yields_become_svc_and_goto() {
    let mut b = coroutine_body();
    transform_yield_points(&mut b);
    assert_eq!(b.basic_blocks[0].terminator, Some(TerminatorKind::Goto { target: 1 }));
    assert_eq!(b.basic_blocks[0].statements.len(), 2);
    assert_eq!(svc_line(&b.basic_blocks[0].statements[1]), Some((0, vec!["svc #2".to_string()], ASM_NOSTACK)));
    assert_eq!(b.basic_blocks[1].statements.len(), 2);
    assert_eq!(b.basic_blocks[2].terminator, Some(TerminatorKind::Other { id: 9 }));
}

#[test]
fn returns_get_svc_one() {
    let mut b = coroutine_body();
    transform_returns_for_el0(&mut b);
    assert_eq!(b.basic_blocks[1].statements.len(), 3);
    assert_eq!(svc_line(&b.basic_blocks[1].statements[2]), Some((0, vec!["svc #1".to_string()], ASM_NOSTACK)));
    assert_eq!(b.basic_blocks[1].terminator, Some(TerminatorKind::Return));
    assert_eq!(b.basic_blocks[0].statements.len(), 1);
    assert_eq!(b.basic_blocks[3].statements.len(), 1);
}

fn restore_lines() -> Vec<String> {
    vec!["ldr x19, [sp], #16".to_string(), "ldr x20, [sp], #16".to_string()]
}

#[test]
fn resume_blocks_reload_registers() {
    let mut b = coroutine_body();
    // Before the yields are rewritten, no block resumes after an `svc #2`.
    assert!(!needs_state_restoration(&b, 1));
    inject_state_preservation(&mut b);
    assert_eq!(b.basic_blocks[1].statements.len(), 2);
    transform_yield_points(&mut b);
    assert!(needs_state_restoration(&b, 1));
    assert!(!needs_state_restoration(&b, 0));
    assert!(!needs_state_restoration(&b, 3));
    inject_state_preservation(&mut b);
    assert_eq!(b.basic_blocks.len(), 4);
    assert_eq!(b.basic_blocks[1].statements.len(), 3);
    assert_eq!(svc_line(&b.basic_blocks[1].statements[0]), Some((0, restore_lines(), ASM_NOSTACK)));
    assert_eq!(b.basic_blocks[1].terminator, Some(TerminatorKind::Return));
    assert_eq!(b.basic_blocks[0].statements.len(), 2);
    assert_eq!(b.basic_blocks[3].statements.len(), 1);
}

#[test]
fn a_jump_without_svc_is_no_resume_point() {
    let mut b = Body { basic_blocks: vec![block(&[1], Some(TerminatorKind::Goto { target: 1 })), block(&[2], None)] };
    assert!(!needs_state_restoration(&b, 1));
    inject_state_preservation(&mut b);
    assert_eq!(b.basic_blocks[1].statements.len(), 1);
}

#[test]
fn whole_rewrite_of_a_coroutine() {
    let mut b = coroutine_body();
    transform_for_el0(&mut b);
    for bb in &b.basic_blocks {
        assert!(!matches!(bb.terminator, Some(TerminatorKind::Yield { .. })));
    }
    assert_eq!(b.basic_blocks[0].statements.len(), 2);
    // Block 1 resumes after the yield: reload, its two statements, `svc #1`.
    assert_eq!(b.basic_blocks[1].statements.len(), 4);
    assert_eq!(svc_line(&b.basic_blocks[1].statements[0]), Some((0, restore_lines(), ASM_NOSTACK)));
    assert_eq!(svc_line(&b.basic_blocks[1].statements[3]), Some((0, vec!["svc #1".to_string()], ASM_NOSTACK)));
    let mut c = coroutine_body();
    transform_async_for_el0(&mut c);
    assert_eq!(c.basic_blocks[0].terminator, Some(TerminatorKind::Goto { target: 1 }));
}

#[test]
fn plain_function_only_gets_return_svc() {
    let mut b = Body { basic_blocks: vec![block(&[1], Some(TerminatorKind::Goto { target: 1 })), block(&[], Some(TerminatorKind::Return))] };
    transform_for_el0(&mut b);
    assert_eq!(b.basic_blocks[0].statements.len(), 1);
    assert_eq!(b.basic_blocks[1].statements.len(), 1);
    let mut c = Body { basic_blocks: vec![block(&[], Some(TerminatorKind::Return))] };
    add_el0_wrappers(&mut c);
    assert_eq!(c.basic_blocks[0].statements.len(), 1);
}

#[test]
fn which_functions_run_at_el0() {
    assert!(should_transform_for_el0(&item("drivers::plain", vec![attr("tantraos_el0", false, None)])));
    assert!(should_transform_for_el0(&item("drivers::plain", vec![attr("tantraos", true, Some("user"))])));
    assert!(!should_transform_for_el0(&item("drivers::plain", vec![attr("tantraos", false, Some("user"))])));
    assert!(!should_transform_for_el0(&item("drivers::plain", vec![attr("tantraos", true, Some("kernel"))])));
    assert!(should_transform_for_el0(&item("drivers::uart_write", vec![])));
    assert!(should_transform_for_el0(&item("my_el0_task", vec![])));
    assert!(should_transform_for_el0(&item("superuser", vec![])));
    assert!(!should_transform_for_el0(&item("kernel::sched", vec![])));
    assert!(!should_transform_for_el0(&item("", vec![])));
}

#[test]
fn run_pass_only_for_tantraos_el0_functions() {
    let pass = TantraosEl0Transform;
    let mut b = coroutine_body();
    pass.run_pass("linux", &item("user_task", vec![]), &mut b);
    assert_eq!(b.basic_blocks[0].statements.len(), 1);
    pass.run_pass("tantraos", &item("kernel::sched", vec![]), &mut b);
    assert_eq!(b.basic_blocks[0].statements.len(), 1);
    pass.run_pass("tantraos", &item("user_task", vec![]), &mut b);
    assert_eq!(b.basic_blocks[0].statements.len(), 2);
    assert_eq!(b.basic_blocks[1].statements.len(), 4);
    assert_eq!(b.basic_blocks[0].terminator, Some(TerminatorKind::Goto { target: 1 }));
}

#[test]
fn codegen_decisions() {
    assert!(should_compile_for_el0(&item("x", vec![attr("tantraos_el0", false, None)])));
    assert!(!should_compile_for_el0(&item("user_x", vec![])));
    assert_eq!(el0_wrapper_name("app::main"), "__tantraos_el0_app::main");
    match generate_el0_tasklet(false, "impl Future<Output = ()>", "app::main", 2) {
        El0Function::AsyncWrapper { plan } => {
            assert_eq!(plan.name, "__tantraos_el0_app::main");
            assert_eq!(plan.abi, WrapperAbi::C);
            assert_eq!(
                plan.params,
                vec![WrapperParam::ContextPtr, WrapperParam::Input { index: 0 }, WrapperParam::Input { index: 1 }]
            );
            assert_eq!(plan.blocks[0].make_future, Some(FutureCall { first_param: 1, count: 2 }));
            assert!(plan.blocks[0].instructions.is_empty());
            assert_eq!(plan.blocks[1].make_future, None);
            assert_eq!(plan.blocks[1].operands, vec![WrapperValue::FuturePtr, WrapperValue::ContextPtr]);
            assert_eq!(plan.blocks[3].operands, vec![WrapperValue::Output]);
            assert_eq!(plan.blocks.len(), 4);
            let labels: Vec<&str> = plan.blocks.iter().map(|b| b.label.as_str()).collect();
            assert_eq!(labels, vec!["start", "poll_future", "pending", "ready"]);
            assert_eq!(plan.blocks[0].exit, WrapperExit::Jump { to: 1 });
            assert_eq!(plan.blocks[1].exit, WrapperExit::OnPoll { ready: 3, pending: 2 });
            assert_eq!(plan.blocks[2].exit, WrapperExit::Jump { to: 1 });
            assert_eq!(plan.blocks[2].instructions[2], "svc #2");
            assert_eq!(plan.blocks[3].instructions, vec!["mov x0, $0".to_string(), "svc #1".to_string()]);
            assert_eq!(plan.blocks[3].exit, WrapperExit::Unreachable);
        }
        El0Function::Plain => panic!("expected a wrapper"),
    }
    match generate_el0_tasklet(true, "{coroutine}", "m", 0) {
        El0Function::AsyncWrapper { plan } => {
            assert_eq!(plan.params, vec![WrapperParam::ContextPtr]);
            assert_eq!(plan.blocks[0].make_future, Some(FutureCall { first_param: 1, count: 0 }));
        }
        El0Function::Plain => panic!("expected a wrapper"),
    }
    assert!(matches!(generate_el0_tasklet(false, "u32", "m", 0), El0Function::Plain));
}

#[test]
fn position_independence_attributes() {
    let mut attrs = vec![("noinline".to_string(), "true".to_string())];
    make_position_independent(&mut attrs);
    assert_eq!(attrs.len(), 4);
    assert_eq!(attrs[1], ("pic-level".to_string(), "2".to_string()));
    assert_eq!(attrs[2], ("pie-level".to_string(), "2".to_string()));
    assert_eq!(attrs[3], ("relocation-model".to_string(), "pic".to_string()));
}
