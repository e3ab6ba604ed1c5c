use stacklang::templates::{
    arg_reg_str, gen_call, gen_copy, gen_plain, gen_proc_start, gen_push, gen_release, gen_ret,
    gen_syscall, mem_str, pair_str, proc_label_str, put, put_adjust, put_mov, qword_str, EReturn,
};
use stacklang::EIrInstr;

#[test]
fn memory_operands_address_slots_below_the_top() {
    assert_eq!(mem_str("r15", 0), "[r15]");
    assert_eq!(mem_str("r15", 1), "[r15 + 8]");
    assert_eq!(mem_str("r15", 2), "[r15 + 16]");
    assert_eq!(mem_str("r15", 6), "[r15 + 48]");
    assert_eq!(mem_str("rsp", 255), "[rsp + 2040]");
}

#[test]
fn operands_are_separated_by_comma_and_space() {
    assert_eq!(pair_str("rax", "[r15]"), "rax, [r15]");
    assert_eq!(pair_str("", ""), ", ");
    assert_eq!(qword_str("[r15]"), "qword [r15]");
}

#[test]
fn argument_registers_follow_the_kernel_convention() {
    let regs: Vec<&str> = (0..6).map(arg_reg_str).collect();
    assert_eq!(regs, vec!["rdi", "rsi", "rdx", "r10", "r8", "r9"]);
}

#[test]
fn put_appends_formatted_lines() {
    let mut v = vec!["first".to_string()];
    put(&mut v, "nop", "");
    put_mov(&mut v, "rax", "rbx");
    put_adjust(&mut v, "sub", "r15", "8");
    assert_eq!(v, vec!["first", "    nop      ", "    mov      rax, rbx", "    sub      r15, 8"]);
}

#[test]
fn push_template() {
    assert_eq!(gen_push("r15", "42"), vec!["    sub      r15, 8", "    mov      qword [r15], 42"]);
}

#[test]
fn copy_template_reaches_below_the_top() {
    assert_eq!(
        gen_copy("r15", 3),
        vec!["    mov      rax, [r15 + 24]", "    sub      r15, 8", "    mov      [r15], rax"]
    );
}

#[test]
fn release_template_counts_bytes() {
    assert_eq!(gen_release("r15", 1), vec!["    add      r15, 8"]);
    assert_eq!(gen_release("r15", 3), vec!["    add      r15, 24"]);
    assert_eq!(gen_release("r15", 0), vec!["    add      r15, 0"]);
}

#[test]
fn procedure_labels() {
    assert_eq!(proc_label_str("main"), "proc_main");
    assert_eq!(gen_call("add2"), vec!["    call     proc_add2"]);
    assert_eq!(gen_proc_start("r15", "main", true), vec!["proc_main:"]);
    assert_eq!(gen_proc_start("r15", "f", false), vec!["proc_f:", "    push     r15"]);
}

#[test]
fn return_templates() {
    assert_eq!(gen_ret("r15", EReturn::Bare), vec!["    ret      "]);
    assert_eq!(gen_ret("r15", EReturn::Restore), vec!["    pop      r15", "    ret      "]);
    assert_eq!(
        gen_ret("r15", EReturn::Splice),
        vec!["    mov      rax, [r15]", "    pop      r15", "    mov      [r15], rax", "    ret      "]
    );
}

#[test]
fn syscall_template_has_one_load_per_slot() {
    for n in 0..=6usize {
        let lines = gen_syscall("r15", n);
        assert_eq!(lines.len(), n + 5);
        assert_eq!(lines[n + 2], "    syscall  ");
        assert_eq!(lines[n + 1], format!("    add      r15, {}", 8 * (n + 1)));
    }
    assert!(gen_syscall("r15", 7).is_empty());
}

#[test]
fn plain_instructions_have_lines_and_the_others_none() {
    assert_eq!(
        gen_plain(&EIrInstr::PushI64(-3), "r15"),
        Some(vec!["    sub      r15, 8".to_string(), "    mov      qword [r15], -3".to_string()])
    );
    assert_eq!(
        gen_plain(&EIrInstr::Call("f".to_string()), "r15"),
        Some(vec!["    call     proc_f".to_string()])
    );
    assert_eq!(gen_plain(&EIrInstr::Syscall2, "r15").map(|v| v.len()), Some(7));
    assert_eq!(gen_plain(&EIrInstr::Rot, "r15").map(|v| v.len()), Some(6));
    assert_eq!(gen_plain(&EIrInstr::PushStr("s".to_string()), "r15"), None);
    assert_eq!(gen_plain(&EIrInstr::Ret, "r15"), None);
    assert_eq!(gen_plain(&EIrInstr::Const("k".to_string(), Vec::new()), "r15"), None);
}
