use stacklang::backend::{gen_cast, CAsmBuilder, CStackToX86_64};
use stacklang::engine::{DUMP_I_SOURCE, DUMP_STR_SOURCE};
use stacklang::{EIrInstr, EType};

const DATA_HEAD: &str = "section .bss\n    dump_buf: resb 21\n    data_stack: resq 4096\n    data_stack_proc: resq 8192\nsection .data\n";

const ENTRY: &str = "\nglobal _start\n_start:\n    lea      r15, [data_stack + 4096*8]\n    call     proc_main\n";

const EXIT: &str = "    mov      rax, 60\n    xor      rdi, rdi\n    syscall  \n";

fn helpers() -> String {
    format!("\n{}\n\n\n{}\n\n\n", DUMP_I_SOURCE, DUMP_STR_SOURCE)
}

fn cast(from: EType, to: EType) -> Vec<String> {
    gen_cast(from, to, "r15")
}

fn lines(v: &[&str]) -> Vec<String> {
    v.iter().map(|s| s.to_string()).collect()
}

#[test]
fn fresh_text_builder_holds_the_bss_section() {
    let b = CAsmBuilder::F_cNew();
    assert_eq!(b.l_sData, DATA_HEAD);
    assert_eq!(b.l_sCode, "");
    assert_eq!(b.l_iFuncCode, "");
    assert_eq!(b.l_iStrCount, 0);
}

#[test]
fn text_builder_lines_end_with_a_newline() {
    let mut b = CAsmBuilder::F_cNew();
    b.F_vEmitDataLine("    x: db 1");
    b.F_vEmitLine("entry:");
    b.F_vEmitInstr("mov", "rax, 1");
    b.F_vEmitFuncLine("proc_f:");
    b.F_vEmitFuncInstr("ret", "");
    assert_eq!(b.l_sData, format!("{}    x: db 1\n", DATA_HEAD));
    assert_eq!(b.l_sCode, "entry:\n    mov      rax, 1\n");
    assert_eq!(b.l_iFuncCode, "proc_f:\n    ret      \n");
}

#[test]
fn text_builder_blocks_are_set_off_by_blank_lines() {
    let mut b = CAsmBuilder::F_cNew();
    b.F_vEmitFuncLine("a:");
    b.vEmitFuncLines("x\ny");
    assert_eq!(b.l_iFuncCode, "a:\n\nx\ny\n\n");
}

#[test]
fn text_builder_adds_strings() {
    let mut b = CAsmBuilder::F_cNew();
    let (label, len) = b.F_sAddString("OK\n");
    assert_eq!(label, "str_0");
    assert_eq!(len, 3);
    let (label, len) = b.F_sAddString("tab\there");
    assert_eq!(label, "str_1");
    assert_eq!(len, 8);
    assert_eq!(
        b.l_sData,
        format!(
            "{}    str_0: db \"OK\", 10, \"\", 0\n    str_1: db \"tab\", 9, \"here\", 0\n",
            DATA_HEAD
        )
    );
    assert_eq!(b.l_iStrCount, 2);
}

#[test]
fn text_builder_emits_lines_into_either_text() {
    let mut b = CAsmBuilder::F_cNew();
    b.F_vEmitLines(true, &lines(&["a", "b"]));
    b.F_vEmitLines(false, &lines(&["c"]));
    b.F_vEmitLines(false, &Vec::new());
    assert_eq!(b.l_iFuncCode, "a\nb\n");
    assert_eq!(b.l_sCode, "c\n");
}

#[test]
fn text_builder_exit_and_build() {
    let mut b = CAsmBuilder::F_cNew();
    b.F_vEmitFuncLine("proc_main:");
    b.F_vEmitExit();
    assert_eq!(b.l_sCode, EXIT);
    assert_eq!(
        b.F_sBuild(),
        format!("{}\nsection .text\nproc_main:\n{}{}", DATA_HEAD, ENTRY, EXIT)
    );
}

#[test]
fn text_builder_dump_function() {
    let mut b = CAsmBuilder::F_cNew();
    b.F_vEmitDumpFunction();
    assert_eq!(b.l_iFuncCode, helpers());
    assert!(b.l_iFuncCode.contains("    ret\n\n\ndump_str:\n    push    rbx\n"));
}

#[test]
fn text_builder_syscalls_load_from_descending_slots() {
    let mut b = CAsmBuilder::F_cNew();
    b.F_vEmitSyscall3(true, "r15");
    assert_eq!(
        b.l_iFuncCode,
        "    mov      rax, [r15 + 24]\n    mov      rdi, [r15 + 16]\n    mov      rsi, [r15 + 8]\n    mov      rdx, [r15]\n    add      r15, 32\n    syscall  \n    sub      r15, 8\n    mov      [r15], rax\n"
    );
    let mut c = CAsmBuilder::F_cNew();
    c.F_vEmitSyscall3(false, "r15");
    assert_eq!(c.l_sCode, b.l_iFuncCode);
}

#[test]
fn text_builder_syscalls_of_every_arity() {
    let mut b = CAsmBuilder::F_cNew();
    b.F_vEmitSyscall0(false, "r15");
    assert_eq!(
        b.l_sCode,
        "    mov      rax, [r15]\n    add      r15, 8\n    syscall  \n    sub      r15, 8\n    mov      [r15], rax\n"
    );
    let mut c = CAsmBuilder::F_cNew();
    c.F_vEmitSyscall1(true, "r15");
    c.F_vEmitSyscall2(true, "r15");
    c.F_vEmitSyscall4(true, "r15");
    c.F_vEmitSyscall5(true, "r15");
    c.F_vEmitSyscall6(true, "r15");
    let got: Vec<&str> = c.l_iFuncCode.lines().collect();
    assert_eq!(got.len(), 6 + 7 + 9 + 10 + 11);
    assert_eq!(got[0], "    mov      rax, [r15 + 8]");
    assert_eq!(got[1], "    mov      rdi, [r15]");
    assert_eq!(got[2], "    add      r15, 16");
    assert_eq!(got[6], "    mov      rax, [r15 + 16]");
    assert_eq!(got[9], "    add      r15, 24");
    assert_eq!(got[13], "    mov      rax, [r15 + 32]");
    assert_eq!(got[17], "    mov      r10, [r15]");
    assert_eq!(got[18], "    add      r15, 40");
    assert_eq!(got[27], "    mov      r8, [r15]");
    assert_eq!(got[28], "    add      r15, 48");
    assert_eq!(got[32], "    mov      rax, [r15 + 48]");
    assert_eq!(got[38], "    mov      r9, [r15]");
    assert_eq!(got[39], "    add      r15, 56");
    assert_eq!(got[42], "    mov      [r15], rax");
}

#[test]
fn cast_outside_a_procedure_emits_nothing() {
    let mut b = CAsmBuilder::F_cNew();
    b.F_vEmitCast(&EType::I64, &EType::F64, false, "r15");
    assert_eq!(b.l_iFuncCode, "");
    assert_eq!(b.l_sCode, "");
}

#[test]
fn cast_inside_a_procedure_goes_to_the_procedures() {
    let mut b = CAsmBuilder::F_cNew();
    b.F_vEmitCast(&EType::I64, &EType::F64, true, "r15");
    assert_eq!(
        b.l_iFuncCode,
        "    cvtsi2sd xmm0, qword [r15]\n    movsd    [r15], xmm0\n"
    );
    assert_eq!(b.l_sCode, "");
}

#[test]
fn casts_between_integers_and_floats() {
    assert_eq!(
        cast(EType::I32, EType::F64),
        lines(&["    cvtsi2sd xmm0, dword [r15]", "    add      r15, 4", "    movsd    [r15], xmm0"])
    );
    assert_eq!(
        cast(EType::I64, EType::F32),
        lines(&["    cvtsi2ss xmm0, qword [r15]", "    add      r15, 4", "    movss    [r15], xmm0"])
    );
    assert_eq!(
        cast(EType::I32, EType::F32),
        lines(&["    cvtsi2ss xmm0, dword [r15]", "    movss    [r15], xmm0"])
    );
    assert_eq!(
        cast(EType::F64, EType::I64),
        lines(&["    movsd    xmm0, [r15]", "    cvttsd2si rax, xmm0", "    mov      [r15], rax"])
    );
    assert_eq!(
        cast(EType::F64, EType::I32),
        lines(&[
            "    movsd    xmm0, [r15]",
            "    cvttsd2si eax, xmm0",
            "    sub      r15, 4",
            "    mov      dword [r15], eax",
        ])
    );
    assert_eq!(
        cast(EType::F32, EType::I64),
        lines(&[
            "    movss    xmm0, [r15]",
            "    cvttss2si rax, xmm0",
            "    sub      r15, 4",
            "    mov      [r15], rax",
        ])
    );
    assert_eq!(
        cast(EType::F32, EType::I32),
        lines(&["    movss    xmm0, [r15]", "    cvttss2si eax, xmm0", "    mov      dword [r15], eax"])
    );
}

#[test]
fn casts_between_floats() {
    assert_eq!(
        cast(EType::F32, EType::F64),
        lines(&[
            "    movss    xmm0, [r15]",
            "    cvtss2sd xmm0, xmm0",
            "    add      r15, 4",
            "    movsd    [r15], xmm0",
        ])
    );
    assert_eq!(
        cast(EType::F64, EType::F32),
        lines(&[
            "    movsd    xmm0, [r15]",
            "    cvtsd2ss xmm0, xmm0",
            "    sub      r15, 4",
            "    movss    [r15], xmm0",
        ])
    );
}

#[test]
fn widening_casts_extend_by_sign_or_by_zero() {
    for (from, size) in [(EType::I32, "dword"), (EType::I16, "word"), (EType::I8, "byte")] {
        assert_eq!(
            cast(from, EType::I64),
            vec![
                format!("    movsx    rax, {} [r15]", size),
                "    add      r15, 4".to_string(),
                "    mov      [r15], rax".to_string(),
            ]
        );
    }
    for (from, size) in [(EType::U32, "dword"), (EType::U16, "word"), (EType::U8, "byte")] {
        for to in [EType::I64, EType::U64] {
            assert_eq!(
                cast(from, to),
                vec![
                    format!("    movzx    rax, {} [r15]", size),
                    "    add      r15, 4".to_string(),
                    "    mov      [r15], rax".to_string(),
                ]
            );
        }
    }
    assert_eq!(
        cast(EType::I16, EType::I32),
        lines(&["    movsx    eax, word [r15]", "    add      r15, 2", "    mov      dword [r15], eax"])
    );
    assert_eq!(
        cast(EType::I8, EType::I32),
        lines(&["    movsx    eax, byte [r15]", "    add      r15, 3", "    mov      dword [r15], eax"])
    );
    assert_eq!(
        cast(EType::U16, EType::U32),
        lines(&["    movzx    eax, word [r15]", "    add      r15, 2", "    mov      dword [r15], eax"])
    );
    assert_eq!(
        cast(EType::U8, EType::I32),
        lines(&["    movzx    eax, byte [r15]", "    add      r15, 3", "    mov      dword [r15], eax"])
    );
    assert_eq!(
        cast(EType::I8, EType::I16),
        lines(&["    movsx    ax, byte [r15]", "    add      r15, 1", "    mov      word [r15], ax"])
    );
    assert_eq!(
        cast(EType::U8, EType::U16),
        lines(&["    movzx    ax, byte [r15]", "    add      r15, 1", "    mov      word [r15], ax"])
    );
    assert_eq!(cast(EType::U8, EType::I16), cast(EType::U8, EType::U16));
}

#[test]
fn narrowing_casts_keep_the_low_part() {
    for from in [EType::I64, EType::U64] {
        assert_eq!(
            cast(from, EType::I32),
            lines(&["    mov      eax, dword [r15]", "    sub      r15, 4", "    mov      dword [r15], eax"])
        );
    }
    for to in [EType::I16, EType::U16] {
        assert_eq!(
            cast(EType::I32, to),
            lines(&["    mov      ax, word [r15]", "    sub      r15, 6", "    mov      word [r15], ax"])
        );
    }
    for to in [EType::I8, EType::U8] {
        assert_eq!(
            cast(EType::I32, to),
            lines(&["    mov      al, byte [r15]", "    sub      r15, 3", "    mov      byte [r15], al"])
        );
        assert_eq!(
            cast(EType::I16, to),
            lines(&["    mov      al, byte [r15]", "    sub      r15, 1", "    mov      byte [r15], al"])
        );
    }
}

#[test]
fn casts_from_bool_and_to_a_truth_byte() {
    assert_eq!(
        cast(EType::Bool, EType::I64),
        lines(&["    movzx    rax, byte [r15]", "    add      r15, 7", "    mov      [r15], rax"])
    );
    assert_eq!(
        cast(EType::Bool, EType::I32),
        lines(&["    movzx    rax, byte [r15]", "    add      r15, 3", "    mov dword [r15], rax"])
    );
    assert_eq!(
        cast(EType::I64, EType::I8),
        lines(&[
            "    mov      al, 0",
            "    cmp      qword [r15], 0",
            "    setne    al",
            "    add      r15, 1",
            "    mov      byte [r15], al",
        ])
    );
}

#[test]
fn pairs_without_a_conversion_take_no_lines() {
    let all = [
        EType::I8,
        EType::U8,
        EType::I16,
        EType::U16,
        EType::I32,
        EType::U32,
        EType::I64,
        EType::U64,
        EType::F32,
        EType::F64,
        EType::Ptr,
        EType::Str,
        EType::Bool,
        EType::Void,
    ];
    let mut converting = 0;
    for from in all {
        assert!(cast(from, from).is_empty());
        for to in all {
            if !cast(from, to).is_empty() {
                converting += 1;
            }
        }
    }
    assert_eq!(converting, 39);
    assert!(cast(EType::Ptr, EType::I64).is_empty());
    assert!(cast(EType::I64, EType::U64).is_empty());
    assert!(cast(EType::I64, EType::Void).is_empty());
    assert!(cast(EType::Str, EType::Ptr).is_empty());
    assert!(cast(EType::U32, EType::I32).is_empty());
}

#[test]
fn cast_uses_the_stack_register_it_is_given() {
    assert_eq!(
        gen_cast(EType::I64, EType::I32, "r14"),
        lines(&["    mov      eax, dword [r14]", "    sub      r14, 4", "    mov      dword [r14], eax"])
    );
}

#[test]
fn text_compile_without_main_fails() {
    assert_eq!(
        CStackToX86_64::F_sCompile(&[]),
        Err("Erreur: proc main non declaree".to_string())
    );
    let ir = vec![EIrInstr::Const("main".to_string(), vec![EIrInstr::Ret])];
    assert_eq!(
        CStackToX86_64::F_sCompile(&ir),
        Err("Erreur: proc main non declaree".to_string())
    );
}

#[test]
fn text_compile_hello_world() {
    let ir = vec![EIrInstr::Proc(
        "main".to_string(),
        vec![EIrInstr::PushStr("Hello, world!\n".to_string()), EIrInstr::Puts, EIrInstr::Ret],
        Vec::new(),
        EType::Void,
    )];
    let expected = format!(
        "{}    str_0: db \"Hello, world!\", 10, \"\", 0\n\nsection .text\n{}proc_main:\n    sub      r15, 8\n    mov      qword [r15], str_0\n    mov      rdi, [r15]\n    add      r15, 8\n    call     dump_str\n    ret      \n{}{}",
        DATA_HEAD,
        helpers(),
        ENTRY,
        EXIT
    );
    assert_eq!(CStackToX86_64::F_sCompile(&ir), Ok(expected));
}

#[test]
fn text_compile_procedure_with_return_value() {
    let ir = vec![
        EIrInstr::Proc(
            "add2".to_string(),
            vec![EIrInstr::PushI64(2), EIrInstr::AddI64, EIrInstr::Ret],
            vec![EType::I64],
            EType::I64,
        ),
        EIrInstr::Proc(
            "main".to_string(),
            vec![
                EIrInstr::PushI64(40),
                EIrInstr::Call("add2".to_string()),
                EIrInstr::Dump,
                EIrInstr::Ret,
            ],
            Vec::new(),
            EType::Void,
        ),
    ];
    let expected = format!(
        "{}\nsection .text\n{}proc_add2:\n    lea      r14, [data_stack_proc + 8192*8]\n    push     r15\n    sub      r15, 8\n    mov      qword [r15], 2\n    mov      rax, [r15]\n    add      rax, [r15 + 8]\n    add      r15, 8\n    mov      [r15], rax\n    mov      rax, [r15]\n    pop      r15\n    mov      [r15], rax\n    ret      \nproc_main:\n    sub      r15, 8\n    mov      qword [r15], 40\n    call     proc_add2\n    mov      rdi, [r15]\n    add      r15, 8\n    call     dump_i\n    ret      \n{}{}",
        DATA_HEAD,
        helpers(),
        ENTRY,
        EXIT
    );
    assert_eq!(CStackToX86_64::F_sCompile(&ir), Ok(expected));
}

#[test]
fn text_compile_refuses_a_declaration_inside_a_body() {
    let ir = vec![EIrInstr::Proc(
        "main".to_string(),
        vec![EIrInstr::Const("k".to_string(), Vec::new()), EIrInstr::Ret],
        Vec::new(),
        EType::Void,
    )];
    assert_eq!(
        CStackToX86_64::F_sCompile(&ir),
        Err("Instruction non supportee in statement".to_string())
    );
}

#[test]
fn text_compile_instrs_outside_a_procedure() {
    let mut b = CAsmBuilder::F_cNew();
    let body = vec![EIrInstr::PushI64(1), EIrInstr::Swap, EIrInstr::Ret];
    assert_eq!(CStackToX86_64::F_vCompileInstrs(&mut b, &body, false, false), Ok(()));
    assert_eq!(b.l_iFuncCode, "");
    assert_eq!(
        b.l_sCode,
        "    sub      r15, 8\n    mov      qword [r15], 1\n    mov      rax, [r15]\n    mov      rbx, [r15 + 8]\n    mov      [r15], rbx\n    mov      [r15 + 8], rax\n    ret      \n"
    );
}

#[test]
fn text_compile_instr_stops_at_the_label_limit() {
    let mut b = CAsmBuilder::F_cNew();
    b.l_iStrCount = usize::MAX;
    let r = CStackToX86_64::F_vCompileInstr(&mut b, &EIrInstr::PushStr("x".to_string()), true, false);
    assert_eq!(r, Err("Erreur: trop de chaines litterales".to_string()));
    assert_eq!(b.l_sData, DATA_HEAD);
}
