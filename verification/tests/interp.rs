use stacklang::interp::{
    zero_extend_exec, CFrame, CStackToInterpreter, EEvent, EInterpError, EState,
};
use stacklang::syntax::F_lParseProgram;
use stacklang::{EIrInstr, EType};

struct Host {
    out: Vec<u8>,
    memory: Vec<(i64, Vec<u8>)>,
    syscalls: Vec<Vec<i64>>,
}

impl Host {
    fn new() -> Host {
        Host { out: Vec::new(), memory: Vec::new(), syscalls: Vec::new() }
    }

    fn place(&mut self, bytes: Vec<u8>) -> i64 {
        let address = 0x10000 + 0x1000 * self.memory.len() as i64;
        self.memory.push((address, bytes));
        address
    }

    fn read(&self, ptr: i64, len: i64) -> Vec<u8> {
        for (base, bytes) in &self.memory {
            if *base <= ptr && ptr + len <= *base + bytes.len() as i64 {
                let from = (ptr - *base) as usize;
                return bytes[from..from + len as usize].to_vec();
            }
        }
        panic!("read outside the literals: {} {}", ptr, len);
    }

    fn write(&mut self, ptr: i64, data: &[u8]) {
        for (base, bytes) in &mut self.memory {
            if *base <= ptr && ptr + data.len() as i64 <= *base + bytes.len() as i64 {
                let from = (ptr - *base) as usize;
                bytes[from..from + data.len()].copy_from_slice(data);
                return;
            }
        }
        panic!("write outside the literals: {}", ptr);
    }
}

fn literal(ir: &[EIrInstr], decl: usize, pc: usize) -> Vec<u8> {
    let body = match &ir[decl] {
        EIrInstr::Proc(_, body, _, _) => body,
        EIrInstr::Const(_, body) => body,
        other => panic!("no declaration: {:?}", other),
    };
    match &body[pc] {
        EIrInstr::PushStr(s) => s.as_bytes().to_vec(),
        other => panic!("no literal: {:?}", other),
    }
}

fn drive(ir: &[EIrInstr]) -> (Result<Vec<i64>, EInterpError>, Host) {
    let mut host = Host::new();
    let mut m = match CStackToInterpreter::F_cNew(ir) {
        Ok(m) => m,
        Err(e) => return (Err(e), host),
    };
    for _ in 0..10000 {
        match m.F_vInterpret(64) {
            EEvent::Continue => {},
            EEvent::Dump(v) => {
                assert_eq!(m.l_sOutput, v.to_string());
                host.out.extend(m.l_sOutput.as_bytes());
            },
            EEvent::Puts { l_iPtr, l_iLen } => {
                let bytes = host.read(l_iPtr, l_iLen);
                host.out.extend(bytes);
            },
            EEvent::Literal { l_iDecl, l_iPc } => {
                let address = host.place(literal(ir, l_iDecl, l_iPc));
                m.F_vResume(address);
            },
            EEvent::Load { l_iAddr, l_iBits } => {
                let bytes = host.read(l_iAddr, (l_iBits / 8) as i64);
                let mut value: u64 = 0;
                for (i, b) in bytes.iter().enumerate() {
                    value |= (*b as u64) << (8 * i);
                }
                m.F_vResume(value as i64);
            },
            EEvent::Store { l_iAddr, l_iValue, l_iBits } => {
                let bytes = (l_iValue as u64).to_le_bytes();
                host.write(l_iAddr, &bytes[..(l_iBits / 8) as usize]);
            },
            EEvent::Syscall { l_iCount } => {
                let args = m.l_lArgs.clone();
                assert_eq!(args.len(), l_iCount + 1);
                let answer = if args[0] == 1 && l_iCount == 3 && args[1] == 1 {
                    let bytes = host.read(args[2], args[3]);
                    host.out.extend(bytes);
                    args[3]
                } else {
                    -38
                };
                host.syscalls.push(args);
                m.F_vResume(answer);
            },
            EEvent::Finished => return (Ok(m.l_lDataStack.clone()), host),
            EEvent::Failed(e) => return (Err(e), host),
            EEvent::Waiting => panic!("the machine waits for an answer that was given"),
        }
    }
    panic!("the program does not end");
}

fn run(src: &str) -> (Result<Vec<i64>, EInterpError>, String) {
    let ir = F_lParseProgram(src).unwrap();
    let (r, host) = drive(&ir);
    (r, String::from_utf8(host.out).unwrap())
}

fn main_of(body: Vec<EIrInstr>) -> Vec<EIrInstr> {
    vec![EIrInstr::Proc("main".to_string(), body, Vec::new(), EType::Void)]
}

#[test]
fn hello_world() {
    let (r, out) = run("proc main in \"Hello, world!\\n\" puts end");
    assert_eq!(out, "Hello, world!\n");
    assert_eq!(r, Ok(vec![]));
}

#[test]
fn arithmetic_and_dump() {
    let (r, out) = run("proc main in 2 3 + dump end");
    assert_eq!(out, "5");
    assert_eq!(r, Ok(vec![]));
}

#[test]
fn negative_dump() {
    let (r, out) = run("proc main in 0 7 - dump end");
    assert_eq!(out, "-7");
    assert_eq!(r, Ok(vec![]));
}

#[test]
fn procedure_with_return_value() {
    let (r, out) = run("proc sq i64 ret i64 in dup * end  proc main in 6 sq dump end");
    assert_eq!(out, "36");
    assert_eq!(r, Ok(vec![]));
}

#[test]
fn multi_step_composition() {
    let (r, out) = run("proc add2 i64 ret i64 in 2 + end  proc main in 40 add2 dump end");
    assert_eq!(out, "42");
    assert_eq!(r, Ok(vec![]));
}

#[test]
fn syscall_write() {
    let ir = F_lParseProgram("proc main in 1 1 \"OK\\n\" syscall3 end").unwrap();
    let (r, host) = drive(&ir);
    assert_eq!(host.out, b"OK\n");
    assert_eq!(host.syscalls, vec![vec![1, 1, 0x10000, 3]]);
    assert_eq!(r, Ok(vec![3]));
}

#[test]
fn syscall_arguments_come_in_push_order() {
    let ir = F_lParseProgram("proc main in 9 39 syscall 60 1 syscall1 100 1 2 3 4 5 6 syscall6 end")
        .unwrap();
    let (r, host) = drive(&ir);
    assert_eq!(
        host.syscalls,
        vec![vec![39], vec![60, 1], vec![100, 1, 2, 3, 4, 5, 6]]
    );
    assert_eq!(r, Ok(vec![9, -38, -38, -38]));
}

#[test]
fn division_and_remainder_in_a_program() {
    let (r, out) = run("proc main in -7 2 / dump \" \" puts -7 2 % dump end");
    assert_eq!(out, "-3 -1");
    assert_eq!(r, Ok(vec![]));
}

#[test]
fn division_by_zero_is_reported() {
    let (r, out) = run("proc main in 1 dump 1 0 / dump end");
    assert_eq!(out, "1");
    assert_eq!(r, Err(EInterpError::DivideError));
}

#[test]
fn the_smallest_number_divided_by_minus_one_traps() {
    let (r, _) = drive(&main_of(vec![
        EIrInstr::PushI64(i64::MIN),
        EIrInstr::PushI64(-1),
        EIrInstr::DivI64,
        EIrInstr::Ret,
    ]));
    assert_eq!(r, Err(EInterpError::DivideError));
    let (r, out) = run("proc main in -9223372036854775807 1 - -1 / dump end");
    assert_eq!(out, "");
    assert_eq!(r, Err(EInterpError::DivideError));
}

#[test]
fn missing_main_is_reported() {
    let (r, _) = drive(&F_lParseProgram("proc f in end").unwrap());
    assert_eq!(r, Err(EInterpError::MissingMain));
    let (r, _) = drive(&[]);
    assert_eq!(r, Err(EInterpError::MissingMain));
    let (r, _) = drive(&F_lParseProgram("const main in end").unwrap());
    assert_eq!(r, Err(EInterpError::MissingMain));
}

#[test]
fn unknown_call_target_is_reported() {
    let (r, out) = run("proc main in 1 dump nowhere 2 dump end");
    assert_eq!(out, "1");
    assert_eq!(r, Err(EInterpError::UnknownProc));
}

#[test]
fn stack_underflow_is_reported() {
    for src in [
        "proc main in + end",
        "proc main in 1 + end",
        "proc main in dup end",
        "proc main in swap end",
        "proc main in 1 swap end",
        "proc main in dump end",
        "proc main in puts end",
        "proc main in 1 puts end",
        "proc main in syscall end",
        "proc main in 1 2 3 syscall3 end",
        "proc f i64 in end proc main in f end",
    ] {
        let (r, out) = run(src);
        assert_eq!(r, Err(EInterpError::StackUnderflow), "{}", src);
        assert_eq!(out, "");
    }
}

#[test]
fn error_messages() {
    assert_eq!(EInterpError::MissingMain.F_sMessage(), "Erreur: proc main non declaree");
    assert_eq!(EInterpError::StackUnderflow.F_sMessage(), "Stack underflow");
    assert_eq!(EInterpError::UnknownProc.F_sMessage(), "Proc non trouvee");
    assert_eq!(EInterpError::DivideError.F_sMessage(), "Division par zero");
}

#[test]
fn empty_body_returning_a_value_is_rejected() {
    let (r, _) = run("proc f ret i64 in end proc main in f end");
    assert_eq!(r, Err(EInterpError::StackUnderflow));
}

#[test]
fn empty_body_returning_nothing_runs() {
    let (r, out) = run("proc f in end proc main in 1 f dump end");
    assert_eq!(out, "1");
    assert_eq!(r, Ok(vec![]));
}

#[test]
fn empty_body_with_one_parameter_returns_its_argument() {
    let (r, out) = run("proc id i64 ret i64 in end proc main in 7 id dump end");
    assert_eq!(out, "7");
    assert_eq!(r, Ok(vec![]));
}

#[test]
fn constant_used_before_its_declaration() {
    let (r, out) = run("proc main in X dump end const X in 5 end");
    assert_eq!(out, "5");
    assert_eq!(r, Ok(vec![]));
}

#[test]
fn constant_leaves_the_value_its_body_computed() {
    let (r, out) = run("const K in 1 2 3 4 + end proc main in 10 K end");
    assert_eq!(out, "");
    assert_eq!(r, Ok(vec![10, 7]));
}

#[test]
fn return_consumes_the_arguments() {
    let (r, _) = run("proc pick i64 i64 i64 ret i64 in 100 + end proc main in 9 1 2 3 pick end");
    assert_eq!(r, Ok(vec![9, 103]));
    let (r, _) = run("proc junk i64 ret i64 in 1 2 3 end proc main in 9 8 junk end");
    assert_eq!(r, Ok(vec![9, 3]));
    let (r, _) = run("proc gone i64 i64 in 1 2 3 end proc main in 9 8 7 gone end");
    assert_eq!(r, Ok(vec![9]));
    let (r, _) = run("proc make ret i64 in 5 end proc main in 9 make end");
    assert_eq!(r, Ok(vec![9, 5]));
}

#[test]
fn return_fails_where_the_activation_holds_too_little() {
    let ir = vec![
        EIrInstr::Proc(
            "eat".to_string(),
            vec![EIrInstr::Drop, EIrInstr::Drop, EIrInstr::Ret],
            vec![EType::I64],
            EType::Void,
        ),
        EIrInstr::Proc(
            "main".to_string(),
            vec![EIrInstr::PushI64(1), EIrInstr::PushI64(2), EIrInstr::Call("eat".to_string()), EIrInstr::Ret],
            Vec::new(),
            EType::Void,
        ),
    ];
    let (r, _) = drive(&ir);
    assert_eq!(r, Err(EInterpError::StackUnderflow));
}

#[test]
fn recursion_runs_through_activations() {
    let ir = vec![
        EIrInstr::Proc(
            "down".to_string(),
            vec![
                EIrInstr::Dup,
                EIrInstr::Dump,
                EIrInstr::PushI64(1),
                EIrInstr::SubI64,
                EIrInstr::Dup,
                EIrInstr::PushI64(0),
                EIrInstr::Gt,
                EIrInstr::Call("maybe".to_string()),
                EIrInstr::Ret,
            ],
            vec![EType::I64],
            EType::I64,
        ),
        EIrInstr::Proc(
            "maybe".to_string(),
            vec![EIrInstr::Drop, EIrInstr::Ret],
            vec![EType::I64, EType::I64],
            EType::I64,
        ),
        EIrInstr::Proc(
            "main".to_string(),
            vec![EIrInstr::PushI64(3), EIrInstr::Call("down".to_string()), EIrInstr::Dump, EIrInstr::Ret],
            Vec::new(),
            EType::Void,
        ),
    ];
    let (r, host) = drive(&ir);
    assert_eq!(String::from_utf8(host.out).unwrap(), "32");
    assert_eq!(r, Ok(vec![]));
}

#[test]
fn the_last_declaration_of_a_name_is_called() {
    let (r, out) = run("proc f in 1 dump end proc main in f end proc f in 2 dump end");
    assert_eq!(out, "2");
    assert_eq!(r, Ok(vec![]));
}

#[test]
fn main_leaves_its_stack_alone() {
    let (r, _) = run("proc main in 1 2 3 end");
    assert_eq!(r, Ok(vec![1, 2, 3]));
}

#[test]
fn a_body_without_ret_ends_without_a_splice() {
    let ir = vec![
        EIrInstr::Proc("f".to_string(), vec![EIrInstr::PushI64(7), EIrInstr::PushI64(8)], vec![EType::I64], EType::I64),
        EIrInstr::Proc(
            "main".to_string(),
            vec![EIrInstr::PushI64(1), EIrInstr::Call("f".to_string())],
            Vec::new(),
            EType::Void,
        ),
    ];
    let (r, _) = drive(&ir);
    assert_eq!(r, Ok(vec![1, 7, 8]));
}

#[test]
fn literals_push_address_and_length() {
    let ir = F_lParseProgram("proc main in \"héllo\" end").unwrap();
    let (r, _) = drive(&ir);
    assert_eq!(r, Ok(vec![0x10000, 6]));
}

#[test]
fn puts_writes_exactly_the_length() {
    let (r, out) = run("proc main in \"Hello\" swap dup 3 puts swap puts end");
    assert_eq!(out, "HelHello");
    assert_eq!(r, Ok(vec![]));
    let ir = main_of(vec![
        EIrInstr::PushStr("Hello".to_string()),
        EIrInstr::Drop,
        EIrInstr::PushI64(1),
        EIrInstr::AddI64,
        EIrInstr::PushI64(3),
        EIrInstr::Puts,
        EIrInstr::Ret,
    ]);
    let (r, host) = drive(&ir);
    assert_eq!(host.out, b"ell");
    assert_eq!(r, Ok(vec![]));
}

#[test]
fn loads_zero_extend_and_stores_truncate() {
    let ir = main_of(vec![
        EIrInstr::PushStr("\u{7f}234567890".to_string()),
        EIrInstr::Drop,
        EIrInstr::Dup,
        EIrInstr::PushI64(-2),
        EIrInstr::Store16,
        EIrInstr::Dup,
        EIrInstr::Load8,
        EIrInstr::Swap,
        EIrInstr::Dup,
        EIrInstr::Load16,
        EIrInstr::Swap,
        EIrInstr::Dup,
        EIrInstr::Load32,
        EIrInstr::Swap,
        EIrInstr::Load64,
        EIrInstr::Ret,
    ]);
    let (r, host) = drive(&ir);
    assert_eq!(host.memory[0].1, b"\xfe\xff34567890");
    assert_eq!(
        r,
        Ok(vec![0xfe, 0xfffe, 0x3433fffe, i64::from_le_bytes(*b"\xfe\xff345678")])
    );
}

#[test]
fn zero_extension_keeps_the_low_bits() {
    assert_eq!(zero_extend_exec(-1, 8), 0xff);
    assert_eq!(zero_extend_exec(-1, 16), 0xffff);
    assert_eq!(zero_extend_exec(-1, 32), 0xffff_ffff);
    assert_eq!(zero_extend_exec(-1, 64), -1);
    assert_eq!(zero_extend_exec(0x1234, 8), 0x34);
    assert_eq!(zero_extend_exec(i64::MIN, 32), 0);
}

#[test]
fn steps_report_what_the_host_must_do() {
    let ir = main_of(vec![
        EIrInstr::PushI64(5),
        EIrInstr::Dump,
        EIrInstr::PushStr("ab".to_string()),
        EIrInstr::Puts,
        EIrInstr::PushI64(77),
        EIrInstr::Load16,
        EIrInstr::PushI64(300),
        EIrInstr::Store8,
        EIrInstr::Ret,
    ]);
    let mut m = CStackToInterpreter::F_cNew(&ir).unwrap();
    assert_eq!(m.l_eState, EState::Running);
    assert_eq!(
        m.l_lFrames,
        vec![CFrame {
            l_iDecl: 0,
            l_iPc: 0,
            l_iStackBase: 0,
            l_iParams: 0,
            l_bReturns: false,
            l_bIsMain: true,
        }]
    );
    assert_eq!(m.F_eStep(), EEvent::Continue);
    assert_eq!(m.l_lDataStack, vec![5]);
    assert_eq!(m.l_sOutput, "");
    assert_eq!(m.F_eStep(), EEvent::Dump(5));
    assert_eq!(m.l_sOutput, "5");
    assert_eq!(m.l_lDataStack, vec![]);
    assert_eq!(m.F_eStep(), EEvent::Literal { l_iDecl: 0, l_iPc: 2 });
    assert_eq!(m.l_eState, EState::AwaitLiteral(2));
    assert_eq!(m.F_eStep(), EEvent::Waiting);
    assert_eq!(m.F_eStep(), EEvent::Waiting);
    m.F_vResume(4096);
    assert_eq!(m.l_eState, EState::Running);
    assert_eq!(m.l_lDataStack, vec![4096, 2]);
    assert_eq!(m.F_eStep(), EEvent::Puts { l_iPtr: 4096, l_iLen: 2 });
    m.F_vResume(1);
    assert_eq!(m.l_lDataStack, vec![]);
    assert_eq!(m.F_eStep(), EEvent::Continue);
    assert_eq!(m.F_eStep(), EEvent::Load { l_iAddr: 77, l_iBits: 16 });
    assert_eq!(m.l_eState, EState::AwaitLoad(16));
    m.F_vResume(0x12345);
    assert_eq!(m.l_lDataStack, vec![0x2345]);
    assert_eq!(m.F_eStep(), EEvent::Continue);
    assert_eq!(m.F_eStep(), EEvent::Store { l_iAddr: 0x2345, l_iValue: 44, l_iBits: 8 });
    assert_eq!(m.l_lDataStack, vec![]);
    assert_eq!(m.l_lFrames[0].l_iPc, 8);
    assert_eq!(m.F_eStep(), EEvent::Finished);
    assert_eq!(m.l_eState, EState::Finished);
    assert_eq!(m.F_eStep(), EEvent::Finished);
    m.F_vResume(9);
    assert_eq!(m.l_lDataStack, vec![]);
}

#[test]
fn a_failed_machine_stays_failed() {
    let ir = main_of(vec![EIrInstr::PushI64(1), EIrInstr::AddI64, EIrInstr::Ret]);
    let mut m = CStackToInterpreter::F_cNew(&ir).unwrap();
    assert_eq!(m.F_vInterpret(100), EEvent::Failed(EInterpError::StackUnderflow));
    assert_eq!(m.l_eState, EState::Failed(EInterpError::StackUnderflow));
    assert_eq!(m.l_lDataStack, vec![1]);
    assert_eq!(m.l_lFrames[0].l_iPc, 1);
    assert_eq!(m.F_eStep(), EEvent::Failed(EInterpError::StackUnderflow));
    assert_eq!(m.F_vInterpret(5), EEvent::Failed(EInterpError::StackUnderflow));
}

#[test]
fn call_opens_an_activation_and_ret_closes_it() {
    let ir = F_lParseProgram("proc sq i64 ret i64 in dup * end proc main in 4 6 sq end").unwrap();
    let mut m = CStackToInterpreter::F_cNew(&ir).unwrap();
    assert_eq!(m.l_lFrames[0].l_iDecl, 1);
    assert_eq!(m.F_eStep(), EEvent::Continue);
    assert_eq!(m.F_eStep(), EEvent::Continue);
    assert_eq!(m.F_eStep(), EEvent::Continue);
    assert_eq!(m.l_lFrames.len(), 2);
    assert_eq!(m.l_lFrames[0].l_iPc, 3);
    assert_eq!(
        m.l_lFrames[1],
        CFrame {
            l_iDecl: 0,
            l_iPc: 0,
            l_iStackBase: 2,
            l_iParams: 1,
            l_bReturns: true,
            l_bIsMain: false,
        }
    );
    assert_eq!(m.F_eStep(), EEvent::Continue);
    assert_eq!(m.F_eStep(), EEvent::Continue);
    assert_eq!(m.l_lDataStack, vec![4, 36]);
    assert_eq!(m.F_eStep(), EEvent::Continue);
    assert_eq!(m.l_lFrames.len(), 1);
    assert_eq!(m.l_lDataStack, vec![4, 36]);
    assert_eq!(m.l_lDataStack.len(), 2 - 1 + 1);
    assert_eq!(m.F_eStep(), EEvent::Finished);
}

#[test]
fn interpret_stops_when_the_fuel_is_used_up() {
    let ir = F_lParseProgram("proc loop in loop end proc main in loop end").unwrap();
    let mut m = CStackToInterpreter::F_cNew(&ir).unwrap();
    assert_eq!(m.F_vInterpret(0), EEvent::Continue);
    assert_eq!(m.l_lFrames.len(), 1);
    assert_eq!(m.F_vInterpret(10), EEvent::Continue);
    assert_eq!(m.l_lFrames.len(), 11);
    assert_eq!(m.F_vInterpret(5), EEvent::Continue);
    assert_eq!(m.l_lFrames.len(), 16);
    assert_eq!(m.l_eState, EState::Running);
}

#[test]
fn execute_proc_enters_by_name() {
    let ir = F_lParseProgram("proc f i64 i64 ret i64 in end const k in end proc main in end").unwrap();
    let mut m = CStackToInterpreter::F_cNew(&ir).unwrap();
    assert_eq!(m.F_vExecuteProc(&"nope".to_string(), false), Err(EInterpError::UnknownProc));
    assert_eq!(m.F_vExecuteProc(&"f".to_string(), false), Err(EInterpError::StackUnderflow));
    assert_eq!(m.l_lFrames.len(), 1);
    m.l_lDataStack = vec![1, 2, 3];
    assert_eq!(m.F_vExecuteProc(&"f".to_string(), false), Ok(()));
    assert_eq!(
        m.l_lFrames[1],
        CFrame { l_iDecl: 0, l_iPc: 0, l_iStackBase: 3, l_iParams: 2, l_bReturns: true, l_bIsMain: false }
    );
    assert_eq!(m.F_vExecuteProc(&"k".to_string(), false), Ok(()));
    assert_eq!(
        m.l_lFrames[2],
        CFrame { l_iDecl: 1, l_iPc: 0, l_iStackBase: 3, l_iParams: 0, l_bReturns: true, l_bIsMain: false }
    );
}

fn diagnostic_of(src: &str) -> String {
    let ir = F_lParseProgram(src).unwrap();
    let mut m = CStackToInterpreter::F_cNew(&ir).unwrap();
    for _ in 0..100 {
        match m.F_vInterpret(100) {
            EEvent::Literal { .. } => m.F_vResume(4096),
            EEvent::Load { .. } | EEvent::Syscall { .. } => m.F_vResume(0),
            EEvent::Finished | EEvent::Failed(_) => break,
            _ => {},
        }
    }
    assert!(m.F_bIsValid());
    m.F_sDiagnostic()
}

#[test]
fn diagnostics_name_the_instruction_that_found_too_few_slots() {
    assert_eq!(diagnostic_of("proc main in 1 + end"), "Stack underflow add");
    assert_eq!(diagnostic_of("proc main in - end"), "Stack underflow sub");
    assert_eq!(diagnostic_of("proc main in swap end"), "Stack underflow swap");
    assert_eq!(diagnostic_of("proc main in dup end"), "Stack underflow dup");
    assert_eq!(diagnostic_of("proc main in \"a\" puts puts end"), "Stack underflow puts");
    assert_eq!(diagnostic_of("proc main in dump end"), "Stack underflow dump");
    assert_eq!(diagnostic_of("proc main in syscall end"), "Stack underflow syscall0");
    assert_eq!(diagnostic_of("proc main in 1 2 3 syscall3 end"), "Stack underflow syscall3");
    assert_eq!(diagnostic_of("proc main in 1 2 3 4 5 6 syscall6 end"), "Stack underflow syscall6");
    assert_eq!(diagnostic_of("proc f ret i64 in end proc main in f end"), "Stack underflow ret");
    assert_eq!(diagnostic_of("proc f i64 in end proc main in f end"), "Stack underflow call");
    assert_eq!(diagnostic_of("proc main in 1 * end"), "Stack underflow mul");
}

#[test]
fn diagnostics_name_the_procedure_that_is_not_declared() {
    assert_eq!(diagnostic_of("proc main in nowhere end"), "Proc nowhere non trouvee");
    assert_eq!(diagnostic_of("proc main in drop end"), "Proc drop non trouvee");
}

#[test]
fn diagnostics_of_traps_and_of_machines_that_did_not_fail() {
    assert_eq!(diagnostic_of("proc main in 1 0 / end"), "Division par zero");
    assert_eq!(diagnostic_of("proc main in 1 0 % end"), "Division par zero");
    assert_eq!(diagnostic_of("proc main in 1 end"), "");
}

#[test]
fn machines_from_the_constructor_are_valid_and_stay_so() {
    let ir = F_lParseProgram("proc f i64 ret i64 in dup + end proc main in 1 f f f dump end").unwrap();
    let mut m = CStackToInterpreter::F_cNew(&ir).unwrap();
    for _ in 0..30 {
        assert!(m.F_bIsValid());
        m.F_eStep();
    }
    assert_eq!(m.l_eState, EState::Finished);
    m.l_lFrames.push(CFrame {
        l_iDecl: 7,
        l_iPc: 0,
        l_iStackBase: 0,
        l_iParams: 0,
        l_bReturns: false,
        l_bIsMain: false,
    });
    assert!(!m.F_bIsValid());
    m.l_lFrames.pop();
    assert!(m.F_bIsValid());
    m.l_lFrames[0].l_iPc = 100;
    assert!(!m.F_bIsValid());
    m.l_lFrames[0].l_iPc = 0;
    m.l_lFrames[0].l_iParams = 1;
    assert!(!m.F_bIsValid());
}
