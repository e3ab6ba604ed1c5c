//! The interpreter: the operand-stack semantics of the instructions, and
//! the machine that runs a program step by step while the host does what
//! touches the outside world.
//!
//! The machine holds the operand stack and the activations of the
//! procedures. A step carries out one instruction and tells the host, by an
//! event, what is left to do: to write to standard output, to read or write
//! memory, to make a system call. Where the instruction pushes what only
//! the host can know (the address of a literal, what a load read, what the
//! kernel returned) the machine waits until the host has handed it in.

use crate::ir::{
    declared, find_decl, has_main, instrs_view, lemma_body_view, main_name, program_has_main,
    resolves_to, EIrInstr, EType, Instr,
};
use crate::text::{decimal_int, i64_to_decimal};
use vstd::prelude::*;
use vstd::string::*;
use vstd::utf8::encode_utf8;

verus! {

/// Why the interpreter gives up.
#[derive(Clone, Copy, Debug, PartialEq, Eq, Structural)]
pub enum EInterpError {
    /// The program declares no procedure `main`.
    MissingMain,
    /// An instruction needs more slots than the stack, or the activation,
    /// holds.
    StackUnderflow,
    /// A call names what the program does not declare.
    UnknownProc,
    /// A division by zero, or the one quotient that does not fit in 64 bits;
    /// the processor traps on both.
    DivideError,
}

impl EInterpError {
    /// What is said of the error.
    pub open spec fn message(self) -> Seq<char> {
        match self {
            EInterpError::MissingMain => "Erreur: proc main non declaree"@,
            EInterpError::StackUnderflow => "Stack underflow"@,
            EInterpError::UnknownProc => "Proc non trouvee"@,
            EInterpError::DivideError => "Division par zero"@,
        }
    }

    /// What is said of the error.
    pub fn F_sMessage(&self) -> (r: String)
        ensures
            r@ == self.message(),
    {
        match self {
            EInterpError::MissingMain => String::from_str("Erreur: proc main non declaree"),
            EInterpError::StackUnderflow => String::from_str("Stack underflow"),
            EInterpError::UnknownProc => String::from_str("Proc non trouvee"),
            EInterpError::DivideError => String::from_str("Division par zero"),
        }
    }
}

/// The left shift of the 64-bit pattern of `a`; of the amount only the low
/// six bits count.
pub open spec fn shift_left(a: i64, b: i64) -> i64 {
    (((a as u64) << (((b as int) % 64) as u64)) as i64)
}

/// The logical right shift of the 64-bit pattern of `a`; of the amount only
/// the low six bits count.
pub open spec fn shift_right(a: i64, b: i64) -> i64 {
    (((a as u64) >> (((b as int) % 64) as u64)) as i64)
}

/// The bitwise complement.
pub open spec fn complement(a: i64) -> i64 {
    !a
}

/// 1 for true, 0 for false.
pub open spec fn flag(b: bool) -> i64 {
    if b {
        1
    } else {
        0
    }
}

/// The low `bits` bits of `v`, the upper bits zero.
pub open spec fn zero_extend(v: i64, bits: u8) -> i64 {
    if bits == 8 {
        (((v as u64) & 0xff) as i64)
    } else if bits == 16 {
        (((v as u64) & 0xffff) as i64)
    } else if bits == 32 {
        (((v as u64) & 0xffff_ffff) as i64)
    } else {
        v
    }
}

/// The length in bytes of a literal, as the slot that is pushed for it.
pub open spec fn literal_len(lit: Seq<char>) -> i64 {
    ((encode_utf8(lit).len() as usize) as i64)
}

impl Instr {
    /// Whether the instruction takes two operands and leaves one result.
    pub open spec fn is_binary(self) -> bool {
        match self {
            Instr::AddI64
            | Instr::SubI64
            | Instr::MulI64
            | Instr::DivI64
            | Instr::ModI64
            | Instr::Eq
            | Instr::Neq
            | Instr::Lt
            | Instr::Gt
            | Instr::Le
            | Instr::Ge
            | Instr::And
            | Instr::Or
            | Instr::Xor
            | Instr::Shl
            | Instr::Shr => true,
            _ => false,
        }
    }

    /// The result of a binary instruction on `a`, the slot below the top,
    /// and `b`, the top; none where the processor would trap. Sums,
    /// differences and products wrap around; quotients truncate towards
    /// zero and remainders take the sign of `a`.
    pub open spec fn binary_result(self, a: i64, b: i64) -> Option<i64> {
        match self {
            Instr::AddI64 => Some(a.wrapping_add(b)),
            Instr::SubI64 => Some(a.wrapping_sub(b)),
            Instr::MulI64 => Some(a.wrapping_mul(b)),
            Instr::DivI64 => a.checked_div(b),
            Instr::ModI64 => a.checked_rem(b),
            Instr::Eq => Some(flag(a == b)),
            Instr::Neq => Some(flag(a != b)),
            Instr::Lt => Some(flag(a < b)),
            Instr::Gt => Some(flag(a > b)),
            Instr::Le => Some(flag(a <= b)),
            Instr::Ge => Some(flag(a >= b)),
            Instr::And => Some(a & b),
            Instr::Or => Some(a | b),
            Instr::Xor => Some(a ^ b),
            Instr::Shl => Some(shift_left(a, b)),
            Instr::Shr => Some(shift_right(a, b)),
            _ => None,
        }
    }

    /// The name by which diagnostics call the instruction.
    pub open spec fn mnemonic(self) -> Seq<char> {
        match self {
            Instr::PushI64(_) => "push"@,
            Instr::PushStr(_) => "push"@,
            Instr::AddI64 => "add"@,
            Instr::SubI64 => "sub"@,
            Instr::MulI64 => "mul"@,
            Instr::DivI64 => "div"@,
            Instr::ModI64 => "mod"@,
            Instr::Dup => "dup"@,
            Instr::Swap => "swap"@,
            Instr::Drop => "drop"@,
            Instr::Over => "over"@,
            Instr::Rot => "rot"@,
            Instr::Eq => "eq"@,
            Instr::Neq => "neq"@,
            Instr::Lt => "lt"@,
            Instr::Gt => "gt"@,
            Instr::Le => "le"@,
            Instr::Ge => "ge"@,
            Instr::And => "and"@,
            Instr::Or => "or"@,
            Instr::Xor => "xor"@,
            Instr::Not => "not"@,
            Instr::Shl => "shl"@,
            Instr::Shr => "shr"@,
            Instr::Load8 => "load8"@,
            Instr::Load16 => "load16"@,
            Instr::Load32 => "load32"@,
            Instr::Load64 => "load64"@,
            Instr::Store8 => "store8"@,
            Instr::Store16 => "store16"@,
            Instr::Store32 => "store32"@,
            Instr::Store64 => "store64"@,
            Instr::Puts => "puts"@,
            Instr::Dump => "dump"@,
            Instr::Syscall0 => "syscall0"@,
            Instr::Syscall1 => "syscall1"@,
            Instr::Syscall2 => "syscall2"@,
            Instr::Syscall3 => "syscall3"@,
            Instr::Syscall4 => "syscall4"@,
            Instr::Syscall5 => "syscall5"@,
            Instr::Syscall6 => "syscall6"@,
            Instr::Call(_) => "call"@,
            Instr::Ret => "ret"@,
            Instr::Proc(_, _, _, _) => "proc"@,
            Instr::Const(_, _) => "const"@,
        }
    }

    /// The width of a memory access; 0 for what is none.
    pub open spec fn access_bits(self) -> u8 {
        match self {
            Instr::Load8 | Instr::Store8 => 8,
            Instr::Load16 | Instr::Store16 => 16,
            Instr::Load32 | Instr::Store32 => 32,
            Instr::Load64 | Instr::Store64 => 64,
            _ => 0,
        }
    }

    /// The number of arguments of a system call; 0 for what is none.
    pub open spec fn syscall_args(self) -> nat {
        match self {
            Instr::Syscall1 => 1,
            Instr::Syscall2 => 2,
            Instr::Syscall3 => 3,
            Instr::Syscall4 => 4,
            Instr::Syscall5 => 5,
            Instr::Syscall6 => 6,
            _ => 0,
        }
    }

    /// By how many slots the instruction changes the depth of the stack
    /// when it succeeds, the host's answer included. Calls and returns are
    /// not summarised here: their effect is that of the activation.
    pub open spec fn stack_effect(self) -> int {
        match self {
            Instr::PushI64(_) => 1,
            Instr::PushStr(_) => 2,
            Instr::Dup | Instr::Over => 1,
            Instr::Swap | Instr::Rot | Instr::Not => 0,
            Instr::Drop | Instr::Dump => -1,
            Instr::Puts => -2,
            Instr::Load8 | Instr::Load16 | Instr::Load32 | Instr::Load64 => 0,
            Instr::Store8 | Instr::Store16 | Instr::Store32 | Instr::Store64 => -2,
            Instr::Syscall0
            | Instr::Syscall1
            | Instr::Syscall2
            | Instr::Syscall3
            | Instr::Syscall4
            | Instr::Syscall5
            | Instr::Syscall6 => -(self.syscall_args() as int),
            Instr::Call(_) | Instr::Ret | Instr::Proc(_, _, _, _) | Instr::Const(_, _) => 0,
            _ => -1,
        }
    }
}

/// The stack after an instruction that needs nothing but the stack, or why
/// it fails: too few slots, or a division that traps. An instruction of
/// another kind leaves the stack as it is, as does a declaration.
pub open spec fn apply(instr: Instr, s: Seq<i64>) -> Result<Seq<i64>, EInterpError> {
    let n = s.len() as int;
    match instr {
        Instr::PushI64(v) => Ok(s.push(v)),
        Instr::Dup => if n < 1 {
            Err(EInterpError::StackUnderflow)
        } else {
            Ok(s.push(s[n - 1]))
        },
        Instr::Swap => if n < 2 {
            Err(EInterpError::StackUnderflow)
        } else {
            Ok(s.take(n - 2).push(s[n - 1]).push(s[n - 2]))
        },
        Instr::Drop => if n < 1 {
            Err(EInterpError::StackUnderflow)
        } else {
            Ok(s.take(n - 1))
        },
        Instr::Over => if n < 2 {
            Err(EInterpError::StackUnderflow)
        } else {
            Ok(s.push(s[n - 2]))
        },
        Instr::Rot => if n < 3 {
            Err(EInterpError::StackUnderflow)
        } else {
            Ok(s.take(n - 3).push(s[n - 2]).push(s[n - 1]).push(s[n - 3]))
        },
        Instr::Not => if n < 1 {
            Err(EInterpError::StackUnderflow)
        } else {
            Ok(s.take(n - 1).push(complement(s[n - 1])))
        },
        _ => if !instr.is_binary() {
            Ok(s)
        } else if n < 2 {
            Err(EInterpError::StackUnderflow)
        } else {
            match instr.binary_result(s[n - 2], s[n - 1]) {
                Some(r) => Ok(s.take(n - 2).push(r)),
                None => Err(EInterpError::DivideError),
            }
        },
    }
}

/// The left shift of the 64-bit pattern of `a` by the low six bits of `b`.
pub fn shift_left_exec(a: i64, b: i64) -> (r: i64)
    ensures
        r == shift_left(a, b),
{
    let amount: u64 = match b.checked_rem_euclid(64) {
        Some(m) => m as u64,
        None => 0,
    };
    let bits = #[verifier::truncate] (a as u64);
    #[verifier::truncate] ((bits << amount) as i64)
}

/// The logical right shift of the 64-bit pattern of `a` by the low six bits
/// of `b`.
pub fn shift_right_exec(a: i64, b: i64) -> (r: i64)
    ensures
        r == shift_right(a, b),
{
    let amount: u64 = match b.checked_rem_euclid(64) {
        Some(m) => m as u64,
        None => 0,
    };
    let bits = #[verifier::truncate] (a as u64);
    #[verifier::truncate] ((bits >> amount) as i64)
}

/// The low `bits` bits of `v`, the upper bits zero.
pub fn zero_extend_exec(v: i64, bits: u8) -> (r: i64)
    ensures
        r == zero_extend(v, bits),
{
    let pattern = #[verifier::truncate] (v as u64);
    if bits == 8 {
        #[verifier::truncate] ((pattern & 0xff) as i64)
    } else if bits == 16 {
        #[verifier::truncate] ((pattern & 0xffff) as i64)
    } else if bits == 32 {
        #[verifier::truncate] ((pattern & 0xffff_ffff) as i64)
    } else {
        v
    }
}

/// 1 for true, 0 for false.
pub fn flag_exec(b: bool) -> (r: i64)
    ensures
        r == flag(b),
{
    if b {
        1
    } else {
        0
    }
}

/// The result of a binary instruction; none where it traps, and for what
/// is no binary instruction.
pub fn binary_exec(l_cInstr: &EIrInstr, a: i64, b: i64) -> (r: Option<i64>)
    ensures
        r == l_cInstr@.binary_result(a, b),
{
    match l_cInstr {
        EIrInstr::AddI64 => Some(a.wrapping_add(b)),
        EIrInstr::SubI64 => Some(a.wrapping_sub(b)),
        EIrInstr::MulI64 => Some(a.wrapping_mul(b)),
        EIrInstr::DivI64 => a.checked_div(b),
        EIrInstr::ModI64 => a.checked_rem(b),
        EIrInstr::Eq => Some(flag_exec(a == b)),
        EIrInstr::Neq => Some(flag_exec(a != b)),
        EIrInstr::Lt => Some(flag_exec(a < b)),
        EIrInstr::Gt => Some(flag_exec(a > b)),
        EIrInstr::Le => Some(flag_exec(a <= b)),
        EIrInstr::Ge => Some(flag_exec(a >= b)),
        EIrInstr::And => Some(a & b),
        EIrInstr::Or => Some(a | b),
        EIrInstr::Xor => Some(a ^ b),
        EIrInstr::Shl => Some(shift_left_exec(a, b)),
        EIrInstr::Shr => Some(shift_right_exec(a, b)),
        _ => None,
    }
}

/// Whether the instruction takes two operands and leaves one result.
pub fn is_binary_exec(l_cInstr: &EIrInstr) -> (r: bool)
    ensures
        r == l_cInstr@.is_binary(),
{
    match l_cInstr {
        EIrInstr::AddI64
        | EIrInstr::SubI64
        | EIrInstr::MulI64
        | EIrInstr::DivI64
        | EIrInstr::ModI64
        | EIrInstr::Eq
        | EIrInstr::Neq
        | EIrInstr::Lt
        | EIrInstr::Gt
        | EIrInstr::Le
        | EIrInstr::Ge
        | EIrInstr::And
        | EIrInstr::Or
        | EIrInstr::Xor
        | EIrInstr::Shl
        | EIrInstr::Shr => true,
        _ => false,
    }
}

/// Carries out on the stack an instruction that needs nothing else. On
/// failure the stack is left as it was.
pub fn F_eApply(l_cInstr: &EIrInstr, l_lStack: &mut Vec<i64>) -> (r: Result<(), EInterpError>)
    ensures
        match r {
            Ok(_) => apply(l_cInstr@, old(l_lStack)@) == Ok::<Seq<i64>, EInterpError>(
                final(l_lStack)@,
            ),
            Err(e) => apply(l_cInstr@, old(l_lStack)@) == Err::<Seq<i64>, EInterpError>(e)
                && final(l_lStack)@ == old(l_lStack)@,
        },
{
    let n = l_lStack.len();
    match l_cInstr {
        EIrInstr::PushI64(l_iVal) => {
            l_lStack.push(*l_iVal);
        },
        EIrInstr::Dup => {
            if n < 1 {
                return Err(EInterpError::StackUnderflow);
            }
            let l_iTop = l_lStack[n - 1];
            l_lStack.push(l_iTop);
        },
        EIrInstr::Swap => {
            if n < 2 {
                return Err(EInterpError::StackUnderflow);
            }
            let l_iB = l_lStack[n - 1];
            let l_iA = l_lStack[n - 2];
            l_lStack.truncate(n - 2);
            l_lStack.push(l_iB);
            l_lStack.push(l_iA);
        },
        EIrInstr::Drop => {
            if n < 1 {
                return Err(EInterpError::StackUnderflow);
            }
            l_lStack.truncate(n - 1);
        },
        EIrInstr::Over => {
            if n < 2 {
                return Err(EInterpError::StackUnderflow);
            }
            let l_iA = l_lStack[n - 2];
            l_lStack.push(l_iA);
        },
        EIrInstr::Rot => {
            if n < 3 {
                return Err(EInterpError::StackUnderflow);
            }
            let l_iC = l_lStack[n - 1];
            let l_iB = l_lStack[n - 2];
            let l_iA = l_lStack[n - 3];
            l_lStack.truncate(n - 3);
            l_lStack.push(l_iB);
            l_lStack.push(l_iC);
            l_lStack.push(l_iA);
        },
        EIrInstr::Not => {
            if n < 1 {
                return Err(EInterpError::StackUnderflow);
            }
            let l_iTop = l_lStack[n - 1];
            l_lStack.truncate(n - 1);
            l_lStack.push(!l_iTop);
        },
        _ => {
            if !is_binary_exec(l_cInstr) {
                return Ok(());
            }
            if n < 2 {
                return Err(EInterpError::StackUnderflow);
            }
            let l_iB = l_lStack[n - 1];
            let l_iA = l_lStack[n - 2];
            match binary_exec(l_cInstr, l_iA, l_iB) {
                None => {
                    return Err(EInterpError::DivideError);
                },
                Some(l_iResult) => {
                    l_lStack.truncate(n - 2);
                    l_lStack.push(l_iResult);
                },
            }
        },
    }
    Ok(())
}

/// One activation of a procedure.
#[derive(Clone, Copy, Debug, PartialEq, Eq, Structural)]
pub struct CFrame {
    /// The index of the declaration in the program.
    pub l_iDecl: usize,
    /// The index, in the declaration's body, of the instruction to run next.
    pub l_iPc: usize,
    /// The depth of the stack when the activation began.
    pub l_iStackBase: usize,
    /// How many of the slots below that depth are its arguments.
    pub l_iParams: usize,
    /// Whether it leaves a result slot on return.
    pub l_bReturns: bool,
    /// Whether it is the activation of `main` that the run began with.
    pub l_bIsMain: bool,
}

/// What the machine is doing.
#[derive(Clone, Copy, Debug, PartialEq, Eq, Structural)]
pub enum EState {
    /// It can take a step.
    Running,
    /// It waits for the address of a literal; the slot holds the literal's
    /// length in bytes.
    AwaitLiteral(i64),
    /// It waits for what a load of that many bits read.
    AwaitLoad(u8),
    /// It waits for what a system call returned.
    AwaitSyscall,
    /// `main` has returned.
    Finished,
    /// It gave up.
    Failed(EInterpError),
}

/// What a step asks of the host.
#[derive(Clone, Copy, Debug, PartialEq, Eq, Structural)]
pub enum EEvent {
    /// Nothing.
    Continue,
    /// To write the decimal rendering of the value, which the machine
    /// holds as its output, to standard output.
    Dump(i64),
    /// To write `l_iLen` bytes from the address `l_iPtr` to standard output.
    Puts { l_iPtr: i64, l_iLen: i64 },
    /// To answer with the address of the bytes of the literal that the
    /// instruction `l_iPc` of the declaration `l_iDecl` pushes.
    Literal { l_iDecl: usize, l_iPc: usize },
    /// To answer with the `l_iBits` bits at the address, zero-extended.
    Load { l_iAddr: i64, l_iBits: u8 },
    /// To write the low `l_iBits` bits of the value at the address.
    Store { l_iAddr: i64, l_iValue: i64, l_iBits: u8 },
    /// To make the system call whose number and `l_iCount` arguments the
    /// machine holds, number first, and to answer with what it returned.
    Syscall { l_iCount: usize },
    /// Nothing more: `main` has returned.
    Finished,
    /// Nothing more: the machine gave up.
    Failed(EInterpError),
    /// The answer that the machine is waiting for.
    Waiting,
}

/// The machine's state as plain values. The program that the machine runs
/// is no part of it: no step changes the program, each says so, and what a
/// step does is stated with the program as a parameter.
#[verifier::ext_equal]
pub struct MachineView {
    pub stack: Seq<i64>,
    pub frames: Seq<CFrame>,
    pub args: Seq<i64>,
    pub output: Seq<char>,
    pub state: EState,
}

/// The declaration that a name stands for, if it is declared.
pub open spec fn lookup(prog: Seq<Instr>, name: Seq<char>) -> Option<int> {
    if declared(prog, name) {
        Some(choose|i: int| resolves_to(prog, name, i))
    } else {
        None
    }
}

/// Whether an activation fits the program: it names a declaration, points
/// into its body or just behind it, and has no more arguments than the
/// stack held when it began.
pub open spec fn frame_wf(prog: Seq<Instr>, f: CFrame) -> bool {
    &&& f.l_iDecl < prog.len()
    &&& prog[f.l_iDecl as int].is_decl()
    &&& f.l_iPc <= prog[f.l_iDecl as int].decl_body().len()
    &&& f.l_iParams <= f.l_iStackBase
}

impl MachineView {
    /// Whether every activation fits the program.
    pub open spec fn wf(self, prog: Seq<Instr>) -> bool {
        forall|k: int| 0 <= k < self.frames.len() ==> frame_wf(prog, #[trigger] self.frames[k])
    }

    /// The machine before anything has run: an empty stack and no
    /// activation.
    pub open spec fn empty() -> MachineView {
        MachineView {
            stack: Seq::empty(),
            frames: Seq::empty(),
            args: Seq::empty(),
            output: Seq::empty(),
            state: EState::Running,
        }
    }

    /// The body of the declaration that the innermost activation runs.
    pub open spec fn body(self, prog: Seq<Instr>) -> Seq<Instr> {
        prog[self.frames.last().l_iDecl as int].decl_body()
    }

    /// Whether the innermost activation has an instruction at hand, rather
    /// than standing behind the last one of its body.
    pub open spec fn at_instr(self, prog: Seq<Instr>) -> bool {
        self.frames.len() > 0 && self.frames.last().l_iPc < self.body(prog).len()
    }

    /// The instruction at hand.
    pub open spec fn instr(self, prog: Seq<Instr>) -> Instr {
        self.body(prog)[self.frames.last().l_iPc as int]
    }

    /// The innermost activation moved on by one instruction.
    pub open spec fn advance(self) -> MachineView {
        let f = self.frames.last();
        MachineView {
            frames: self.frames.update(
                self.frames.len() - 1,
                CFrame { l_iPc: (f.l_iPc + 1) as usize, ..f },
            ),
            ..self
        }
    }

    /// The machine with another stack.
    pub open spec fn with_stack(self, stack: Seq<i64>) -> MachineView {
        MachineView { stack, ..self }
    }

    /// The machine in another state.
    pub open spec fn with_state(self, state: EState) -> MachineView {
        MachineView { state, ..self }
    }

    /// The machine given up, and the event that says so.
    pub open spec fn fail(self, e: EInterpError) -> (MachineView, EEvent) {
        (self.with_state(EState::Failed(e)), EEvent::Failed(e))
    }

    /// The machine at its end, and the event that says so.
    pub open spec fn finish(self) -> (MachineView, EEvent) {
        (self.with_state(EState::Finished), EEvent::Finished)
    }

    /// A procedure entered by name: the activation records the depth of the
    /// stack and how many of the top slots are its arguments. `main`, as the
    /// run begins with it, takes none. Fails for a name that nothing
    /// declares, and where the stack holds fewer slots than the arguments.
    pub open spec fn enter(self, prog: Seq<Instr>, name: Seq<char>, is_main: bool) -> Result<
        MachineView,
        EInterpError,
    > {
        match lookup(prog, name) {
            None => Err(EInterpError::UnknownProc),
            Some(d) => {
                let params = if is_main {
                    0
                } else {
                    prog[d].decl_params()
                };
                if self.stack.len() < params {
                    Err(EInterpError::StackUnderflow)
                } else {
                    Ok(
                        MachineView {
                            frames: self.frames.push(
                                CFrame {
                                    l_iDecl: d as usize,
                                    l_iPc: 0,
                                    l_iStackBase: self.stack.len() as usize,
                                    l_iParams: params as usize,
                                    l_bReturns: !is_main && prog[d].decl_returns(),
                                    l_bIsMain: is_main,
                                },
                            ),
                            ..self
                        },
                    )
                }
            },
        }
    }

    /// The innermost activation left without a splice: what happens behind
    /// the last instruction of a body that no `Ret` ends. The run ends with
    /// the activation of `main`.
    pub open spec fn leave(self) -> (MachineView, EEvent) {
        if self.frames.last().l_bIsMain {
            self.finish()
        } else {
            (MachineView { frames: self.frames.drop_last(), ..self }, EEvent::Continue)
        }
    }

    /// The return from the innermost activation. `main` ends the run and
    /// leaves the stack alone. Any other activation that began at depth `B`
    /// with `N` arguments leaves the stack at depth `B - N`, plus the slot
    /// that was on top if it returns a value; it fails where the stack
    /// holds less than that.
    pub open spec fn ret(self) -> (MachineView, EEvent) {
        let f = self.frames.last();
        let n = self.stack.len() as int;
        let floor = f.l_iStackBase - f.l_iParams;
        if f.l_bIsMain {
            self.finish()
        } else if f.l_bReturns {
            if n < floor + 1 {
                self.fail(EInterpError::StackUnderflow)
            } else {
                (
                    MachineView {
                        stack: self.stack.take(floor).push(self.stack[n - 1]),
                        frames: self.frames.drop_last(),
                        ..self
                    },
                    EEvent::Continue,
                )
            }
        } else {
            if n < floor {
                self.fail(EInterpError::StackUnderflow)
            } else {
                (
                    MachineView {
                        stack: self.stack.take(floor),
                        frames: self.frames.drop_last(),
                        ..self
                    },
                    EEvent::Continue,
                )
            }
        }
    }

    /// One instruction of the innermost activation.
    pub open spec fn execute(self, prog: Seq<Instr>, instr: Instr) -> (MachineView, EEvent) {
        let s = self.stack;
        let n = s.len() as int;
        let f = self.frames.last();
        match instr {
            Instr::PushStr(lit) => (
                self.advance().with_state(EState::AwaitLiteral(literal_len(lit))),
                EEvent::Literal { l_iDecl: f.l_iDecl, l_iPc: f.l_iPc },
            ),
            Instr::Puts => if n < 2 {
                self.fail(EInterpError::StackUnderflow)
            } else {
                (
                    self.advance().with_stack(s.take(n - 2)),
                    EEvent::Puts { l_iPtr: s[n - 2], l_iLen: s[n - 1] },
                )
            },
            Instr::Dump => if n < 1 {
                self.fail(EInterpError::StackUnderflow)
            } else {
                (
                    MachineView {
                        stack: s.take(n - 1),
                        output: decimal_int(s[n - 1] as int),
                        ..self.advance()
                    },
                    EEvent::Dump(s[n - 1]),
                )
            },
            Instr::Load8 | Instr::Load16 | Instr::Load32 | Instr::Load64 => if n < 1 {
                self.fail(EInterpError::StackUnderflow)
            } else {
                (
                    self.advance().with_stack(s.take(n - 1)).with_state(
                        EState::AwaitLoad(instr.access_bits()),
                    ),
                    EEvent::Load { l_iAddr: s[n - 1], l_iBits: instr.access_bits() },
                )
            },
            Instr::Store8 | Instr::Store16 | Instr::Store32 | Instr::Store64 => if n < 2 {
                self.fail(EInterpError::StackUnderflow)
            } else {
                (
                    self.advance().with_stack(s.take(n - 2)),
                    EEvent::Store {
                        l_iAddr: s[n - 2],
                        l_iValue: zero_extend(s[n - 1], instr.access_bits()),
                        l_iBits: instr.access_bits(),
                    },
                )
            },
            Instr::Syscall0
            | Instr::Syscall1
            | Instr::Syscall2
            | Instr::Syscall3
            | Instr::Syscall4
            | Instr::Syscall5
            | Instr::Syscall6 => {
                let k = instr.syscall_args() as int;
                if n < k + 1 {
                    self.fail(EInterpError::StackUnderflow)
                } else {
                    (
                        MachineView {
                            stack: s.take(n - k - 1),
                            args: s.subrange(n - k - 1, n),
                            state: EState::AwaitSyscall,
                            ..self.advance()
                        },
                        EEvent::Syscall { l_iCount: k as usize },
                    )
                }
            },
            Instr::Call(name) => match self.advance().enter(prog, name, false) {
                Err(e) => self.fail(e),
                Ok(entered) => (entered, EEvent::Continue),
            },
            Instr::Ret => self.ret(),
            _ => match apply(instr, s) {
                Err(e) => self.fail(e),
                Ok(next) => (self.advance().with_stack(next), EEvent::Continue),
            },
        }
    }

    /// One step. A machine that is not running stays as it is and says
    /// why; one without an activation is at its end. Behind the last
    /// instruction of a body the activation is left; else the instruction
    /// at hand is carried out.
    pub open spec fn step(self, prog: Seq<Instr>) -> (MachineView, EEvent) {
        match self.state {
            EState::Running => {
                if self.frames.len() == 0 {
                    self.finish()
                } else if self.at_instr(prog) {
                    self.execute(prog, self.instr(prog))
                } else {
                    self.leave()
                }
            },
            EState::Finished => (self, EEvent::Finished),
            EState::Failed(e) => (self, EEvent::Failed(e)),
            _ => (self, EEvent::Waiting),
        }
    }

    /// The host's answer taken in. For a literal its address is pushed,
    /// then its length; for a load the value, zero-extended to the width of
    /// the load; for a system call what it returned. A machine that waits
    /// for nothing stays as it is.
    pub open spec fn resume(self, value: i64) -> MachineView {
        match self.state {
            EState::AwaitLiteral(len) => MachineView {
                stack: self.stack.push(value).push(len),
                state: EState::Running,
                ..self
            },
            EState::AwaitLoad(bits) => MachineView {
                stack: self.stack.push(zero_extend(value, bits)),
                state: EState::Running,
                ..self
            },
            EState::AwaitSyscall => MachineView {
                stack: self.stack.push(value),
                state: EState::Running,
                ..self
            },
            _ => self,
        }
    }

    /// What is said of a machine that gave up: which instruction found too
    /// few slots, which name nothing declares, or else the error's own
    /// message. Nothing is said of a machine that did not give up.
    pub open spec fn diagnostic(self, prog: Seq<Instr>) -> Seq<char> {
        match self.state {
            EState::Failed(e) => {
                if self.at_instr(prog) {
                    match (e, self.instr(prog)) {
                        (EInterpError::StackUnderflow, instr) => "Stack underflow "@
                            + instr.mnemonic(),
                        (EInterpError::UnknownProc, Instr::Call(name)) => "Proc "@ + name
                            + " non trouvee"@,
                        _ => e.message(),
                    }
                } else {
                    e.message()
                }
            },
            _ => Seq::empty(),
        }
    }

    /// Up to `fuel` steps, ending early with the first event that is not
    /// `Continue`.
    pub open spec fn run(self, prog: Seq<Instr>, fuel: nat) -> (MachineView, EEvent)
        decreases fuel,
    {
        if fuel == 0 {
            (self, EEvent::Continue)
        } else {
            let (next, event) = self.step(prog);
            if event != EEvent::Continue {
                (next, event)
            } else {
                next.run(prog, (fuel - 1) as nat)
            }
        }
    }
}

/// A name stands for one declaration at most.
pub proof fn lemma_resolves_unique(prog: Seq<Instr>, name: Seq<char>, i: int, j: int)
    requires
        resolves_to(prog, name, i),
        resolves_to(prog, name, j),
    ensures
        i == j,
{
    if i < j {
        assert(prog[j].is_decl() && prog[j].decl_name() == name);
    } else if j < i {
        assert(prog[i].is_decl() && prog[i].decl_name() == name);
    }
}

/// The last declaration of a name below `k`, where none of that name
/// stands at `k` or behind it.
pub proof fn lemma_last_decl(prog: Seq<Instr>, name: Seq<char>, k: int) -> (j: int)
    requires
        0 <= k <= prog.len(),
        exists|i: int| 0 <= i < k && #[trigger] prog[i].is_decl() && prog[i].decl_name() == name,
        forall|i: int|
            k <= i < prog.len() ==> !(#[trigger] prog[i].is_decl() && prog[i].decl_name() == name),
    ensures
        resolves_to(prog, name, j),
    decreases k,
{
    if prog[k - 1].is_decl() && prog[k - 1].decl_name() == name {
        k - 1
    } else {
        lemma_last_decl(prog, name, k - 1)
    }
}

/// A declared name is looked up to the declaration that it stands for.
pub proof fn lemma_declared_resolves(prog: Seq<Instr>, name: Seq<char>)
    requires
        declared(prog, name),
    ensures
        lookup(prog, name) is Some,
        resolves_to(prog, name, lookup(prog, name)->Some_0),
{
    let j = lemma_last_decl(prog, name, prog.len() as int);
}

/// The declaration that a name resolves to is the one that is looked up.
pub proof fn lemma_lookup(prog: Seq<Instr>, name: Seq<char>, i: int)
    requires
        resolves_to(prog, name, i),
    ensures
        lookup(prog, name) == Some(i),
{
    let j = choose|j: int| resolves_to(prog, name, j);
    lemma_resolves_unique(prog, name, i, j);
}

/// The machine that runs a program: the operand stack, the activations,
/// what it has to say and what it waits for. The host performs what the
/// events ask and hands back the answers.
pub struct CStackToInterpreter<'a> {
    pub l_lIr: &'a [EIrInstr],
    pub l_lDataStack: Vec<i64>,
    pub l_lFrames: Vec<CFrame>,
    /// The number and the arguments of the system call that is under way.
    pub l_lArgs: Vec<i64>,
    /// The decimal rendering of the value that was dumped last.
    pub l_sOutput: String,
    pub l_eState: EState,
}

impl<'a> View for CStackToInterpreter<'a> {
    type V = MachineView;

    open spec fn view(&self) -> MachineView {
        MachineView {
            stack: self.l_lDataStack@,
            frames: self.l_lFrames@,
            args: self.l_lArgs@,
            output: self.l_sOutput@,
            state: self.l_eState,
        }
    }
}

/// The name by which diagnostics call the instruction.
pub fn mnemonic_str(l_cInstr: &EIrInstr) -> (r: &'static str)
    ensures
        r@ == l_cInstr@.mnemonic(),
{
    match l_cInstr {
        EIrInstr::PushI64(_) => "push",
        EIrInstr::PushStr(_) => "push",
        EIrInstr::AddI64 => "add",
        EIrInstr::SubI64 => "sub",
        EIrInstr::MulI64 => "mul",
        EIrInstr::DivI64 => "div",
        EIrInstr::ModI64 => "mod",
        EIrInstr::Dup => "dup",
        EIrInstr::Swap => "swap",
        EIrInstr::Drop => "drop",
        EIrInstr::Over => "over",
        EIrInstr::Rot => "rot",
        EIrInstr::Eq => "eq",
        EIrInstr::Neq => "neq",
        EIrInstr::Lt => "lt",
        EIrInstr::Gt => "gt",
        EIrInstr::Le => "le",
        EIrInstr::Ge => "ge",
        EIrInstr::And => "and",
        EIrInstr::Or => "or",
        EIrInstr::Xor => "xor",
        EIrInstr::Not => "not",
        EIrInstr::Shl => "shl",
        EIrInstr::Shr => "shr",
        EIrInstr::Load8 => "load8",
        EIrInstr::Load16 => "load16",
        EIrInstr::Load32 => "load32",
        EIrInstr::Load64 => "load64",
        EIrInstr::Store8 => "store8",
        EIrInstr::Store16 => "store16",
        EIrInstr::Store32 => "store32",
        EIrInstr::Store64 => "store64",
        EIrInstr::Puts => "puts",
        EIrInstr::Dump => "dump",
        EIrInstr::Syscall0 => "syscall0",
        EIrInstr::Syscall1 => "syscall1",
        EIrInstr::Syscall2 => "syscall2",
        EIrInstr::Syscall3 => "syscall3",
        EIrInstr::Syscall4 => "syscall4",
        EIrInstr::Syscall5 => "syscall5",
        EIrInstr::Syscall6 => "syscall6",
        EIrInstr::Call(_) => "call",
        EIrInstr::Ret => "ret",
        EIrInstr::Proc(_, _, _, _) => "proc",
        EIrInstr::Const(_, _) => "const",
    }
}

/// The width of a memory access; 0 for what is none.
pub fn access_bits_exec(l_cInstr: &EIrInstr) -> (r: u8)
    ensures
        r == l_cInstr@.access_bits(),
{
    match l_cInstr {
        EIrInstr::Load8 | EIrInstr::Store8 => 8,
        EIrInstr::Load16 | EIrInstr::Store16 => 16,
        EIrInstr::Load32 | EIrInstr::Store32 => 32,
        EIrInstr::Load64 | EIrInstr::Store64 => 64,
        _ => 0,
    }
}

/// The number of arguments of a system call; 0 for what is none.
pub fn syscall_args_exec(l_cInstr: &EIrInstr) -> (r: usize)
    ensures
        r == l_cInstr@.syscall_args(),
        r <= 6,
{
    match l_cInstr {
        EIrInstr::Syscall1 => 1,
        EIrInstr::Syscall2 => 2,
        EIrInstr::Syscall3 => 3,
        EIrInstr::Syscall4 => 4,
        EIrInstr::Syscall5 => 5,
        EIrInstr::Syscall6 => 6,
        _ => 0,
    }
}

impl<'a> CStackToInterpreter<'a> {
    /// The program as the machine sees it.
    pub open spec fn prog(&self) -> Seq<Instr> {
        instrs_view(self.l_lIr@)
    }

    /// Whether every activation fits the program.
    pub open spec fn wf(&self) -> bool {
        self@.wf(self.prog())
    }

    /// Whether every activation fits the program, which is what the steps
    /// ask for. The machines that `F_cNew` makes are valid, and the steps
    /// keep them so.
    pub fn F_bIsValid(&self) -> (r: bool)
        ensures
            r == self.wf(),
    {
        let l_lIr = self.l_lIr;
        let ghost prog = self.prog();
        let mut i: usize = 0;
        while i < self.l_lFrames.len()
            invariant
                i <= self.l_lFrames.len(),
                l_lIr@ == self.l_lIr@,
                prog == self.prog(),
                forall|k: int| 0 <= k < i ==> frame_wf(prog, #[trigger] self@.frames[k]),
            decreases self.l_lFrames.len() - i,
        {
            let l_cFrame = self.l_lFrames[i];
            if l_cFrame.l_iDecl >= l_lIr.len() || l_cFrame.l_iParams > l_cFrame.l_iStackBase {
                assert(!frame_wf(prog, self@.frames[i as int]));
                return false;
            }
            proof {
                lemma_body_view(l_lIr@[l_cFrame.l_iDecl as int]);
            }
            let l_bFits = match &l_lIr[l_cFrame.l_iDecl] {
                EIrInstr::Proc(_, l_lBody, _, _) => l_cFrame.l_iPc <= l_lBody.len(),
                EIrInstr::Const(_, l_lBody) => l_cFrame.l_iPc <= l_lBody.len(),
                _ => false,
            };
            if !l_bFits {
                return false;
            }
            i += 1;
        }
        true
    }

    /// What is said of a machine that gave up; the empty text for any
    /// other machine.
    pub fn F_sDiagnostic(&self) -> (r: String)
        requires
            self.wf(),
        ensures
            r@ == self@.diagnostic(self.prog()),
    {
        let l_eError = match self.l_eState {
            EState::Failed(l_eError) => l_eError,
            _ => {
                return String::new();
            },
        };
        let l_iFrames = self.l_lFrames.len();
        if l_iFrames == 0 {
            return l_eError.F_sMessage();
        }
        let l_cFrame = self.l_lFrames[l_iFrames - 1];
        let l_lIr = self.l_lIr;
        proof {
            assert(frame_wf(self.prog(), self@.frames[l_iFrames - 1]));
            lemma_body_view(l_lIr@[l_cFrame.l_iDecl as int]);
        }
        let l_lBody = match &l_lIr[l_cFrame.l_iDecl] {
            EIrInstr::Proc(_, l_lBody, _, _) => l_lBody,
            EIrInstr::Const(_, l_lBody) => l_lBody,
            _ => {
                return l_eError.F_sMessage();
            },
        };
        if l_cFrame.l_iPc >= l_lBody.len() {
            return l_eError.F_sMessage();
        }
        let l_cInstr = &l_lBody[l_cFrame.l_iPc];
        match (l_eError, l_cInstr) {
            (EInterpError::StackUnderflow, _) => {
                let mut l_sText = String::from_str("Stack underflow ");
                l_sText.append(mnemonic_str(l_cInstr));
                l_sText
            },
            (EInterpError::UnknownProc, EIrInstr::Call(l_sName)) => {
                let mut l_sText = String::from_str("Proc ");
                l_sText.append(l_sName.as_str());
                l_sText.append(" non trouvee");
                l_sText
            },
            _ => l_eError.F_sMessage(),
        }
    }

    /// A machine ready to run the program from `main`. The scan comes
    /// first: a program without a procedure `main` is refused.
    pub fn F_cNew(l_lIr: &'a [EIrInstr]) -> (r: Result<Self, EInterpError>)
        ensures
            match r {
                Ok(m) => {
                    &&& has_main(instrs_view(l_lIr@))
                    &&& m.l_lIr@ == l_lIr@
                    &&& MachineView::empty().enter(instrs_view(l_lIr@), main_name(), true) == Ok::<
                        MachineView,
                        EInterpError,
                    >(m@)
                    &&& m.wf()
                },
                Err(e) => e == EInterpError::MissingMain && !has_main(instrs_view(l_lIr@)),
            },
    {
        if !program_has_main(l_lIr) {
            return Err(EInterpError::MissingMain);
        }
        let mut l_cMachine = CStackToInterpreter {
            l_lIr,
            l_lDataStack: Vec::new(),
            l_lFrames: Vec::new(),
            l_lArgs: Vec::new(),
            l_sOutput: String::new(),
            l_eState: EState::Running,
        };
        let l_sMain = String::from_str("main");
        match l_cMachine.F_vExecuteProc(&l_sMain, true) {
            Ok(_) => Ok(l_cMachine),
            Err(_) => {
                proof {
                    let prog = instrs_view(l_lIr@);
                    let i = choose|i: int|
                        0 <= i < prog.len() && #[trigger] prog[i] is Proc && prog[i].decl_name()
                            == main_name();
                    assert(prog[i].is_decl() && prog[i].decl_name() == main_name());
                }
                Err(EInterpError::MissingMain)
            },
        }
    }

    /// Enters the procedure of that name: looks the name up and opens an
    /// activation at the present depth of the stack. On failure the machine
    /// is left as it was.
    pub fn F_vExecuteProc(&mut self, l_sName: &String, l_bIsMain: bool) -> (r: Result<
        (),
        EInterpError,
    >)
        requires
            old(self).wf(),
        ensures
            final(self).l_lIr@ == old(self).l_lIr@,
            final(self).wf(),
            match r {
                Ok(_) => old(self)@.enter(old(self).prog(), l_sName@, l_bIsMain) == Ok::<
                    MachineView,
                    EInterpError,
                >(final(self)@),
                Err(e) => old(self)@.enter(old(self).prog(), l_sName@, l_bIsMain) == Err::<
                    MachineView,
                    EInterpError,
                >(e) && final(self)@ == old(self)@,
            },
    {
        let l_lIr = self.l_lIr;
        let ghost prog = self.prog();
        match find_decl(l_lIr, l_sName) {
            None => Err(EInterpError::UnknownProc),
            Some(l_iDecl) => {
                proof {
                    lemma_lookup(prog, l_sName@, l_iDecl as int);
                }
                let (l_iDeclared, l_bDeclReturns) = match &l_lIr[l_iDecl] {
                    EIrInstr::Proc(_, _, l_lParams, l_eRet) => (
                        l_lParams.len(),
                        *l_eRet != EType::Void,
                    ),
                    EIrInstr::Const(_, _) => (0, true),
                    _ => (0, false),
                };
                let l_iParams = if l_bIsMain {
                    0
                } else {
                    l_iDeclared
                };
                let l_iDepth = self.l_lDataStack.len();
                if l_iDepth < l_iParams {
                    return Err(EInterpError::StackUnderflow);
                }
                self.l_lFrames.push(
                    CFrame {
                        l_iDecl,
                        l_iPc: 0,
                        l_iStackBase: l_iDepth,
                        l_iParams,
                        l_bReturns: !l_bIsMain && l_bDeclReturns,
                        l_bIsMain,
                    },
                );
                Ok(())
            },
        }
    }

    /// Takes in the host's answer to the last event.
    pub fn F_vResume(&mut self, l_iValue: i64)
        ensures
            final(self)@ == old(self)@.resume(l_iValue),
            final(self).l_lIr@ == old(self).l_lIr@,
            old(self).wf() ==> final(self).wf(),
    {
        match self.l_eState {
            EState::AwaitLiteral(l_iLen) => {
                self.l_lDataStack.push(l_iValue);
                self.l_lDataStack.push(l_iLen);
                self.l_eState = EState::Running;
            },
            EState::AwaitLoad(l_iBits) => {
                self.l_lDataStack.push(zero_extend_exec(l_iValue, l_iBits));
                self.l_eState = EState::Running;
            },
            EState::AwaitSyscall => {
                self.l_lDataStack.push(l_iValue);
                self.l_eState = EState::Running;
            },
            _ => {},
        }
    }

    /// Moves the innermost activation on by one instruction.
    fn F_vAdvance(&mut self)
        requires
            old(self).wf(),
            old(self)@.at_instr(old(self).prog()),
            old(self)@.frames.last().l_iPc < usize::MAX,
        ensures
            final(self)@ == old(self)@.advance(),
            final(self).l_lIr@ == old(self).l_lIr@,
            final(self).wf(),
    {
        let l_iTop = self.l_lFrames.len() - 1;
        let l_cFrame = self.l_lFrames[l_iTop];
        self.l_lFrames.set(l_iTop, CFrame { l_iPc: l_cFrame.l_iPc + 1, ..l_cFrame });
    }

    /// Marks the machine as given up.
    fn F_eFail(&mut self, l_eError: EInterpError) -> (r: EEvent)
        ensures
            (final(self)@, r) == old(self)@.fail(l_eError),
            final(self).l_lIr@ == old(self).l_lIr@,
            old(self).wf() ==> final(self).wf(),
    {
        self.l_eState = EState::Failed(l_eError);
        assert(self@.frames == old(self)@.frames);
        EEvent::Failed(l_eError)
    }

    /// Returns from the innermost activation.
    fn F_eReturn(&mut self) -> (r: EEvent)
        requires
            old(self).wf(),
            old(self)@.frames.len() > 0,
        ensures
            (final(self)@, r) == old(self)@.ret(),
            final(self).l_lIr@ == old(self).l_lIr@,
            final(self).wf(),
    {
        let l_cFrame = self.l_lFrames[self.l_lFrames.len() - 1];
        let l_iDepth = self.l_lDataStack.len();
        let l_iFloor = l_cFrame.l_iStackBase - l_cFrame.l_iParams;
        if l_cFrame.l_bIsMain {
            self.l_eState = EState::Finished;
            return EEvent::Finished;
        }
        if l_cFrame.l_bReturns {
            if l_iDepth <= l_iFloor {
                return self.F_eFail(EInterpError::StackUnderflow);
            }
            let l_iResult = self.l_lDataStack[l_iDepth - 1];
            self.l_lDataStack.truncate(l_iFloor);
            self.l_lDataStack.push(l_iResult);
        } else {
            if l_iDepth < l_iFloor {
                return self.F_eFail(EInterpError::StackUnderflow);
            }
            self.l_lDataStack.truncate(l_iFloor);
        }
        self.l_lFrames.pop();
        EEvent::Continue
    }

    /// Carries out one instruction of the innermost activation.
    fn F_eExecute(&mut self, l_cInstr: &EIrInstr) -> (r: EEvent)
        requires
            old(self).wf(),
            old(self)@.at_instr(old(self).prog()),
            old(self)@.frames.last().l_iPc < usize::MAX,
        ensures
            (final(self)@, r) == old(self)@.execute(old(self).prog(), l_cInstr@),
            final(self).l_lIr@ == old(self).l_lIr@,
            final(self).wf(),
    {
        let l_iDepth = self.l_lDataStack.len();
        let l_cFrame = self.l_lFrames[self.l_lFrames.len() - 1];
        let ghost s = self.l_lDataStack@;
        let ghost before = self@;
        match l_cInstr {
            EIrInstr::PushStr(l_sStr) => {
                let l_iLen = l_sStr.as_str().as_bytes().len();
                self.F_vAdvance();
                self.l_eState = EState::AwaitLiteral(#[verifier::truncate] (l_iLen as i64));
                EEvent::Literal { l_iDecl: l_cFrame.l_iDecl, l_iPc: l_cFrame.l_iPc }
            },
            EIrInstr::Puts => {
                if l_iDepth < 2 {
                    return self.F_eFail(EInterpError::StackUnderflow);
                }
                let l_iLen = self.l_lDataStack[l_iDepth - 1];
                let l_iPtr = self.l_lDataStack[l_iDepth - 2];
                self.F_vAdvance();
                self.l_lDataStack.truncate(l_iDepth - 2);
                EEvent::Puts { l_iPtr, l_iLen }
            },
            EIrInstr::Dump => {
                if l_iDepth < 1 {
                    return self.F_eFail(EInterpError::StackUnderflow);
                }
                let l_iVal = self.l_lDataStack[l_iDepth - 1];
                self.F_vAdvance();
                self.l_lDataStack.truncate(l_iDepth - 1);
                self.l_sOutput = i64_to_decimal(l_iVal);
                assert(self@ =~= (MachineView {
                    stack: s.take(l_iDepth - 1),
                    output: decimal_int(l_iVal as int),
                    ..before.advance()
                }));
                EEvent::Dump(l_iVal)
            },
            EIrInstr::Load8 | EIrInstr::Load16 | EIrInstr::Load32 | EIrInstr::Load64 => {
                if l_iDepth < 1 {
                    return self.F_eFail(EInterpError::StackUnderflow);
                }
                let l_iBits = access_bits_exec(l_cInstr);
                let l_iAddr = self.l_lDataStack[l_iDepth - 1];
                self.F_vAdvance();
                self.l_lDataStack.truncate(l_iDepth - 1);
                self.l_eState = EState::AwaitLoad(l_iBits);
                assert(self@ =~= before.advance().with_stack(s.take(l_iDepth - 1)).with_state(
                    EState::AwaitLoad(l_iBits),
                ));
                EEvent::Load { l_iAddr, l_iBits }
            },
            EIrInstr::Store8 | EIrInstr::Store16 | EIrInstr::Store32 | EIrInstr::Store64 => {
                if l_iDepth < 2 {
                    return self.F_eFail(EInterpError::StackUnderflow);
                }
                let l_iBits = access_bits_exec(l_cInstr);
                let l_iValue = zero_extend_exec(self.l_lDataStack[l_iDepth - 1], l_iBits);
                let l_iAddr = self.l_lDataStack[l_iDepth - 2];
                self.F_vAdvance();
                self.l_lDataStack.truncate(l_iDepth - 2);
                EEvent::Store { l_iAddr, l_iValue, l_iBits }
            },
            EIrInstr::Syscall0
            | EIrInstr::Syscall1
            | EIrInstr::Syscall2
            | EIrInstr::Syscall3
            | EIrInstr::Syscall4
            | EIrInstr::Syscall5
            | EIrInstr::Syscall6 => {
                let l_iCount = syscall_args_exec(l_cInstr);
                if l_iDepth < l_iCount + 1 {
                    return self.F_eFail(EInterpError::StackUnderflow);
                }
                self.F_vAdvance();
                self.l_lArgs = self.l_lDataStack.split_off(l_iDepth - l_iCount - 1);
                self.l_eState = EState::AwaitSyscall;
                assert(self@ =~= (MachineView {
                    stack: s.take(l_iDepth - l_iCount - 1),
                    args: s.subrange(l_iDepth - l_iCount - 1, l_iDepth as int),
                    state: EState::AwaitSyscall,
                    ..before.advance()
                }));
                EEvent::Syscall { l_iCount }
            },
            EIrInstr::Call(l_sName) => {
                self.F_vAdvance();
                match self.F_vExecuteProc(l_sName, false) {
                    Ok(_) => EEvent::Continue,
                    Err(l_eError) => {
                        let l_iTop = self.l_lFrames.len() - 1;
                        self.l_lFrames.set(l_iTop, l_cFrame);
                        self.F_eFail(l_eError)
                    },
                }
            },
            EIrInstr::Ret => self.F_eReturn(),
            _ => {
                match F_eApply(l_cInstr, &mut self.l_lDataStack) {
                    Err(l_eError) => self.F_eFail(l_eError),
                    Ok(_) => {
                        self.F_vAdvance();
                        EEvent::Continue
                    },
                }
            },
        }
    }

    /// Takes one step.
    pub fn F_eStep(&mut self) -> (r: EEvent)
        requires
            old(self).wf(),
        ensures
            (final(self)@, r) == old(self)@.step(old(self).prog()),
            final(self).l_lIr@ == old(self).l_lIr@,
            final(self).wf(),
    {
        match self.l_eState {
            EState::Running => {},
            EState::Finished => {
                return EEvent::Finished;
            },
            EState::Failed(l_eError) => {
                return EEvent::Failed(l_eError);
            },
            _ => {
                return EEvent::Waiting;
            },
        }
        let l_iFrames = self.l_lFrames.len();
        if l_iFrames == 0 {
            self.l_eState = EState::Finished;
            return EEvent::Finished;
        }
        let l_cFrame = self.l_lFrames[l_iFrames - 1];
        let l_lIr = self.l_lIr;
        proof {
            assert(frame_wf(self.prog(), self@.frames[l_iFrames - 1]));
            lemma_body_view(l_lIr@[l_cFrame.l_iDecl as int]);
        }
        match &l_lIr[l_cFrame.l_iDecl] {
            EIrInstr::Proc(_, l_lBody, _, _) => self.F_eStepIn(l_lBody, l_cFrame.l_iPc),
            EIrInstr::Const(_, l_lBody) => self.F_eStepIn(l_lBody, l_cFrame.l_iPc),
            _ => {
                // Every activation names a declaration.
                proof {
                    assert(false);
                }
                EEvent::Finished
            },
        }
    }

    /// Takes one step in the body of the innermost activation.
    fn F_eStepIn(&mut self, l_lBody: &Vec<EIrInstr>, l_iPc: usize) -> (r: EEvent)
        requires
            old(self).wf(),
            old(self)@.state == EState::Running,
            old(self)@.frames.len() > 0,
            old(self)@.frames.last().l_iPc == l_iPc,
            instrs_view(l_lBody@) == old(self)@.body(old(self).prog()),
        ensures
            (final(self)@, r) == old(self)@.step(old(self).prog()),
            final(self).l_lIr@ == old(self).l_lIr@,
            final(self).wf(),
    {
        if l_iPc >= l_lBody.len() {
            let l_cFrame = self.l_lFrames[self.l_lFrames.len() - 1];
            if l_cFrame.l_bIsMain {
                self.l_eState = EState::Finished;
                return EEvent::Finished;
            }
            self.l_lFrames.pop();
            return EEvent::Continue;
        }
        self.F_eExecute(&l_lBody[l_iPc])
    }

    /// Runs until the host is needed, the machine stops, or the fuel is
    /// used up; in the last case the event is `Continue`.
    pub fn F_vInterpret(&mut self, l_iFuel: u64) -> (r: EEvent)
        requires
            old(self).wf(),
        ensures
            (final(self)@, r) == old(self)@.run(old(self).prog(), l_iFuel as nat),
            final(self).l_lIr@ == old(self).l_lIr@,
            final(self).wf(),
    {
        let ghost prog = self.prog();
        let mut l_iLeft = l_iFuel;
        while l_iLeft > 0
            invariant
                self.wf(),
                self.prog() == prog,
                self.l_lIr@ == old(self).l_lIr@,
                old(self)@.run(prog, l_iFuel as nat) == self@.run(prog, l_iLeft as nat),
            decreases l_iLeft,
        {
            let l_eEvent = self.F_eStep();
            if l_eEvent != EEvent::Continue {
                return l_eEvent;
            }
            l_iLeft -= 1;
        }
        EEvent::Continue
    }
}

} // verus!
