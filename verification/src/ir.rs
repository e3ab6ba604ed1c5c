//! The intermediate representation: value types, instructions, and the
//! declarations that make up a program.

use vstd::prelude::*;
use vstd::string::*;

verus! {

/// The value types that declarations may name.
#[derive(Clone, Copy, Debug, PartialEq, Eq, Structural)]
pub enum EType {
    I8,
    U8,
    I16,
    U16,
    I32,
    U32,
    I64,
    U64,
    F32,
    F64,
    Ptr,
    Str,
    Bool,
    Void,
}

/// One instruction of the stack language, or a top-level declaration with
/// its body.
#[derive(Debug)]
pub enum EIrInstr {
    PushI64(i64),
    PushStr(String),
    AddI64,
    SubI64,
    MulI64,
    DivI64,
    ModI64,
    Dup,
    Swap,
    Drop,
    Over,
    Rot,
    Eq,
    Neq,
    Lt,
    Gt,
    Le,
    Ge,
    And,
    Or,
    Xor,
    Not,
    Shl,
    Shr,
    Load8,
    Load16,
    Load32,
    Load64,
    Store8,
    Store16,
    Store32,
    Store64,
    Puts,
    Dump,
    Syscall0,
    Syscall1,
    Syscall2,
    Syscall3,
    Syscall4,
    Syscall5,
    Syscall6,
    Call(String),
    Ret,
    Proc(String, Vec<EIrInstr>, Vec<EType>, EType),
    Const(String, Vec<EIrInstr>),
}

/// The mathematical model of an instruction: names and literals as
/// character sequences, bodies as sequences of instructions.
pub enum Instr {
    PushI64(i64),
    PushStr(Seq<char>),
    AddI64,
    SubI64,
    MulI64,
    DivI64,
    ModI64,
    Dup,
    Swap,
    Drop,
    Over,
    Rot,
    Eq,
    Neq,
    Lt,
    Gt,
    Le,
    Ge,
    And,
    Or,
    Xor,
    Not,
    Shl,
    Shr,
    Load8,
    Load16,
    Load32,
    Load64,
    Store8,
    Store16,
    Store32,
    Store64,
    Puts,
    Dump,
    Syscall0,
    Syscall1,
    Syscall2,
    Syscall3,
    Syscall4,
    Syscall5,
    Syscall6,
    Call(Seq<char>),
    Ret,
    Proc(Seq<char>, Seq<Instr>, Seq<EType>, EType),
    Const(Seq<char>, Seq<Instr>),
}

/// The model of one instruction.
pub open spec fn instr_view(instr: EIrInstr) -> Instr
    decreases instr,
{
    match instr {
        EIrInstr::PushI64(v) => Instr::PushI64(v),
        EIrInstr::PushStr(s) => Instr::PushStr(s@),
        EIrInstr::AddI64 => Instr::AddI64,
        EIrInstr::SubI64 => Instr::SubI64,
        EIrInstr::MulI64 => Instr::MulI64,
        EIrInstr::DivI64 => Instr::DivI64,
        EIrInstr::ModI64 => Instr::ModI64,
        EIrInstr::Dup => Instr::Dup,
        EIrInstr::Swap => Instr::Swap,
        EIrInstr::Drop => Instr::Drop,
        EIrInstr::Over => Instr::Over,
        EIrInstr::Rot => Instr::Rot,
        EIrInstr::Eq => Instr::Eq,
        EIrInstr::Neq => Instr::Neq,
        EIrInstr::Lt => Instr::Lt,
        EIrInstr::Gt => Instr::Gt,
        EIrInstr::Le => Instr::Le,
        EIrInstr::Ge => Instr::Ge,
        EIrInstr::And => Instr::And,
        EIrInstr::Or => Instr::Or,
        EIrInstr::Xor => Instr::Xor,
        EIrInstr::Not => Instr::Not,
        EIrInstr::Shl => Instr::Shl,
        EIrInstr::Shr => Instr::Shr,
        EIrInstr::Load8 => Instr::Load8,
        EIrInstr::Load16 => Instr::Load16,
        EIrInstr::Load32 => Instr::Load32,
        EIrInstr::Load64 => Instr::Load64,
        EIrInstr::Store8 => Instr::Store8,
        EIrInstr::Store16 => Instr::Store16,
        EIrInstr::Store32 => Instr::Store32,
        EIrInstr::Store64 => Instr::Store64,
        EIrInstr::Puts => Instr::Puts,
        EIrInstr::Dump => Instr::Dump,
        EIrInstr::Syscall0 => Instr::Syscall0,
        EIrInstr::Syscall1 => Instr::Syscall1,
        EIrInstr::Syscall2 => Instr::Syscall2,
        EIrInstr::Syscall3 => Instr::Syscall3,
        EIrInstr::Syscall4 => Instr::Syscall4,
        EIrInstr::Syscall5 => Instr::Syscall5,
        EIrInstr::Syscall6 => Instr::Syscall6,
        EIrInstr::Call(name) => Instr::Call(name@),
        EIrInstr::Ret => Instr::Ret,
        EIrInstr::Proc(name, body, params, ret) => Instr::Proc(
            name@,
            Seq::new(
                body@.len(),
                |i: int|
                    if 0 <= i < body@.len() {
                        instr_view(body@[i])
                    } else {
                        Instr::Ret
                    },
            ),
            params@,
            ret,
        ),
        EIrInstr::Const(name, body) => Instr::Const(
            name@,
            Seq::new(
                body@.len(),
                |i: int|
                    if 0 <= i < body@.len() {
                        instr_view(body@[i])
                    } else {
                        Instr::Ret
                    },
            ),
        ),
    }
}

impl View for EIrInstr {
    type V = Instr;

    open spec fn view(&self) -> Instr {
        instr_view(*self)
    }
}

/// The models of a sequence of instructions.
pub open spec fn instrs_view(v: Seq<EIrInstr>) -> Seq<Instr> {
    Seq::new(v.len(), |i: int| v[i]@)
}

/// The name under which procedure `main` is declared.
pub open spec fn main_name() -> Seq<char> {
    "main"@
}

impl Instr {
    /// Whether this is a top-level declaration.
    pub open spec fn is_decl(self) -> bool {
        self is Proc || self is Const
    }

    /// The declared name; empty for what is no declaration.
    pub open spec fn decl_name(self) -> Seq<char> {
        match self {
            Instr::Proc(name, _, _, _) => name,
            Instr::Const(name, _) => name,
            _ => Seq::empty(),
        }
    }

    /// The declaration's body; empty for what is no declaration.
    pub open spec fn decl_body(self) -> Seq<Instr> {
        match self {
            Instr::Proc(_, body, _, _) => body,
            Instr::Const(_, body) => body,
            _ => Seq::empty(),
        }
    }

    /// The number of stack slots that a call of the declaration consumes: a
    /// procedure's parameter count, none for a constant.
    pub open spec fn decl_params(self) -> nat {
        match self {
            Instr::Proc(_, _, params, _) => params.len(),
            _ => 0,
        }
    }

    /// Whether a call of the declaration leaves a result slot: a procedure
    /// whose return type is not `void`, or a constant, which leaves the value
    /// that its body computed.
    pub open spec fn decl_returns(self) -> bool {
        match self {
            Instr::Proc(_, _, _, ret) => ret != EType::Void,
            Instr::Const(_, _) => true,
            _ => false,
        }
    }
}

/// Whether the program declares a procedure named `main`.
pub open spec fn has_main(prog: Seq<Instr>) -> bool {
    exists|i: int|
        0 <= i < prog.len() && #[trigger] prog[i] is Proc && prog[i].decl_name() == main_name()
}

/// Whether `prog[i]` is the declaration that the name `name` stands for:
/// where a name is declared more than once, the last declaration wins.
pub open spec fn resolves_to(prog: Seq<Instr>, name: Seq<char>, i: int) -> bool {
    &&& 0 <= i < prog.len()
    &&& prog[i].is_decl()
    &&& prog[i].decl_name() == name
    &&& forall|j: int|
        i < j < prog.len() ==> !(#[trigger] prog[j].is_decl() && prog[j].decl_name() == name)
}

/// Whether any declaration carries the name.
pub open spec fn declared(prog: Seq<Instr>, name: Seq<char>) -> bool {
    exists|i: int|
        0 <= i < prog.len() && #[trigger] prog[i].is_decl() && prog[i].decl_name() == name
}

/// The models of a declaration's body are the models of its instructions.
pub proof fn lemma_body_view(instr: EIrInstr)
    ensures
        match instr {
            EIrInstr::Proc(_, body, _, _) => instr@.decl_body() == instrs_view(body@),
            EIrInstr::Const(_, body) => instr@.decl_body() == instrs_view(body@),
            _ => instr@.decl_body() == Seq::<Instr>::empty(),
        },
{
    reveal_with_fuel(instr_view, 2);
    match instr {
        EIrInstr::Proc(_, body, _, _) => {
        },
        EIrInstr::Const(_, body) => {
        },
        _ => {},
    }
}

/// Finds the declaration that a name stands for, the last one of that name.
pub fn find_decl(ir: &[EIrInstr], name: &String) -> (r: Option<usize>)
    ensures
        match r {
            Some(i) => resolves_to(instrs_view(ir@), name@, i as int),
            None => !declared(instrs_view(ir@), name@),
        },
{
    let mut i: usize = ir.len();
    while i > 0
        invariant
            i <= ir.len(),
            forall|j: int|
                i <= j < ir.len() ==> !(#[trigger] instrs_view(ir@)[j].is_decl() && instrs_view(
                    ir@,
                )[j].decl_name() == name@),
        decreases i,
    {
        i -= 1;
        let found = match &ir[i] {
            EIrInstr::Proc(n, _, _, _) => *n == *name,
            EIrInstr::Const(n, _) => *n == *name,
            _ => false,
        };
        if found {
            return Some(i);
        }
    }
    None
}

/// Whether the program declares a procedure named `main`.
pub fn program_has_main(ir: &[EIrInstr]) -> (r: bool)
    ensures
        r == has_main(instrs_view(ir@)),
{
    let ghost prog = instrs_view(ir@);
    let mut i: usize = 0;
    while i < ir.len()
        invariant
            i <= ir.len(),
            prog == instrs_view(ir@),
            forall|j: int|
                0 <= j < i ==> !(#[trigger] prog[j] is Proc && prog[j].decl_name() == main_name()),
        decreases ir.len() - i,
    {
        match &ir[i] {
            EIrInstr::Proc(name, _, _, _) => {
                if name.as_str().eq("main") {
                    assert(prog[i as int] is Proc && prog[i as int].decl_name() == main_name());
                    return true;
                }
            },
            _ => {},
        }
        i += 1;
    }
    false
}

} // verus!
