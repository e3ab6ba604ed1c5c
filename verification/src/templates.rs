//! The instruction templates of the code generator: for each operation of
//! the stack language, the assembly lines that carry it out on the operand
//! stack, whose top slot the stack register addresses. A function `code_x`
//! says what the lines are; the function `gen_x` builds them.

use crate::ir::{EIrInstr, Instr};
use crate::text::{
    decimal_int, decimal_nat, format_instr, i64_to_decimal, instr_line, push_decimal, views,
};
use vstd::prelude::*;
use vstd::string::*;

verus! {

/// The memory operand for the slot `k` places below the top of the stack.
pub open spec fn mem(pile: Seq<char>, k: nat) -> Seq<char> {
    if k == 0 {
        "["@ + pile + "]"@
    } else {
        "["@ + pile + " + "@ + decimal_nat(8 * k) + "]"@
    }
}

/// Two operands separated by a comma.
pub open spec fn pair(a: Seq<char>, b: Seq<char>) -> Seq<char> {
    a + ", "@ + b
}

/// Push of an immediate or a label.
pub open spec fn code_push(pile: Seq<char>, value: Seq<char>) -> Seq<Seq<char>> {
    seq![
        instr_line("sub"@, pair(pile, "8"@)),
        instr_line("mov"@, pair("qword "@ + mem(pile, 0), value)),
    ]
}

/// A binary operation whose operand order does not matter: the top is
/// loaded, combined with the slot below, and the result replaces both.
pub open spec fn code_commutative(pile: Seq<char>, op: Seq<char>) -> Seq<Seq<char>> {
    seq![
        instr_line("mov"@, pair("rax"@, mem(pile, 0))),
        instr_line(op, pair("rax"@, mem(pile, 1))),
        instr_line("add"@, pair(pile, "8"@)),
        instr_line("mov"@, pair(mem(pile, 0), "rax"@)),
    ]
}

/// A binary operation whose left operand is the slot below the top and
/// whose right operand is the top.
pub open spec fn code_ordered(pile: Seq<char>, op: Seq<char>) -> Seq<Seq<char>> {
    seq![
        instr_line("mov"@, pair("rax"@, mem(pile, 1))),
        instr_line(op, pair("rax"@, mem(pile, 0))),
        instr_line("add"@, pair(pile, "8"@)),
        instr_line("mov"@, pair(mem(pile, 0), "rax"@)),
    ]
}

/// Signed division of the slot below the top by the top; `result` names the
/// register that is kept: `rax` holds the quotient, `rdx` the remainder.
pub open spec fn code_division(pile: Seq<char>, result: Seq<char>) -> Seq<Seq<char>> {
    seq![
        instr_line("mov"@, pair("rax"@, mem(pile, 1))),
        instr_line("cqo"@, ""@),
        instr_line("idiv"@, "qword "@ + mem(pile, 0)),
        instr_line("add"@, pair(pile, "8"@)),
        instr_line("mov"@, pair(mem(pile, 0), result)),
    ]
}

/// Push of a copy of the slot `k` places below the top.
pub open spec fn code_copy(pile: Seq<char>, k: nat) -> Seq<Seq<char>> {
    seq![
        instr_line("mov"@, pair("rax"@, mem(pile, k))),
        instr_line("sub"@, pair(pile, "8"@)),
        instr_line("mov"@, pair(mem(pile, 0), "rax"@)),
    ]
}

/// Exchange of the two top slots.
pub open spec fn code_swap(pile: Seq<char>) -> Seq<Seq<char>> {
    seq![
        instr_line("mov"@, pair("rax"@, mem(pile, 0))),
        instr_line("mov"@, pair("rbx"@, mem(pile, 1))),
        instr_line("mov"@, pair(mem(pile, 0), "rbx"@)),
        instr_line("mov"@, pair(mem(pile, 1), "rax"@)),
    ]
}

/// Rotation of the three top slots: the third-deepest becomes the top and
/// the two others move one place down.
pub open spec fn code_rot(pile: Seq<char>) -> Seq<Seq<char>> {
    seq![
        instr_line("mov"@, pair("rax"@, mem(pile, 2))),
        instr_line("mov"@, pair("rbx"@, mem(pile, 1))),
        instr_line("mov"@, pair("rcx"@, mem(pile, 0))),
        instr_line("mov"@, pair(mem(pile, 2), "rbx"@)),
        instr_line("mov"@, pair(mem(pile, 1), "rcx"@)),
        instr_line("mov"@, pair(mem(pile, 0), "rax"@)),
    ]
}

/// Release of `slots` slots at the top.
pub open spec fn code_release(pile: Seq<char>, slots: nat) -> Seq<Seq<char>> {
    seq![instr_line("add"@, pair(pile, decimal_nat(8 * slots)))]
}

/// Pop of the top into the first argument register and call of a runtime
/// helper.
pub open spec fn code_print(pile: Seq<char>, helper: Seq<char>) -> Seq<Seq<char>> {
    seq![
        instr_line("mov"@, pair("rdi"@, mem(pile, 0))),
        instr_line("add"@, pair(pile, "8"@)),
        instr_line("call"@, helper),
    ]
}

/// The label under which a procedure is emitted.
pub open spec fn proc_label(name: Seq<char>) -> Seq<char> {
    "proc_"@ + name
}

/// Call of a procedure by its label.
pub open spec fn code_call(name: Seq<char>) -> Seq<Seq<char>> {
    seq![instr_line("call"@, proc_label(name))]
}

/// How a procedure hands control back.
#[derive(Clone, Copy, PartialEq, Eq, Structural)]
pub enum EReturn {
    /// Plain `ret`: what `main` does, and code outside any procedure.
    Bare,
    /// The top is copied into the slot that the stack register addressed at
    /// entry, and the register is set back to that slot.
    Splice,
    /// The stack register is set back to its value at entry, and nothing
    /// is written.
    Restore,
}

/// The return sequence of a procedure.
pub open spec fn code_ret(pile: Seq<char>, mode: EReturn) -> Seq<Seq<char>> {
    match mode {
        EReturn::Bare => seq![instr_line("ret"@, ""@)],
        EReturn::Splice => seq![
            instr_line("mov"@, pair("rax"@, mem(pile, 0))),
            instr_line("pop"@, pile),
            instr_line("mov"@, pair(mem(pile, 0), "rax"@)),
            instr_line("ret"@, ""@),
        ],
        EReturn::Restore => seq![instr_line("pop"@, pile), instr_line("ret"@, ""@)],
    }
}

/// The entry of a procedure: its label and, except for `main`, the save of
/// the stack register on the machine stack.
pub open spec fn code_proc_start(pile: Seq<char>, name: Seq<char>, is_main: bool) -> Seq<
    Seq<char>,
> {
    if is_main {
        seq![proc_label(name) + ":"@]
    } else {
        seq![proc_label(name) + ":"@, instr_line("push"@, pile)]
    }
}

/// The register that carries argument `i` of a system call.
pub open spec fn arg_reg(i: nat) -> Seq<char> {
    if i == 0 {
        "rdi"@
    } else if i == 1 {
        "rsi"@
    } else if i == 2 {
        "rdx"@
    } else if i == 3 {
        "r10"@
    } else if i == 4 {
        "r8"@
    } else {
        "r9"@
    }
}

/// The loads of a system call with `n` arguments: the call number lies
/// deepest, the last argument on top.
pub open spec fn code_syscall_loads(pile: Seq<char>, n: nat) -> Seq<Seq<char>> {
    seq![instr_line("mov"@, pair("rax"@, mem(pile, n)))] + Seq::new(
        n,
        |i: int| instr_line("mov"@, pair(arg_reg(i as nat), mem(pile, (n - 1 - i) as nat))),
    )
}

/// A system call with `n` arguments, none above six: the loads, the release
/// of the consumed slots, the call, and the push of what the kernel returned.
pub open spec fn code_syscall(pile: Seq<char>, n: nat) -> Seq<Seq<char>> {
    if n > 6 {
        Seq::empty()
    } else {
        code_syscall_loads(pile, n) + seq![
            instr_line("add"@, pair(pile, decimal_nat(8 * (n + 1)))),
            instr_line("syscall"@, ""@),
            instr_line("sub"@, pair(pile, "8"@)),
            instr_line("mov"@, pair(mem(pile, 0), "rax"@)),
        ]
    }
}

/// A comparison of the slot below the top with the top; `set` is the
/// instruction that turns the flags into 0 or 1.
pub open spec fn code_compare(pile: Seq<char>, set: Seq<char>) -> Seq<Seq<char>> {
    seq![
        instr_line("mov"@, pair("rax"@, mem(pile, 1))),
        instr_line("cmp"@, pair("rax"@, mem(pile, 0))),
        instr_line(set, "al"@),
        instr_line("movzx"@, "rax, al"@),
        instr_line("add"@, pair(pile, "8"@)),
        instr_line("mov"@, pair(mem(pile, 0), "rax"@)),
    ]
}

/// Bitwise complement of the top, in place.
pub open spec fn code_not(pile: Seq<char>) -> Seq<Seq<char>> {
    seq![instr_line("not"@, "qword "@ + mem(pile, 0))]
}

/// A shift of the slot below the top by the amount on top.
pub open spec fn code_shift(pile: Seq<char>, op: Seq<char>) -> Seq<Seq<char>> {
    seq![
        instr_line("mov"@, pair("rcx"@, mem(pile, 0))),
        instr_line("mov"@, pair("rax"@, mem(pile, 1))),
        instr_line(op, "rax, cl"@),
        instr_line("add"@, pair(pile, "8"@)),
        instr_line("mov"@, pair(mem(pile, 0), "rax"@)),
    ]
}

/// A load: the address on top is replaced by what `instr args` reads there.
pub open spec fn code_load(pile: Seq<char>, instr: Seq<char>, args: Seq<char>) -> Seq<Seq<char>> {
    seq![
        instr_line("mov"@, pair("rax"@, mem(pile, 0))),
        instr_line(instr, args),
        instr_line("mov"@, pair(mem(pile, 0), "rax"@)),
    ]
}

/// A store: the value on top is written, by `mov args`, at the address
/// below it, and both slots are released.
pub open spec fn code_store(pile: Seq<char>, args: Seq<char>) -> Seq<Seq<char>> {
    seq![
        instr_line("mov"@, pair("rax"@, mem(pile, 0))),
        instr_line("mov"@, pair("rbx"@, mem(pile, 1))),
        instr_line("mov"@, args),
        instr_line("add"@, pair(pile, "16"@)),
    ]
}

/// The exit sequence: system call 60 with status 0.
pub open spec fn code_exit() -> Seq<Seq<char>> {
    seq![
        instr_line("mov"@, "rax, 60"@),
        instr_line("xor"@, "rdi, rdi"@),
        instr_line("syscall"@, ""@),
    ]
}

/// The memory operand for the slot `k` places below the top of the stack.
pub fn mem_str(pile: &str, k: u8) -> (r: String)
    ensures
        r@ == mem(pile@, k as nat),
{
    let mut r = String::from_str("[");
    r.append(pile);
    if k > 0 {
        r.append(" + ");
        let offset: u64 = 8 * (k as u64);
        push_decimal(&mut r, offset);
    }
    r.append("]");
    r
}

/// Two operands separated by a comma.
pub fn pair_str(a: &str, b: &str) -> (r: String)
    ensures
        r@ == pair(a@, b@),
{
    let mut r = String::from_str(a);
    r.append(", ");
    r.append(b);
    r
}

/// The operand with the size keyword `qword` before it.
pub fn qword_str(operand: &str) -> (r: String)
    ensures
        r@ == "qword "@ + operand@,
{
    let mut r = String::from_str("qword ");
    r.append(operand);
    r
}

/// Appends one formatted line.
pub fn put(v: &mut Vec<String>, instr: &str, args: &str)
    ensures
        views(final(v)@) == views(old(v)@).push(instr_line(instr@, args@)),
{
    let line = format_instr(instr, args);
    v.push(line);
}

/// Appends `mov dst, src`.
pub fn put_mov(v: &mut Vec<String>, dst: &str, src: &str)
    ensures
        views(final(v)@) == views(old(v)@).push(instr_line("mov"@, pair(dst@, src@))),
{
    let args = pair_str(dst, src);
    put(v, "mov", args.as_str());
}

/// Appends `instr pile, amount`, the adjustment of the stack register.
pub fn put_adjust(v: &mut Vec<String>, instr: &str, pile: &str, amount: &str)
    ensures
        views(final(v)@) == views(old(v)@).push(instr_line(instr@, pair(pile@, amount@))),
{
    let args = pair_str(pile, amount);
    put(v, instr, args.as_str());
}

/// Builds the lines of `code_push`.
pub fn gen_push(pile: &str, value: &str) -> (v: Vec<String>)
    ensures
        views(v@) == code_push(pile@, value@),
{
    let mut v: Vec<String> = Vec::new();
    put_adjust(&mut v, "sub", pile, "8");
    let top = mem_str(pile, 0);
    let dst = qword_str(top.as_str());
    put_mov(&mut v, dst.as_str(), value);
    v
}

/// Builds the lines of `code_commutative`.
pub fn gen_commutative(pile: &str, op: &str) -> (v: Vec<String>)
    ensures
        views(v@) == code_commutative(pile@, op@),
{
    let mut v: Vec<String> = Vec::new();
    let top = mem_str(pile, 0);
    let below = mem_str(pile, 1);
    put_mov(&mut v, "rax", top.as_str());
    let args = pair_str("rax", below.as_str());
    put(&mut v, op, args.as_str());
    put_adjust(&mut v, "add", pile, "8");
    put_mov(&mut v, top.as_str(), "rax");
    v
}

/// Builds the lines of `code_ordered`.
pub fn gen_ordered(pile: &str, op: &str) -> (v: Vec<String>)
    ensures
        views(v@) == code_ordered(pile@, op@),
{
    let mut v: Vec<String> = Vec::new();
    let top = mem_str(pile, 0);
    let below = mem_str(pile, 1);
    put_mov(&mut v, "rax", below.as_str());
    let args = pair_str("rax", top.as_str());
    put(&mut v, op, args.as_str());
    put_adjust(&mut v, "add", pile, "8");
    put_mov(&mut v, top.as_str(), "rax");
    v
}

/// Builds the lines of `code_division`.
pub fn gen_division(pile: &str, result: &str) -> (v: Vec<String>)
    ensures
        views(v@) == code_division(pile@, result@),
{
    let mut v: Vec<String> = Vec::new();
    let top = mem_str(pile, 0);
    let below = mem_str(pile, 1);
    put_mov(&mut v, "rax", below.as_str());
    put(&mut v, "cqo", "");
    let divisor = qword_str(top.as_str());
    put(&mut v, "idiv", divisor.as_str());
    put_adjust(&mut v, "add", pile, "8");
    put_mov(&mut v, top.as_str(), result);
    v
}

/// Builds the lines of `code_copy`.
pub fn gen_copy(pile: &str, k: u8) -> (v: Vec<String>)
    ensures
        views(v@) == code_copy(pile@, k as nat),
{
    let mut v: Vec<String> = Vec::new();
    let top = mem_str(pile, 0);
    let source = mem_str(pile, k);
    put_mov(&mut v, "rax", source.as_str());
    put_adjust(&mut v, "sub", pile, "8");
    put_mov(&mut v, top.as_str(), "rax");
    v
}

/// Builds the lines of `code_swap`.
pub fn gen_swap(pile: &str) -> (v: Vec<String>)
    ensures
        views(v@) == code_swap(pile@),
{
    let mut v: Vec<String> = Vec::new();
    let top = mem_str(pile, 0);
    let below = mem_str(pile, 1);
    put_mov(&mut v, "rax", top.as_str());
    put_mov(&mut v, "rbx", below.as_str());
    put_mov(&mut v, top.as_str(), "rbx");
    put_mov(&mut v, below.as_str(), "rax");
    v
}

/// Builds the lines of `code_rot`.
pub fn gen_rot(pile: &str) -> (v: Vec<String>)
    ensures
        views(v@) == code_rot(pile@),
{
    let mut v: Vec<String> = Vec::new();
    let top = mem_str(pile, 0);
    let below = mem_str(pile, 1);
    let third = mem_str(pile, 2);
    put_mov(&mut v, "rax", third.as_str());
    put_mov(&mut v, "rbx", below.as_str());
    put_mov(&mut v, "rcx", top.as_str());
    put_mov(&mut v, third.as_str(), "rbx");
    put_mov(&mut v, below.as_str(), "rcx");
    put_mov(&mut v, top.as_str(), "rax");
    v
}

/// Builds the lines of `code_release`.
pub fn gen_release(pile: &str, slots: u8) -> (v: Vec<String>)
    ensures
        views(v@) == code_release(pile@, slots as nat),
{
    let mut v: Vec<String> = Vec::new();
    let mut amount = String::new();
    let bytes: u64 = 8 * (slots as u64);
    push_decimal(&mut amount, bytes);
    put_adjust(&mut v, "add", pile, amount.as_str());
    v
}

/// Builds the lines of `code_print`.
pub fn gen_print(pile: &str, helper: &str) -> (v: Vec<String>)
    ensures
        views(v@) == code_print(pile@, helper@),
{
    let mut v: Vec<String> = Vec::new();
    let top = mem_str(pile, 0);
    put_mov(&mut v, "rdi", top.as_str());
    put_adjust(&mut v, "add", pile, "8");
    put(&mut v, "call", helper);
    v
}

/// The label under which a procedure is emitted.
pub fn proc_label_str(name: &str) -> (r: String)
    ensures
        r@ == proc_label(name@),
{
    let mut r = String::from_str("proc_");
    r.append(name);
    r
}

/// Builds the lines of `code_call`.
pub fn gen_call(name: &str) -> (v: Vec<String>)
    ensures
        views(v@) == code_call(name@),
{
    let mut v: Vec<String> = Vec::new();
    let label = proc_label_str(name);
    put(&mut v, "call", label.as_str());
    v
}

/// Builds the lines of `code_ret`.
pub fn gen_ret(pile: &str, mode: EReturn) -> (v: Vec<String>)
    ensures
        views(v@) == code_ret(pile@, mode),
{
    let mut v: Vec<String> = Vec::new();
    match mode {
        EReturn::Bare => {},
        EReturn::Splice => {
            let top = mem_str(pile, 0);
            put_mov(&mut v, "rax", top.as_str());
            put(&mut v, "pop", pile);
            put_mov(&mut v, top.as_str(), "rax");
        },
        EReturn::Restore => {
            put(&mut v, "pop", pile);
        },
    }
    put(&mut v, "ret", "");
    v
}

/// Builds the lines of `code_proc_start`.
pub fn gen_proc_start(pile: &str, name: &str, is_main: bool) -> (v: Vec<String>)
    ensures
        views(v@) == code_proc_start(pile@, name@, is_main),
{
    let mut v: Vec<String> = Vec::new();
    let mut label = proc_label_str(name);
    label.append(":");
    v.push(label);
    if !is_main {
        put(&mut v, "push", pile);
    }
    v
}

/// The register that carries argument `i` of a system call.
pub fn arg_reg_str(i: u8) -> (r: &'static str)
    ensures
        r@ == arg_reg(i as nat),
{
    if i == 0 {
        "rdi"
    } else if i == 1 {
        "rsi"
    } else if i == 2 {
        "rdx"
    } else if i == 3 {
        "r10"
    } else if i == 4 {
        "r8"
    } else {
        "r9"
    }
}

/// Builds the lines of `code_syscall`.
pub fn gen_syscall(pile: &str, n: usize) -> (v: Vec<String>)
    ensures
        views(v@) == code_syscall(pile@, n as nat),
{
    let mut v: Vec<String> = Vec::new();
    if n > 6 {
        return v;
    }
    let count: u8 = n as u8;
    let number = mem_str(pile, count);
    put_mov(&mut v, "rax", number.as_str());
    let mut i: u8 = 0;
    while i < count
        invariant
            i <= count,
            count == n,
            n <= 6,
            views(v@) == code_syscall_loads(pile@, n as nat).take(i + 1),
        decreases count - i,
    {
        let slot = mem_str(pile, count - 1 - i);
        put_mov(&mut v, arg_reg_str(i), slot.as_str());
        i += 1;
    }
    let mut amount = String::new();
    let bytes: u64 = 8 * (count as u64 + 1);
    push_decimal(&mut amount, bytes);
    put_adjust(&mut v, "add", pile, amount.as_str());
    put(&mut v, "syscall", "");
    put_adjust(&mut v, "sub", pile, "8");
    let top = mem_str(pile, 0);
    put_mov(&mut v, top.as_str(), "rax");
    v
}

/// Builds the lines of `code_compare`.
pub fn gen_compare(pile: &str, set: &str) -> (v: Vec<String>)
    ensures
        views(v@) == code_compare(pile@, set@),
{
    let mut v: Vec<String> = Vec::new();
    let top = mem_str(pile, 0);
    let below = mem_str(pile, 1);
    put_mov(&mut v, "rax", below.as_str());
    let args = pair_str("rax", top.as_str());
    put(&mut v, "cmp", args.as_str());
    put(&mut v, set, "al");
    put(&mut v, "movzx", "rax, al");
    put_adjust(&mut v, "add", pile, "8");
    put_mov(&mut v, top.as_str(), "rax");
    v
}

/// Builds the lines of `code_not`.
pub fn gen_not(pile: &str) -> (v: Vec<String>)
    ensures
        views(v@) == code_not(pile@),
{
    let mut v: Vec<String> = Vec::new();
    let top = mem_str(pile, 0);
    let operand = qword_str(top.as_str());
    put(&mut v, "not", operand.as_str());
    v
}

/// Builds the lines of `code_shift`.
pub fn gen_shift(pile: &str, op: &str) -> (v: Vec<String>)
    ensures
        views(v@) == code_shift(pile@, op@),
{
    let mut v: Vec<String> = Vec::new();
    let top = mem_str(pile, 0);
    let below = mem_str(pile, 1);
    put_mov(&mut v, "rcx", top.as_str());
    put_mov(&mut v, "rax", below.as_str());
    put(&mut v, op, "rax, cl");
    put_adjust(&mut v, "add", pile, "8");
    put_mov(&mut v, top.as_str(), "rax");
    v
}

/// Builds the lines of `code_load`.
pub fn gen_load(pile: &str, instr: &str, args: &str) -> (v: Vec<String>)
    ensures
        views(v@) == code_load(pile@, instr@, args@),
{
    let mut v: Vec<String> = Vec::new();
    let top = mem_str(pile, 0);
    put_mov(&mut v, "rax", top.as_str());
    put(&mut v, instr, args);
    put_mov(&mut v, top.as_str(), "rax");
    v
}

/// Builds the lines of `code_store`.
pub fn gen_store(pile: &str, args: &str) -> (v: Vec<String>)
    ensures
        views(v@) == code_store(pile@, args@),
{
    let mut v: Vec<String> = Vec::new();
    let top = mem_str(pile, 0);
    let below = mem_str(pile, 1);
    put_mov(&mut v, "rax", top.as_str());
    put_mov(&mut v, "rbx", below.as_str());
    put(&mut v, "mov", args);
    put_adjust(&mut v, "add", pile, "16");
    v
}

/// Builds the lines of `code_exit`.
pub fn gen_exit() -> (v: Vec<String>)
    ensures
        views(v@) == code_exit(),
{
    let mut v: Vec<String> = Vec::new();
    put(&mut v, "mov", "rax, 60");
    put(&mut v, "xor", "rdi, rdi");
    put(&mut v, "syscall", "");
    v
}

/// The lines of an instruction whose code depends on nothing but
/// the stack register. None for the others: the push of a string, which
/// adds to the data section; the return, which depends on the procedure;
/// and declarations.
pub open spec fn code_plain(instr: Instr, pile: Seq<char>) -> Option<Seq<Seq<char>>> {
    match instr {
        Instr::PushI64(v) => Some(code_push(pile, decimal_int(v as int))),
        Instr::AddI64 => Some(code_commutative(pile, "add"@)),
        Instr::SubI64 => Some(code_ordered(pile, "sub"@)),
        Instr::MulI64 => Some(code_ordered(pile, "imul"@)),
        Instr::DivI64 => Some(code_division(pile, "rax"@)),
        Instr::ModI64 => Some(code_division(pile, "rdx"@)),
        Instr::Dup => Some(code_copy(pile, 0)),
        Instr::Swap => Some(code_swap(pile)),
        Instr::Drop => Some(code_release(pile, 1)),
        Instr::Over => Some(code_copy(pile, 1)),
        Instr::Rot => Some(code_rot(pile)),
        Instr::Eq => Some(code_compare(pile, "sete"@)),
        Instr::Neq => Some(code_compare(pile, "setne"@)),
        Instr::Lt => Some(code_compare(pile, "setl"@)),
        Instr::Gt => Some(code_compare(pile, "setg"@)),
        Instr::Le => Some(code_compare(pile, "setle"@)),
        Instr::Ge => Some(code_compare(pile, "setge"@)),
        Instr::And => Some(code_commutative(pile, "and"@)),
        Instr::Or => Some(code_commutative(pile, "or"@)),
        Instr::Xor => Some(code_commutative(pile, "xor"@)),
        Instr::Not => Some(code_not(pile)),
        Instr::Shl => Some(code_shift(pile, "shl"@)),
        Instr::Shr => Some(code_shift(pile, "shr"@)),
        Instr::Load8 => Some(code_load(pile, "movzx"@, "rax, byte [rax]"@)),
        Instr::Load16 => Some(code_load(pile, "movzx"@, "rax, word [rax]"@)),
        Instr::Load32 => Some(code_load(pile, "mov"@, "eax, dword [rax]"@)),
        Instr::Load64 => Some(code_load(pile, "mov"@, "rax, qword [rax]"@)),
        Instr::Store8 => Some(code_store(pile, "[rbx], al"@)),
        Instr::Store16 => Some(code_store(pile, "[rbx], ax"@)),
        Instr::Store32 => Some(code_store(pile, "dword [rbx], eax"@)),
        Instr::Store64 => Some(code_store(pile, "qword [rbx], rax"@)),
        Instr::Puts => Some(code_print(pile, "dump_str"@)),
        Instr::Dump => Some(code_print(pile, "dump_i"@)),
        Instr::Syscall0 => Some(code_syscall(pile, 0)),
        Instr::Syscall1 => Some(code_syscall(pile, 1)),
        Instr::Syscall2 => Some(code_syscall(pile, 2)),
        Instr::Syscall3 => Some(code_syscall(pile, 3)),
        Instr::Syscall4 => Some(code_syscall(pile, 4)),
        Instr::Syscall5 => Some(code_syscall(pile, 5)),
        Instr::Syscall6 => Some(code_syscall(pile, 6)),
        Instr::Call(name) => Some(code_call(name)),
        Instr::PushStr(_) => None,
        Instr::Ret => None,
        Instr::Proc(_, _, _, _) => None,
        Instr::Const(_, _) => None,
    }
}

/// The lines of an instruction whose code depends on nothing but
/// the stack register.
pub fn gen_plain(instr: &EIrInstr, pile: &str) -> (r: Option<Vec<String>>)
    ensures
        match r {
            Some(v) => code_plain(instr@, pile@) == Some(views(v@)),
            None => code_plain(instr@, pile@) is None,
        },
{
    match instr {
        EIrInstr::PushI64(value) => {
            let literal = i64_to_decimal(*value);
            Some(gen_push(pile, literal.as_str()))
        },
        EIrInstr::AddI64 => Some(gen_commutative(pile, "add")),
        EIrInstr::SubI64 => Some(gen_ordered(pile, "sub")),
        EIrInstr::MulI64 => Some(gen_ordered(pile, "imul")),
        EIrInstr::DivI64 => Some(gen_division(pile, "rax")),
        EIrInstr::ModI64 => Some(gen_division(pile, "rdx")),
        EIrInstr::Dup => Some(gen_copy(pile, 0)),
        EIrInstr::Swap => Some(gen_swap(pile)),
        EIrInstr::Drop => Some(gen_release(pile, 1)),
        EIrInstr::Over => Some(gen_copy(pile, 1)),
        EIrInstr::Rot => Some(gen_rot(pile)),
        EIrInstr::Eq => Some(gen_compare(pile, "sete")),
        EIrInstr::Neq => Some(gen_compare(pile, "setne")),
        EIrInstr::Lt => Some(gen_compare(pile, "setl")),
        EIrInstr::Gt => Some(gen_compare(pile, "setg")),
        EIrInstr::Le => Some(gen_compare(pile, "setle")),
        EIrInstr::Ge => Some(gen_compare(pile, "setge")),
        EIrInstr::And => Some(gen_commutative(pile, "and")),
        EIrInstr::Or => Some(gen_commutative(pile, "or")),
        EIrInstr::Xor => Some(gen_commutative(pile, "xor")),
        EIrInstr::Not => Some(gen_not(pile)),
        EIrInstr::Shl => Some(gen_shift(pile, "shl")),
        EIrInstr::Shr => Some(gen_shift(pile, "shr")),
        EIrInstr::Load8 => Some(gen_load(pile, "movzx", "rax, byte [rax]")),
        EIrInstr::Load16 => Some(gen_load(pile, "movzx", "rax, word [rax]")),
        EIrInstr::Load32 => Some(gen_load(pile, "mov", "eax, dword [rax]")),
        EIrInstr::Load64 => Some(gen_load(pile, "mov", "rax, qword [rax]")),
        EIrInstr::Store8 => Some(gen_store(pile, "[rbx], al")),
        EIrInstr::Store16 => Some(gen_store(pile, "[rbx], ax")),
        EIrInstr::Store32 => Some(gen_store(pile, "dword [rbx], eax")),
        EIrInstr::Store64 => Some(gen_store(pile, "qword [rbx], rax")),
        EIrInstr::Puts => Some(gen_print(pile, "dump_str")),
        EIrInstr::Dump => Some(gen_print(pile, "dump_i")),
        EIrInstr::Syscall0 => Some(gen_syscall(pile, 0)),
        EIrInstr::Syscall1 => Some(gen_syscall(pile, 1)),
        EIrInstr::Syscall2 => Some(gen_syscall(pile, 2)),
        EIrInstr::Syscall3 => Some(gen_syscall(pile, 3)),
        EIrInstr::Syscall4 => Some(gen_syscall(pile, 4)),
        EIrInstr::Syscall5 => Some(gen_syscall(pile, 5)),
        EIrInstr::Syscall6 => Some(gen_syscall(pile, 6)),
        EIrInstr::Call(name) => Some(gen_call(name.as_str())),
        EIrInstr::PushStr(_) => None,
        EIrInstr::Ret => None,
        EIrInstr::Proc(_, _, _, _) => None,
        EIrInstr::Const(_, _) => None,
    }
}

} // verus!
