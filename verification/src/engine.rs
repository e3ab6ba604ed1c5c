//! The stack-based code generator: a builder that collects the sections of
//! an assembly image line by line, and the compiler that drives it over a
//! program.

use crate::ir::{
    find_decl, has_main, instrs_view, lemma_body_view, main_name, program_has_main, resolves_to,
    EIrInstr, EType, Instr,
};
use crate::templates::{
    code_call, code_commutative, code_compare, code_copy, code_division, code_exit, code_load,
    code_not, code_ordered, code_plain, code_print, code_proc_start, code_push, code_release,
    code_ret, code_rot, code_shift, code_store, code_swap, code_syscall, gen_call, gen_commutative,
    gen_compare, gen_copy, gen_division, gen_exit, gen_load, gen_not, gen_ordered, gen_print,
    gen_proc_start, gen_push, gen_release, gen_ret, gen_rot, gen_shift, gen_store, gen_swap,
    gen_syscall, EReturn,
};
use crate::text::{
    decimal_int, decimal_nat, format_instr, i64_to_decimal, instr_line, join, join_lines,
    lemma_decimal_nat_injective, push_decimal, views,
};
use vstd::prelude::*;
use vstd::string::*;
use vstd::utf8::encode_utf8;

verus! {

/// The runtime helper that prints a signed integer in decimal. It takes
/// the magnitude of its argument as an unsigned number and divides it by
/// ten with an unsigned multiplier, so that every value of 64 bits prints,
/// the smallest one too. The digits are laid down from the end of a scratch
/// area on the machine stack, the sign before them.
pub const DUMP_I_SOURCE: &'static str = r#"dump_i:
        sub     rsp, 40
        xor     r9d, r9d
        test    rdi, rdi
        jns     .L2
        neg     rdi
        mov     r9d, 1
.L2:
        mov     rsi, 0xCCCCCCCCCCCCCCCD
        mov     ecx, 32
.L3:
        mov     rax, rdi
        mov     r8, rcx
        sub     rcx, 1
        mul     rsi
        shr     rdx, 3
        lea     rax, [rdx+rdx*4]
        add     rax, rax
        sub     rdi, rax
        add     edi, 48
        mov     BYTE [rsp+rcx], dil
        mov     rdi, rdx
        test    rdx, rdx
        jne     .L3
        test    r9d, r9d
        je      .L4
        mov     BYTE [rsp-2+r8], 45
        lea     rcx, [r8-2]
.L4:
    mov     rdx, 32
    lea     rsi, [rsp+rcx]
    sub     rdx, rcx
    mov     rax, 1
    mov     rdi, 1
    syscall
    add     rsp, 40
    ret"#;

/// The runtime helper that prints a NUL-terminated string.
pub const DUMP_STR_SOURCE: &'static str = r#"dump_str:
    push    rbx
    mov     rbx, rdi
    xor     rax, rax
.loop:
    cmp     byte [rdi + rax], 0
    je      .done
    inc     rax
    jmp     .loop
.done:
    mov     rdx, rax
    mov     rsi, rbx
    mov     rax, 1
    mov     rdi, 1
    pop     rbx
    syscall
    ret"#;

/// The label of the string literal with the given index.
pub open spec fn str_label(index: nat) -> Seq<char> {
    "str_"@ + decimal_nat(index)
}

/// How one byte of a literal is written inside a quoted `db` operand: a
/// printable character other than the quote and the backslash stands for
/// itself, any other byte closes the quote and is given by its number.
pub open spec fn escape_byte(b: u8) -> Seq<char> {
    if 32 <= b <= 126 && b != 34 && b != 92 {
        seq![b as char]
    } else {
        "\", "@ + decimal_nat(b as nat) + ", \""@
    }
}

/// The escaped form of a byte string.
pub open spec fn escape(bytes: Seq<u8>) -> Seq<char>
    decreases bytes.len(),
{
    if bytes.len() == 0 {
        Seq::empty()
    } else {
        escape(bytes.drop_last()) + escape_byte(bytes.last())
    }
}

/// The data line of a literal: its label and its bytes, NUL-terminated.
pub open spec fn data_line(label: Seq<char>, bytes: Seq<u8>) -> Seq<char> {
    "    "@ + label + ": db \""@ + escape(bytes) + "\", 0"@
}

/// The builder's state as plain sequences of lines.
#[verifier::ext_equal]
pub struct BuilderView {
    pub bss: Seq<Seq<char>>,
    pub data: Seq<Seq<char>>,
    pub funcs: Seq<Seq<char>>,
    pub text: Seq<Seq<char>>,
    pub str_count: nat,
    pub stack_reg: Seq<char>,
    pub proc_stack_reg: Seq<char>,
    pub strict_void: bool,
}

impl BuilderView {
    /// The state of a fresh builder.
    pub open spec fn initial() -> BuilderView {
        BuilderView {
            bss: seq![
                "    dump_buf: resb 21"@,
                "    data_stack: resq 4096"@,
                "    data_stack_proc: resq 8192"@,
            ],
            data: Seq::empty(),
            funcs: Seq::empty(),
            text: Seq::empty(),
            str_count: 0,
            stack_reg: "r15"@,
            proc_stack_reg: "r14"@,
            strict_void: false,
        }
    }

    /// The lines appended to the procedures' code, or to the entry code.
    pub open spec fn emit(self, in_proc: bool, lines: Seq<Seq<char>>) -> BuilderView {
        if in_proc {
            BuilderView { funcs: self.funcs + lines, ..self }
        } else {
            BuilderView { text: self.text + lines, ..self }
        }
    }

    /// A literal added to the data section under the next free label.
    pub open spec fn add_string(self, bytes: Seq<u8>) -> BuilderView {
        BuilderView {
            data: self.data.push(data_line(str_label(self.str_count), bytes)),
            str_count: self.str_count + 1,
            ..self
        }
    }

    /// The two runtime helpers added to the procedures' code.
    pub open spec fn add_dump_helper(self) -> BuilderView {
        BuilderView { funcs: self.funcs + seq![DUMP_I_SOURCE@, DUMP_STR_SOURCE@], ..self }
    }

    /// How a `Ret` returns, by where it stands and what it returns.
    pub open spec fn ret_mode(self, in_proc: bool, is_main: bool, returns_value: bool) -> EReturn {
        if !in_proc || is_main {
            EReturn::Bare
        } else if self.strict_void && !returns_value {
            EReturn::Restore
        } else {
            EReturn::Splice
        }
    }

    /// The lines of the finished image: the sections in the order bss, data,
    /// text; in the text section the procedures, then the entry point, which
    /// sets the stack register to the high end of the stack region and calls
    /// `main`, then the entry code.
    pub open spec fn build_lines(self) -> Seq<Seq<char>> {
        seq!["section .bss"@] + self.bss + seq!["\nsection .data"@] + self.data + seq![
            "\nsection .text"@,
        ] + (if self.funcs.len() > 0 {
            seq![""@] + self.funcs
        } else {
            Seq::empty()
        }) + seq![
            "\nglobal _start"@,
            "_start:"@,
            "    lea      r15, [data_stack + 4096*8]"@,
            "    call     proc_main"@,
        ] + self.text
    }

    /// The finished image as one text.
    pub open spec fn build(self) -> Seq<char> {
        join(self.build_lines(), "\n"@)
    }
}

/// Collects the lines of an assembly image, section by section.
pub struct StackAsmBuilder {
    pub bss: Vec<String>,
    pub data: Vec<String>,
    pub funcs: Vec<String>,
    pub text: Vec<String>,
    pub str_count: usize,
    pub stack_reg: String,
    pub proc_stack_reg: String,
    /// Whether a procedure that returns nothing only restores the stack
    /// register on return, instead of splicing its top slot like the others.
    pub strict_void: bool,
}

impl View for StackAsmBuilder {
    type V = BuilderView;

    open spec fn view(&self) -> BuilderView {
        BuilderView {
            bss: views(self.bss@),
            data: views(self.data@),
            funcs: views(self.funcs@),
            text: views(self.text@),
            str_count: self.str_count as nat,
            stack_reg: self.stack_reg@,
            proc_stack_reg: self.proc_stack_reg@,
            strict_void: self.strict_void,
        }
    }
}

/// Appends copies of the strings of `src` to `out`.
pub fn extend_cloned(out: &mut Vec<String>, src: &Vec<String>)
    ensures
        views(final(out)@) == views(old(out)@) + views(src@),
{
    let mut i: usize = 0;
    while i < src.len()
        invariant
            i <= src.len(),
            views(out@) == views(old(out)@) + views(src@).take(i as int),
        decreases src.len() - i,
    {
        let copy = src[i].clone();
        let ghost before = views(out@);
        out.push(copy);
        assert(views(out@) =~= before.push(src@[i as int]@));
        i += 1;
    }
}

/// Appends one line to `out`.
pub fn push_line(out: &mut Vec<String>, line: &str)
    ensures
        views(final(out)@) == views(old(out)@).push(line@),
{
    out.push(String::from_str(line));
}

/// Escapes the bytes of a literal for a quoted `db` operand.
pub fn escape_bytes(bytes: &[u8]) -> (r: String)
    ensures
        r@ == escape(bytes@),
{
    let mut escaped = String::new();
    let mut i: usize = 0;
    while i < bytes.len()
        invariant
            i <= bytes.len(),
            escaped@ == escape(bytes@.take(i as int)),
        decreases bytes.len() - i,
    {
        let byte = bytes[i];
        proof {
            assert(bytes@.take(i + 1).drop_last() =~= bytes@.take(i as int));
        }
        if byte >= 32 && byte <= 126 && byte != 34 && byte != 92 {
            escaped.push(byte as char);
        } else {
            escaped.append("\", ");
            push_decimal(&mut escaped, byte as u64);
            escaped.append(", \"");
        }
        i += 1;
    }
    assert(bytes@.take(i as int) =~= bytes@);
    escaped
}

impl StackAsmBuilder {
    /// A builder with the buffers of the bss section and nothing else.
    pub fn new() -> (r: Self)
        ensures
            r@ == BuilderView::initial(),
    {
        let mut bss: Vec<String> = Vec::new();
        bss.push(String::from_str("    dump_buf: resb 21"));
        bss.push(String::from_str("    data_stack: resq 4096"));
        bss.push(String::from_str("    data_stack_proc: resq 8192"));
        let r = StackAsmBuilder {
            bss,
            data: Vec::new(),
            funcs: Vec::new(),
            text: Vec::new(),
            str_count: 0,
            stack_reg: String::from_str("r15"),
            proc_stack_reg: String::from_str("r14"),
            strict_void: false,
        };
        r
    }

    /// Adds a literal to the data section and returns its label and its
    /// length in bytes. Every call hands out a fresh label, also for a
    /// literal that was added before.
    pub fn add_string(&mut self, s: &str) -> (r: (String, usize))
        requires
            old(self).str_count < usize::MAX,
        ensures
            r.0@ == str_label(old(self)@.str_count),
            r.1 == encode_utf8(s@).len(),
            final(self)@ == old(self)@.add_string(encode_utf8(s@)),
    {
        let mut label = String::from_str("str_");
        push_decimal(&mut label, self.str_count as u64);
        self.str_count += 1;
        let bytes = s.as_bytes();
        let len = bytes.len();
        let escaped = escape_bytes(bytes);
        let mut line = String::from_str("    ");
        line.append(label.as_str());
        line.append(": db \"");
        line.append(escaped.as_str());
        line.append("\", 0");
        self.data.push(line);
        (label, len)
    }

    /// Appends a line to the procedures' code.
    pub fn emit_func_line(&mut self, line: &str)
        ensures
            final(self)@ == old(self)@.emit(true, seq![line@]),
    {
        self.funcs.push(String::from_str(line));
    }

    /// Appends an instruction to the procedures' code.
    pub fn emit_func_instr(&mut self, instr: &str, args: &str)
        ensures
            final(self)@ == old(self)@.emit(true, seq![instr_line(instr@, args@)]),
    {
        self.funcs.push(format_instr(instr, args));
    }

    /// Appends a line to the entry code.
    pub fn emit_text_line(&mut self, line: &str)
        ensures
            final(self)@ == old(self)@.emit(false, seq![line@]),
    {
        self.text.push(String::from_str(line));
    }

    /// Appends an instruction to the entry code.
    pub fn emit_text_instr(&mut self, instr: &str, args: &str)
        ensures
            final(self)@ == old(self)@.emit(false, seq![instr_line(instr@, args@)]),
    {
        self.text.push(format_instr(instr, args));
    }

    /// Appends an instruction to the procedures' code, or to the entry code.
    pub fn emit_instr(&mut self, in_proc: bool, instr: &str, args: &str)
        ensures
            final(self)@ == old(self)@.emit(in_proc, seq![instr_line(instr@, args@)]),
    {
        if in_proc {
            self.emit_func_instr(instr, args);
        } else {
            self.emit_text_instr(instr, args);
        }
    }

    /// Appends the lines to the procedures' code, or to the entry code.
    pub fn emit_lines(&mut self, in_proc: bool, lines: Vec<String>)
        ensures
            final(self)@ == old(self)@.emit(in_proc, views(lines@)),
    {
        let mut rest = lines;
        if in_proc {
            self.funcs.append(&mut rest);
        } else {
            self.text.append(&mut rest);
        }
    }

    /// Pushes a number.
    pub fn emit_push_i64(&mut self, value: i64, in_proc: bool)
        ensures
            final(self)@ == old(self)@.emit(
                in_proc,
                code_push(old(self)@.stack_reg, decimal_int(value as int)),
            ),
    {
        let pile = self.stack_reg.clone();
        let literal = i64_to_decimal(value);
        self.emit_lines(in_proc, gen_push(pile.as_str(), literal.as_str()));
    }

    /// Adds the literal to the data section and pushes its address.
    pub fn emit_push_str(&mut self, s: &str, in_proc: bool)
        requires
            old(self).str_count < usize::MAX,
        ensures
            final(self)@ == old(self)@.add_string(encode_utf8(s@)).emit(
                in_proc,
                code_push(old(self)@.stack_reg, str_label(old(self)@.str_count)),
            ),
    {
        let (label, _) = self.add_string(s);
        let pile = self.stack_reg.clone();
        self.emit_lines(in_proc, gen_push(pile.as_str(), label.as_str()));
    }

    /// Replaces the two top slots by their sum.
    pub fn emit_add_i64(&mut self, in_proc: bool)
        ensures
            final(self)@ == old(self)@.emit(
                in_proc,
                code_commutative(old(self)@.stack_reg, "add"@),
            ),
    {
        let pile = self.stack_reg.clone();
        self.emit_lines(in_proc, gen_commutative(pile.as_str(), "add"));
    }

    /// Replaces the two top slots by the slot below the top less the top.
    pub fn emit_sub_i64(&mut self, in_proc: bool)
        ensures
            final(self)@ == old(self)@.emit(in_proc, code_ordered(old(self)@.stack_reg, "sub"@)),
    {
        let pile = self.stack_reg.clone();
        self.emit_lines(in_proc, gen_ordered(pile.as_str(), "sub"));
    }

    /// Replaces the two top slots by their product.
    pub fn emit_mul_i64(&mut self, in_proc: bool)
        ensures
            final(self)@ == old(self)@.emit(in_proc, code_ordered(old(self)@.stack_reg, "imul"@)),
    {
        let pile = self.stack_reg.clone();
        self.emit_lines(in_proc, gen_ordered(pile.as_str(), "imul"));
    }

    /// Replaces the two top slots by the quotient of the slot below the top
    /// by the top.
    pub fn emit_div_i64(&mut self, in_proc: bool)
        ensures
            final(self)@ == old(self)@.emit(in_proc, code_division(old(self)@.stack_reg, "rax"@)),
    {
        let pile = self.stack_reg.clone();
        self.emit_lines(in_proc, gen_division(pile.as_str(), "rax"));
    }

    /// Replaces the two top slots by the remainder of the slot below the top
    /// by the top.
    pub fn emit_mod_i64(&mut self, in_proc: bool)
        ensures
            final(self)@ == old(self)@.emit(in_proc, code_division(old(self)@.stack_reg, "rdx"@)),
    {
        let pile = self.stack_reg.clone();
        self.emit_lines(in_proc, gen_division(pile.as_str(), "rdx"));
    }

    /// Pushes a copy of the top.
    pub fn emit_dup(&mut self, in_proc: bool)
        ensures
            final(self)@ == old(self)@.emit(in_proc, code_copy(old(self)@.stack_reg, 0)),
    {
        let pile = self.stack_reg.clone();
        self.emit_lines(in_proc, gen_copy(pile.as_str(), 0));
    }

    /// Exchanges the two top slots.
    pub fn emit_swap(&mut self, in_proc: bool)
        ensures
            final(self)@ == old(self)@.emit(in_proc, code_swap(old(self)@.stack_reg)),
    {
        let pile = self.stack_reg.clone();
        self.emit_lines(in_proc, gen_swap(pile.as_str()));
    }

    /// Releases the top slot.
    pub fn emit_drop(&mut self, in_proc: bool)
        ensures
            final(self)@ == old(self)@.emit(in_proc, code_release(old(self)@.stack_reg, 1)),
    {
        let pile = self.stack_reg.clone();
        self.emit_lines(in_proc, gen_release(pile.as_str(), 1));
    }

    /// Pushes a copy of the slot below the top.
    pub fn emit_over(&mut self, in_proc: bool)
        ensures
            final(self)@ == old(self)@.emit(in_proc, code_copy(old(self)@.stack_reg, 1)),
    {
        let pile = self.stack_reg.clone();
        self.emit_lines(in_proc, gen_copy(pile.as_str(), 1));
    }

    /// Brings the third slot to the top and moves the two above it one
    /// place down.
    pub fn emit_rot(&mut self, in_proc: bool)
        ensures
            final(self)@ == old(self)@.emit(in_proc, code_rot(old(self)@.stack_reg)),
    {
        let pile = self.stack_reg.clone();
        self.emit_lines(in_proc, gen_rot(pile.as_str()));
    }

    /// Pops the top and prints it as a decimal number.
    pub fn emit_dump(&mut self, in_proc: bool)
        ensures
            final(self)@ == old(self)@.emit(in_proc, code_print(old(self)@.stack_reg, "dump_i"@)),
    {
        let pile = self.stack_reg.clone();
        self.emit_lines(in_proc, gen_print(pile.as_str(), "dump_i"));
    }

    /// Pops the top and prints the NUL-terminated string that it points to.
    pub fn emit_puts(&mut self, in_proc: bool)
        ensures
            final(self)@ == old(self)@.emit(in_proc, code_print(old(self)@.stack_reg, "dump_str"@)),
    {
        let pile = self.stack_reg.clone();
        self.emit_lines(in_proc, gen_print(pile.as_str(), "dump_str"));
    }

    /// Calls a procedure by its label.
    pub fn emit_call(&mut self, name: &str, in_proc: bool)
        ensures
            final(self)@ == old(self)@.emit(in_proc, code_call(name@)),
    {
        self.emit_lines(in_proc, gen_call(name));
    }

    /// Emits the return of a procedure. `main`, and code outside any
    /// procedure, returns bare; every other procedure splices its top slot
    /// into the slot that the stack register addressed at entry, unless the
    /// builder is strict about procedures that return nothing.
    pub fn emit_ret(&mut self, in_proc: bool, is_main: bool, returns_value: bool)
        ensures
            final(self)@ == old(self)@.emit(
                in_proc,
                code_ret(
                    old(self)@.stack_reg,
                    old(self)@.ret_mode(in_proc, is_main, returns_value),
                ),
            ),
    {
        let pile = self.stack_reg.clone();
        let mode = if !in_proc || is_main {
            EReturn::Bare
        } else if self.strict_void && !returns_value {
            EReturn::Restore
        } else {
            EReturn::Splice
        };
        self.emit_lines(in_proc, gen_ret(pile.as_str(), mode));
    }

    /// Emits the label of a procedure and, except for `main`, the save of
    /// the stack register.
    pub fn emit_proc_start(&mut self, name: &str, is_main: bool)
        ensures
            final(self)@ == old(self)@.emit(
                true,
                code_proc_start(old(self)@.stack_reg, name@, is_main),
            ),
    {
        let pile = self.stack_reg.clone();
        self.emit_lines(true, gen_proc_start(pile.as_str(), name, is_main));
    }

    /// Nothing is emitted at the end of a procedure: its `Ret` cleans up.
    pub fn emit_proc_end(&mut self)
        ensures
            final(self)@ == old(self)@,
    {
    }

    /// Emits a system call with `arg_count` arguments; nothing for a count
    /// above six.
    pub fn emit_syscall(&mut self, arg_count: usize, in_proc: bool)
        ensures
            final(self)@ == old(self)@.emit(
                in_proc,
                code_syscall(old(self)@.stack_reg, arg_count as nat),
            ),
    {
        let pile = self.stack_reg.clone();
        self.emit_lines(in_proc, gen_syscall(pile.as_str(), arg_count));
    }

    /// Replaces the two top slots by 1 if they are equal, else by 0.
    pub fn emit_eq(&mut self, in_proc: bool)
        ensures
            final(self)@ == old(self)@.emit(in_proc, code_compare(old(self)@.stack_reg, "sete"@)),
    {
        let pile = self.stack_reg.clone();
        self.emit_lines(in_proc, gen_compare(pile.as_str(), "sete"));
    }

    /// Replaces the two top slots by 1 if they differ, else by 0.
    pub fn emit_neq(&mut self, in_proc: bool)
        ensures
            final(self)@ == old(self)@.emit(in_proc, code_compare(old(self)@.stack_reg, "setne"@)),
    {
        let pile = self.stack_reg.clone();
        self.emit_lines(in_proc, gen_compare(pile.as_str(), "setne"));
    }

    /// Replaces the two top slots by 1 if the slot below the top is less
    /// than the top, else by 0.
    pub fn emit_lt(&mut self, in_proc: bool)
        ensures
            final(self)@ == old(self)@.emit(in_proc, code_compare(old(self)@.stack_reg, "setl"@)),
    {
        let pile = self.stack_reg.clone();
        self.emit_lines(in_proc, gen_compare(pile.as_str(), "setl"));
    }

    /// Replaces the two top slots by 1 if the slot below the top is greater
    /// than the top, else by 0.
    pub fn emit_gt(&mut self, in_proc: bool)
        ensures
            final(self)@ == old(self)@.emit(in_proc, code_compare(old(self)@.stack_reg, "setg"@)),
    {
        let pile = self.stack_reg.clone();
        self.emit_lines(in_proc, gen_compare(pile.as_str(), "setg"));
    }

    /// Replaces the two top slots by 1 if the slot below the top is at most
    /// the top, else by 0.
    pub fn emit_le(&mut self, in_proc: bool)
        ensures
            final(self)@ == old(self)@.emit(in_proc, code_compare(old(self)@.stack_reg, "setle"@)),
    {
        let pile = self.stack_reg.clone();
        self.emit_lines(in_proc, gen_compare(pile.as_str(), "setle"));
    }

    /// Replaces the two top slots by 1 if the slot below the top is at least
    /// the top, else by 0.
    pub fn emit_ge(&mut self, in_proc: bool)
        ensures
            final(self)@ == old(self)@.emit(in_proc, code_compare(old(self)@.stack_reg, "setge"@)),
    {
        let pile = self.stack_reg.clone();
        self.emit_lines(in_proc, gen_compare(pile.as_str(), "setge"));
    }

    /// Replaces the two top slots by their bitwise and.
    pub fn emit_and(&mut self, in_proc: bool)
        ensures
            final(self)@ == old(self)@.emit(
                in_proc,
                code_commutative(old(self)@.stack_reg, "and"@),
            ),
    {
        let pile = self.stack_reg.clone();
        self.emit_lines(in_proc, gen_commutative(pile.as_str(), "and"));
    }

    /// Replaces the two top slots by their bitwise or.
    pub fn emit_or(&mut self, in_proc: bool)
        ensures
            final(self)@ == old(self)@.emit(in_proc, code_commutative(old(self)@.stack_reg, "or"@)),
    {
        let pile = self.stack_reg.clone();
        self.emit_lines(in_proc, gen_commutative(pile.as_str(), "or"));
    }

    /// Replaces the two top slots by their bitwise exclusive or.
    pub fn emit_xor(&mut self, in_proc: bool)
        ensures
            final(self)@ == old(self)@.emit(
                in_proc,
                code_commutative(old(self)@.stack_reg, "xor"@),
            ),
    {
        let pile = self.stack_reg.clone();
        self.emit_lines(in_proc, gen_commutative(pile.as_str(), "xor"));
    }

    /// Complements the top bit by bit.
    pub fn emit_not(&mut self, in_proc: bool)
        ensures
            final(self)@ == old(self)@.emit(in_proc, code_not(old(self)@.stack_reg)),
    {
        let pile = self.stack_reg.clone();
        self.emit_lines(in_proc, gen_not(pile.as_str()));
    }

    /// Replaces the two top slots by the slot below the top shifted left by
    /// the top.
    pub fn emit_shl(&mut self, in_proc: bool)
        ensures
            final(self)@ == old(self)@.emit(in_proc, code_shift(old(self)@.stack_reg, "shl"@)),
    {
        let pile = self.stack_reg.clone();
        self.emit_lines(in_proc, gen_shift(pile.as_str(), "shl"));
    }

    /// Replaces the two top slots by the slot below the top shifted right by
    /// the top.
    pub fn emit_shr(&mut self, in_proc: bool)
        ensures
            final(self)@ == old(self)@.emit(in_proc, code_shift(old(self)@.stack_reg, "shr"@)),
    {
        let pile = self.stack_reg.clone();
        self.emit_lines(in_proc, gen_shift(pile.as_str(), "shr"));
    }

    /// Replaces the address on top by the byte there, zero-extended.
    pub fn emit_load8(&mut self, in_proc: bool)
        ensures
            final(self)@ == old(self)@.emit(
                in_proc,
                code_load(old(self)@.stack_reg, "movzx"@, "rax, byte [rax]"@),
            ),
    {
        let pile = self.stack_reg.clone();
        self.emit_lines(in_proc, gen_load(pile.as_str(), "movzx", "rax, byte [rax]"));
    }

    /// Replaces the address on top by the 16 bits there, zero-extended.
    pub fn emit_load16(&mut self, in_proc: bool)
        ensures
            final(self)@ == old(self)@.emit(
                in_proc,
                code_load(old(self)@.stack_reg, "movzx"@, "rax, word [rax]"@),
            ),
    {
        let pile = self.stack_reg.clone();
        self.emit_lines(in_proc, gen_load(pile.as_str(), "movzx", "rax, word [rax]"));
    }

    /// Replaces the address on top by the 32 bits there, zero-extended.
    pub fn emit_load32(&mut self, in_proc: bool)
        ensures
            final(self)@ == old(self)@.emit(
                in_proc,
                code_load(old(self)@.stack_reg, "mov"@, "eax, dword [rax]"@),
            ),
    {
        let pile = self.stack_reg.clone();
        self.emit_lines(in_proc, gen_load(pile.as_str(), "mov", "eax, dword [rax]"));
    }

    /// Replaces the address on top by the 64 bits there.
    pub fn emit_load64(&mut self, in_proc: bool)
        ensures
            final(self)@ == old(self)@.emit(
                in_proc,
                code_load(old(self)@.stack_reg, "mov"@, "rax, qword [rax]"@),
            ),
    {
        let pile = self.stack_reg.clone();
        self.emit_lines(in_proc, gen_load(pile.as_str(), "mov", "rax, qword [rax]"));
    }

    /// Writes the low byte of the top at the address below it and releases
    /// both slots.
    pub fn emit_store8(&mut self, in_proc: bool)
        ensures
            final(self)@ == old(self)@.emit(
                in_proc,
                code_store(old(self)@.stack_reg, "[rbx], al"@),
            ),
    {
        let pile = self.stack_reg.clone();
        self.emit_lines(in_proc, gen_store(pile.as_str(), "[rbx], al"));
    }

    /// Writes the low 16 bits of the top at the address below it and
    /// releases both slots.
    pub fn emit_store16(&mut self, in_proc: bool)
        ensures
            final(self)@ == old(self)@.emit(
                in_proc,
                code_store(old(self)@.stack_reg, "[rbx], ax"@),
            ),
    {
        let pile = self.stack_reg.clone();
        self.emit_lines(in_proc, gen_store(pile.as_str(), "[rbx], ax"));
    }

    /// Writes the low 32 bits of the top at the address below it and
    /// releases both slots.
    pub fn emit_store32(&mut self, in_proc: bool)
        ensures
            final(self)@ == old(self)@.emit(
                in_proc,
                code_store(old(self)@.stack_reg, "dword [rbx], eax"@),
            ),
    {
        let pile = self.stack_reg.clone();
        self.emit_lines(in_proc, gen_store(pile.as_str(), "dword [rbx], eax"));
    }

    /// Writes the top at the address below it and releases both slots.
    pub fn emit_store64(&mut self, in_proc: bool)
        ensures
            final(self)@ == old(self)@.emit(
                in_proc,
                code_store(old(self)@.stack_reg, "qword [rbx], rax"@),
            ),
    {
        let pile = self.stack_reg.clone();
        self.emit_lines(in_proc, gen_store(pile.as_str(), "qword [rbx], rax"));
    }

    /// Adds the two runtime helpers to the procedures' code.
    pub fn add_dump_helper(&mut self)
        ensures
            final(self)@ == old(self)@.add_dump_helper(),
    {
        self.funcs.push(String::from_str(DUMP_I_SOURCE));
        self.funcs.push(String::from_str(DUMP_STR_SOURCE));
    }

    /// Emits the exit sequence into the entry code.
    pub fn emit_exit(&mut self)
        ensures
            final(self)@ == old(self)@.emit(false, code_exit()),
    {
        self.emit_lines(false, gen_exit());
    }

    /// The finished image.
    pub fn build(&self) -> (r: String)
        ensures
            r@ == self@.build(),
    {
        let mut output: Vec<String> = Vec::new();
        push_line(&mut output, "section .bss");
        extend_cloned(&mut output, &self.bss);
        push_line(&mut output, "\nsection .data");
        extend_cloned(&mut output, &self.data);
        push_line(&mut output, "\nsection .text");
        if self.funcs.len() > 0 {
            push_line(&mut output, "");
            extend_cloned(&mut output, &self.funcs);
        }
        push_line(&mut output, "\nglobal _start");
        push_line(&mut output, "_start:");
        push_line(&mut output, "    lea      r15, [data_stack + 4096*8]");
        push_line(&mut output, "    call     proc_main");
        extend_cloned(&mut output, &self.text);
        assert(views(output@) =~= self@.build_lines());
        join_lines(&output, "\n")
    }
}

/// Two literals get the same label only if they have the same index.
pub proof fn lemma_str_label_injective(a: nat, b: nat)
    requires
        str_label(a) == str_label(b),
    ensures
        a == b,
{
    let n = "str_"@.len() as int;
    assert(decimal_nat(a) =~= str_label(a).subrange(n, str_label(a).len() as int));
    assert(decimal_nat(b) =~= str_label(b).subrange(n, str_label(b).len() as int));
    lemma_decimal_nat_injective(a, b);
}

/// The number of literals that the instructions push.
pub open spec fn count_strs(instrs: Seq<Instr>) -> nat
    decreases instrs.len(),
{
    if instrs.len() == 0 {
        0
    } else {
        count_strs(instrs.drop_last()) + if instrs.last() is PushStr {
            1nat
        } else {
            0nat
        }
    }
}

/// The builder after one instruction has been compiled: the push of a
/// string adds the literal to the data section and pushes its label; the
/// return depends on the procedure; every other instruction has its lines;
/// a declaration inside a body is passed over.
pub open spec fn compile_one(
    b: BuilderView,
    instr: Instr,
    in_proc: bool,
    is_main: bool,
    returns_value: bool,
) -> BuilderView {
    let pile = b.stack_reg;
    match instr {
        Instr::PushStr(s) => b.add_string(encode_utf8(s)).emit(
            in_proc,
            code_push(pile, str_label(b.str_count)),
        ),
        Instr::Ret => b.emit(in_proc, code_ret(pile, b.ret_mode(in_proc, is_main, returns_value))),
        _ => match code_plain(instr, pile) {
            Some(lines) => b.emit(in_proc, lines),
            None => b,
        },
    }
}

/// The builder after the instructions have been compiled in order.
pub open spec fn compile_body(
    b: BuilderView,
    instrs: Seq<Instr>,
    in_proc: bool,
    is_main: bool,
    returns_value: bool,
) -> BuilderView
    decreases instrs.len(),
{
    if instrs.len() == 0 {
        b
    } else {
        compile_one(
            compile_body(b, instrs.drop_last(), in_proc, is_main, returns_value),
            instrs.last(),
            in_proc,
            is_main,
            returns_value,
        )
    }
}

/// The builder after one declaration has been compiled: its entry, then
/// its body.
pub open spec fn compile_decl(b: BuilderView, decl: Instr) -> BuilderView {
    let is_main = decl.decl_name() == main_name();
    compile_body(
        b.emit(true, code_proc_start(b.stack_reg, decl.decl_name(), is_main)),
        decl.decl_body(),
        true,
        is_main,
        decl.decl_returns(),
    )
}

/// The builder after the first `upto` items of the program: every
/// declaration that its name stands for is compiled, in the order of the
/// program; a declaration that a later one of the same name replaces is
/// passed over. `None` once the literals outnumber what the label counter
/// can hold.
pub open spec fn compile_decls(prog: Seq<Instr>, b: BuilderView, upto: nat) -> Option<BuilderView>
    decreases upto,
{
    if upto == 0 {
        Some(b)
    } else {
        let i = upto - 1;
        match compile_decls(prog, b, i as nat) {
            None => None,
            Some(prev) => {
                if !resolves_to(prog, prog[i].decl_name(), i) {
                    Some(prev)
                } else if prev.str_count + count_strs(prog[i].decl_body()) > usize::MAX {
                    None
                } else {
                    Some(compile_decl(prev, prog[i]))
                }
            },
        }
    }
}

/// What is said when the program declares no procedure `main`.
pub open spec fn missing_main_message() -> Seq<char> {
    "Erreur: proc main non declaree"@
}

/// What is said when the literals outnumber the labels.
pub open spec fn too_many_literals_message() -> Seq<char> {
    "Erreur: trop de chaines litterales"@
}

/// The image of a program, or why there is none. The scan comes first: a
/// program without `main` yields nothing else.
pub open spec fn spec_compile(prog: Seq<Instr>) -> Result<Seq<char>, Seq<char>> {
    if !has_main(prog) {
        Err(missing_main_message())
    } else {
        match compile_decls(prog, BuilderView::initial().add_dump_helper(), prog.len()) {
            None => Err(too_many_literals_message()),
            Some(b) => Ok(b.emit(false, code_exit()).build()),
        }
    }
}

/// Compiling a body changes neither the stack register nor the return
/// policy, and takes one label per literal.
pub proof fn lemma_compile_body_frame(
    b: BuilderView,
    instrs: Seq<Instr>,
    in_proc: bool,
    is_main: bool,
    returns_value: bool,
)
    ensures
        compile_body(b, instrs, in_proc, is_main, returns_value).stack_reg == b.stack_reg,
        compile_body(b, instrs, in_proc, is_main, returns_value).strict_void == b.strict_void,
        compile_body(b, instrs, in_proc, is_main, returns_value).str_count == b.str_count
            + count_strs(instrs),
    decreases instrs.len(),
{
    if instrs.len() > 0 {
        lemma_compile_body_frame(b, instrs.drop_last(), in_proc, is_main, returns_value);
    }
}

/// A prefix of a body pushes no more literals than the body.
pub proof fn lemma_count_strs_prefix(instrs: Seq<Instr>, k: int)
    requires
        0 <= k <= instrs.len(),
    ensures
        count_strs(instrs.take(k)) <= count_strs(instrs),
    decreases instrs.len() - k,
{
    if k < instrs.len() {
        lemma_count_strs_prefix(instrs, k + 1);
        assert(instrs.take(k + 1).drop_last() =~= instrs.take(k));
    } else {
        assert(instrs.take(k) =~= instrs);
    }
}

/// Counts the literals that the instructions push.
pub fn count_literals(instrs: &[EIrInstr]) -> (n: usize)
    ensures
        n == count_strs(instrs_view(instrs@)),
{
    let ghost iv = instrs_view(instrs@);
    let mut n: usize = 0;
    let mut i: usize = 0;
    while i < instrs.len()
        invariant
            i <= instrs.len(),
            iv == instrs_view(instrs@),
            n == count_strs(iv.take(i as int)),
            n <= i,
        decreases instrs.len() - i,
    {
        proof {
            assert(iv.take(i + 1).drop_last() =~= iv.take(i as int));
        }
        match &instrs[i] {
            EIrInstr::PushStr(_) => {
                n += 1;
            },
            _ => {},
        }
        i += 1;
    }
    assert(iv.take(i as int) =~= iv);
    n
}

/// Compiles programs into assembly images.
pub struct StackCompiler;

impl StackCompiler {
    /// Compiles a program. The scan comes first: without a procedure
    /// `main` nothing is emitted. Then the runtime helpers, every
    /// declaration in the order of the program, the exit sequence.
    pub fn compile(ir: &[EIrInstr]) -> (r: Result<String, String>)
        ensures
            match r {
                Ok(image) => spec_compile(instrs_view(ir@)) == Ok::<Seq<char>, Seq<char>>(image@),
                Err(message) => spec_compile(instrs_view(ir@)) == Err::<Seq<char>, Seq<char>>(
                    message@,
                ),
            },
    {
        let ghost prog = instrs_view(ir@);
        if !program_has_main(ir) {
            return Err(String::from_str("Erreur: proc main non declaree"));
        }
        let mut builder = StackAsmBuilder::new();
        builder.add_dump_helper();
        let ghost start = builder@;
        let mut i: usize = 0;
        while i < ir.len()
            invariant
                i <= ir.len(),
                prog == instrs_view(ir@),
                has_main(prog),
                start == BuilderView::initial().add_dump_helper(),
                compile_decls(prog, start, i as nat) == Some(builder@),
            decreases ir.len() - i,
        {
            proof {
                lemma_body_view(ir@[i as int]);
            }
            let fits = match &ir[i] {
                EIrInstr::Proc(name, body, _, ret) => Self::compile_decl(
                    &mut builder,
                    ir,
                    i,
                    name,
                    body,
                    *ret != EType::Void,
                ),
                EIrInstr::Const(name, body) => Self::compile_decl(
                    &mut builder,
                    ir,
                    i,
                    name,
                    body,
                    true,
                ),
                _ => true,
            };
            if !fits {
                proof {
                    lemma_compile_decls_none(prog, start, (i + 1) as nat, prog.len());
                }
                return Err(String::from_str("Erreur: trop de chaines litterales"));
            }
            i += 1;
        }
        builder.emit_exit();
        Ok(builder.build())
    }

    /// Compiles the declaration `ir[index]`, whose name and body are
    /// given, if its name stands for it. Returns whether the label counter
    /// could take its literals; if not, nothing is emitted.
    fn compile_decl(
        builder: &mut StackAsmBuilder,
        ir: &[EIrInstr],
        index: usize,
        name: &String,
        body: &Vec<EIrInstr>,
        returns_value: bool,
    ) -> (fits: bool)
        requires
            index < ir@.len(),
            instrs_view(ir@)[index as int].is_decl(),
            instrs_view(ir@)[index as int].decl_name() == name@,
            instrs_view(ir@)[index as int].decl_body() == instrs_view(body@),
            instrs_view(ir@)[index as int].decl_returns() == returns_value,
        ensures
            ({
                let prog = instrs_view(ir@);
                let decl = prog[index as int];
                if !resolves_to(prog, name@, index as int) {
                    fits && final(builder)@ == old(builder)@
                } else if old(builder)@.str_count + count_strs(decl.decl_body()) > usize::MAX {
                    !fits && final(builder)@ == old(builder)@
                } else {
                    fits && final(builder)@ == compile_decl(old(builder)@, decl)
                }
            }),
    {
        let stands = match find_decl(ir, name) {
            Some(j) => j == index,
            None => false,
        };
        if !stands {
            return true;
        }
        let literals = count_literals(body.as_slice());
        if literals > usize::MAX - builder.str_count {
            return false;
        }
        let is_main = name.as_str().eq("main");
        builder.emit_proc_start(name.as_str(), is_main);
        Self::compile_instrs(builder, body.as_slice(), true, is_main, returns_value);
        true
    }

    /// Compiles the instructions in order.
    pub fn compile_instrs(
        builder: &mut StackAsmBuilder,
        instrs: &[EIrInstr],
        in_proc: bool,
        is_main: bool,
        returns_value: bool,
    )
        requires
            old(builder).str_count + count_strs(instrs_view(instrs@)) <= usize::MAX,
        ensures
            final(builder)@ == compile_body(
                old(builder)@,
                instrs_view(instrs@),
                in_proc,
                is_main,
                returns_value,
            ),
    {
        let ghost iv = instrs_view(instrs@);
        let ghost start = builder@;
        let mut i: usize = 0;
        while i < instrs.len()
            invariant
                i <= instrs.len(),
                iv == instrs_view(instrs@),
                start.str_count + count_strs(iv) <= usize::MAX,
                builder@ == compile_body(start, iv.take(i as int), in_proc, is_main, returns_value),
            decreases instrs.len() - i,
        {
            proof {
                assert(iv.take(i + 1).drop_last() =~= iv.take(i as int));
                lemma_compile_body_frame(start, iv.take(i as int), in_proc, is_main, returns_value);
                lemma_count_strs_prefix(iv, i + 1);
            }
            match &instrs[i] {
                EIrInstr::PushI64(value) => builder.emit_push_i64(*value, in_proc),
                EIrInstr::PushStr(s) => builder.emit_push_str(s.as_str(), in_proc),
                EIrInstr::AddI64 => builder.emit_add_i64(in_proc),
                EIrInstr::SubI64 => builder.emit_sub_i64(in_proc),
                EIrInstr::MulI64 => builder.emit_mul_i64(in_proc),
                EIrInstr::DivI64 => builder.emit_div_i64(in_proc),
                EIrInstr::ModI64 => builder.emit_mod_i64(in_proc),
                EIrInstr::Dup => builder.emit_dup(in_proc),
                EIrInstr::Swap => builder.emit_swap(in_proc),
                EIrInstr::Drop => builder.emit_drop(in_proc),
                EIrInstr::Over => builder.emit_over(in_proc),
                EIrInstr::Rot => builder.emit_rot(in_proc),
                EIrInstr::Eq => builder.emit_eq(in_proc),
                EIrInstr::Neq => builder.emit_neq(in_proc),
                EIrInstr::Lt => builder.emit_lt(in_proc),
                EIrInstr::Gt => builder.emit_gt(in_proc),
                EIrInstr::Le => builder.emit_le(in_proc),
                EIrInstr::Ge => builder.emit_ge(in_proc),
                EIrInstr::And => builder.emit_and(in_proc),
                EIrInstr::Or => builder.emit_or(in_proc),
                EIrInstr::Xor => builder.emit_xor(in_proc),
                EIrInstr::Not => builder.emit_not(in_proc),
                EIrInstr::Shl => builder.emit_shl(in_proc),
                EIrInstr::Shr => builder.emit_shr(in_proc),
                EIrInstr::Load8 => builder.emit_load8(in_proc),
                EIrInstr::Load16 => builder.emit_load16(in_proc),
                EIrInstr::Load32 => builder.emit_load32(in_proc),
                EIrInstr::Load64 => builder.emit_load64(in_proc),
                EIrInstr::Store8 => builder.emit_store8(in_proc),
                EIrInstr::Store16 => builder.emit_store16(in_proc),
                EIrInstr::Store32 => builder.emit_store32(in_proc),
                EIrInstr::Store64 => builder.emit_store64(in_proc),
                EIrInstr::Puts => builder.emit_puts(in_proc),
                EIrInstr::Dump => builder.emit_dump(in_proc),
                EIrInstr::Syscall0 => builder.emit_syscall(0, in_proc),
                EIrInstr::Syscall1 => builder.emit_syscall(1, in_proc),
                EIrInstr::Syscall2 => builder.emit_syscall(2, in_proc),
                EIrInstr::Syscall3 => builder.emit_syscall(3, in_proc),
                EIrInstr::Syscall4 => builder.emit_syscall(4, in_proc),
                EIrInstr::Syscall5 => builder.emit_syscall(5, in_proc),
                EIrInstr::Syscall6 => builder.emit_syscall(6, in_proc),
                EIrInstr::Call(name) => builder.emit_call(name.as_str(), in_proc),
                EIrInstr::Ret => builder.emit_ret(in_proc, is_main, returns_value),
                EIrInstr::Proc(_, _, _, _) => {},
                EIrInstr::Const(_, _) => {},
            }
            i += 1;
        }
        assert(iv.take(i as int) =~= iv);
    }
}

/// Once the literals have outnumbered the labels, they still do after more
/// of the program.
pub proof fn lemma_compile_decls_none(prog: Seq<Instr>, b: BuilderView, from: nat, upto: nat)
    requires
        from <= upto,
        compile_decls(prog, b, from) is None,
    ensures
        compile_decls(prog, b, upto) is None,
    decreases upto,
{
    if from < upto {
        lemma_compile_decls_none(prog, b, from, (upto - 1) as nat);
    }
}

} // verus!
