//! The text-buffer code generator: the same instruction templates as the
//! line-based builder, written into three growing texts, and the cast
//! sequences between the value types.

use crate::engine::{data_line, escape_bytes, str_label, DUMP_I_SOURCE, DUMP_STR_SOURCE};
use crate::ir::{
    find_decl, has_main, instrs_view, lemma_body_view, main_name, program_has_main, resolves_to,
    EIrInstr, EType, Instr,
};
use crate::templates::{
    code_exit, code_plain, code_push, code_ret, code_syscall, gen_exit, gen_plain, gen_push,
    gen_ret, gen_syscall, mem, mem_str, pair, pair_str, proc_label, proc_label_str, put,
    put_adjust, put_mov, EReturn,
};
use crate::text::{concat_lines, format_instr, instr_line, push_decimal, views};
use vstd::prelude::*;
use vstd::string::*;
use vstd::utf8::encode_utf8;

verus! {

/// The operand-size keyword for a value type, by its width.
pub open spec fn size_name(t: EType) -> Seq<char> {
    match t {
        EType::I8 | EType::U8 | EType::Bool => "byte"@,
        EType::I16 | EType::U16 => "word"@,
        EType::I32 | EType::U32 | EType::F32 => "dword"@,
        _ => "qword"@,
    }
}

/// An operand of the given size at the top of the stack.
pub open spec fn sized(t: EType, pile: Seq<char>) -> Seq<char> {
    size_name(t) + " "@ + mem(pile, 0)
}

/// Three lines: a conversion into a register, an adjustment of the stack
/// register, and the store of the converted value.
pub open spec fn cast_moved(
    load: Seq<char>,
    source: Seq<char>,
    adjust: Seq<char>,
    pile: Seq<char>,
    amount: Seq<char>,
    store: Seq<char>,
    target: Seq<char>,
) -> Seq<Seq<char>> {
    seq![
        instr_line(load, source),
        instr_line(adjust, pair(pile, amount)),
        instr_line(store, target),
    ]
}

/// The lines that turn the value on top of the stack from one type into
/// another. Pairs without a conversion, equal types among them, take no
/// lines.
pub open spec fn code_cast(from: EType, to: EType, pile: Seq<char>) -> Seq<Seq<char>> {
    let slot = mem(pile, 0);
    match (from, to) {
        (EType::I64, EType::F64) => seq![
            instr_line("cvtsi2sd"@, pair("xmm0"@, sized(from, pile))),
            instr_line("movsd"@, pair(slot, "xmm0"@)),
        ],
        (EType::I32, EType::F64) => cast_moved(
            "cvtsi2sd"@,
            pair("xmm0"@, sized(from, pile)),
            "add"@,
            pile,
            "4"@,
            "movsd"@,
            pair(slot, "xmm0"@),
        ),
        (EType::I64, EType::F32) => cast_moved(
            "cvtsi2ss"@,
            pair("xmm0"@, sized(from, pile)),
            "add"@,
            pile,
            "4"@,
            "movss"@,
            pair(slot, "xmm0"@),
        ),
        (EType::I32, EType::F32) => seq![
            instr_line("cvtsi2ss"@, pair("xmm0"@, sized(from, pile))),
            instr_line("movss"@, pair(slot, "xmm0"@)),
        ],
        (EType::F64, EType::I64) => seq![
            instr_line("movsd"@, pair("xmm0"@, slot)),
            instr_line("cvttsd2si"@, "rax, xmm0"@),
            instr_line("mov"@, pair(slot, "rax"@)),
        ],
        (EType::F64, EType::I32) => seq![
            instr_line("movsd"@, pair("xmm0"@, slot)),
            instr_line("cvttsd2si"@, "eax, xmm0"@),
            instr_line("sub"@, pair(pile, "4"@)),
            instr_line("mov"@, pair(sized(to, pile), "eax"@)),
        ],
        (EType::F32, EType::I64) => seq![
            instr_line("movss"@, pair("xmm0"@, slot)),
            instr_line("cvttss2si"@, "rax, xmm0"@),
            instr_line("sub"@, pair(pile, "4"@)),
            instr_line("mov"@, pair(slot, "rax"@)),
        ],
        (EType::F32, EType::I32) => seq![
            instr_line("movss"@, pair("xmm0"@, slot)),
            instr_line("cvttss2si"@, "eax, xmm0"@),
            instr_line("mov"@, pair(sized(to, pile), "eax"@)),
        ],
        (EType::F32, EType::F64) => seq![
            instr_line("movss"@, pair("xmm0"@, slot)),
            instr_line("cvtss2sd"@, "xmm0, xmm0"@),
            instr_line("add"@, pair(pile, "4"@)),
            instr_line("movsd"@, pair(slot, "xmm0"@)),
        ],
        (EType::F64, EType::F32) => seq![
            instr_line("movsd"@, pair("xmm0"@, slot)),
            instr_line("cvtsd2ss"@, "xmm0, xmm0"@),
            instr_line("sub"@, pair(pile, "4"@)),
            instr_line("movss"@, pair(slot, "xmm0"@)),
        ],
        (EType::I32, EType::I64) | (EType::I16, EType::I64) | (EType::I8, EType::I64) => cast_moved(
            "movsx"@,
            pair("rax"@, sized(from, pile)),
            "add"@,
            pile,
            "4"@,
            "mov"@,
            pair(slot, "rax"@),
        ),
        (EType::U32, EType::I64) | (EType::U32, EType::U64) | (EType::U16, EType::I64) | (
            EType::U16,
            EType::U64,
        ) | (EType::U8, EType::I64) | (EType::U8, EType::U64) => cast_moved(
            "movzx"@,
            pair("rax"@, sized(from, pile)),
            "add"@,
            pile,
            "4"@,
            "mov"@,
            pair(slot, "rax"@),
        ),
        (EType::I64, EType::I32) | (EType::U64, EType::I32) => cast_moved(
            "mov"@,
            pair("eax"@, sized(to, pile)),
            "sub"@,
            pile,
            "4"@,
            "mov"@,
            pair(sized(to, pile), "eax"@),
        ),
        (EType::I32, EType::I16) | (EType::I32, EType::U16) => cast_moved(
            "mov"@,
            pair("ax"@, sized(to, pile)),
            "sub"@,
            pile,
            "6"@,
            "mov"@,
            pair(sized(to, pile), "ax"@),
        ),
        (EType::I32, EType::I8) | (EType::I32, EType::U8) | (EType::I16, EType::I8) | (
            EType::I16,
            EType::U8,
        ) => cast_moved(
            "mov"@,
            pair("al"@, sized(to, pile)),
            "sub"@,
            pile,
            if from == EType::I32 {
                "3"@
            } else {
                "1"@
            },
            "mov"@,
            pair(sized(to, pile), "al"@),
        ),
        (EType::I16, EType::I32) | (EType::I8, EType::I32) => cast_moved(
            "movsx"@,
            pair("eax"@, sized(from, pile)),
            "add"@,
            pile,
            if from == EType::I16 {
                "2"@
            } else {
                "3"@
            },
            "mov"@,
            pair(sized(to, pile), "eax"@),
        ),
        (EType::U16, EType::I32) | (EType::U16, EType::U32) | (EType::U8, EType::I32) | (
            EType::U8,
            EType::U32,
        ) => cast_moved(
            "movzx"@,
            pair("eax"@, sized(from, pile)),
            "add"@,
            pile,
            if from == EType::U16 {
                "2"@
            } else {
                "3"@
            },
            "mov"@,
            pair(sized(to, pile), "eax"@),
        ),
        (EType::I8, EType::I16) | (EType::U8, EType::I16) | (EType::U8, EType::U16) => cast_moved(
            if from == EType::I8 {
                "movsx"@
            } else {
                "movzx"@
            },
            pair("ax"@, sized(from, pile)),
            "add"@,
            pile,
            "1"@,
            "mov"@,
            pair(sized(to, pile), "ax"@),
        ),
        (EType::Bool, EType::I32) | (EType::Bool, EType::I64) => cast_moved(
            "movzx"@,
            pair("rax"@, sized(from, pile)),
            "add"@,
            pile,
            if to == EType::I64 {
                "7"@
            } else {
                "3"@
            },
            if to == EType::I64 {
                "mov"@
            } else {
                "mov dword"@
            },
            pair(slot, "rax"@),
        ),
        (EType::I64, EType::I8) => seq![
            instr_line("mov"@, "al, 0"@),
            instr_line("cmp"@, pair(sized(from, pile), "0"@)),
            instr_line("setne"@, "al"@),
            instr_line("add"@, pair(pile, "1"@)),
            instr_line("mov"@, pair(sized(to, pile), "al"@)),
        ],
        _ => Seq::empty(),
    }
}

/// The operand-size keyword for a value type, by its width.
pub fn size_name_str(t: EType) -> (r: &'static str)
    ensures
        r@ == size_name(t),
{
    match t {
        EType::I8 | EType::U8 | EType::Bool => "byte",
        EType::I16 | EType::U16 => "word",
        EType::I32 | EType::U32 | EType::F32 => "dword",
        _ => "qword",
    }
}

/// An operand of the given size at the top of the stack.
pub fn sized_str(t: EType, pile: &str) -> (r: String)
    ensures
        r@ == sized(t, pile@),
{
    let mut r = String::from_str(size_name_str(t));
    r.append(" ");
    let slot = mem_str(pile, 0);
    r.append(slot.as_str());
    r
}

/// Three lines: a conversion into a register, an adjustment of the stack
/// register, and the store of the converted value.
pub fn gen_cast_moved(
    load: &str,
    source: &str,
    adjust: &str,
    pile: &str,
    amount: &str,
    store: &str,
    target: &str,
) -> (v: Vec<String>)
    ensures
        views(v@) == cast_moved(load@, source@, adjust@, pile@, amount@, store@, target@),
{
    let mut v: Vec<String> = Vec::new();
    put(&mut v, load, source);
    put_adjust(&mut v, adjust, pile, amount);
    put(&mut v, store, target);
    v
}

/// The lines that turn the value on top of the stack from one type into
/// another.
pub fn gen_cast(from: EType, to: EType, pile: &str) -> (v: Vec<String>)
    ensures
        views(v@) == code_cast(from, to, pile@),
{
    let slot = mem_str(pile, 0);
    let source = sized_str(from, pile);
    let target = sized_str(to, pile);
    let mut v: Vec<String> = Vec::new();
    match (from, to) {
        (EType::I64, EType::F64) => {
            put_mov_like(&mut v, "cvtsi2sd", "xmm0", source.as_str());
            put_mov_like(&mut v, "movsd", slot.as_str(), "xmm0");
        },
        (EType::I32, EType::F64) => {
            let src = pair_str("xmm0", source.as_str());
            let dst = pair_str(slot.as_str(), "xmm0");
            v = gen_cast_moved("cvtsi2sd", src.as_str(), "add", pile, "4", "movsd", dst.as_str());
        },
        (EType::I64, EType::F32) => {
            let src = pair_str("xmm0", source.as_str());
            let dst = pair_str(slot.as_str(), "xmm0");
            v = gen_cast_moved("cvtsi2ss", src.as_str(), "add", pile, "4", "movss", dst.as_str());
        },
        (EType::I32, EType::F32) => {
            put_mov_like(&mut v, "cvtsi2ss", "xmm0", source.as_str());
            put_mov_like(&mut v, "movss", slot.as_str(), "xmm0");
        },
        (EType::F64, EType::I64) => {
            put_mov_like(&mut v, "movsd", "xmm0", slot.as_str());
            put(&mut v, "cvttsd2si", "rax, xmm0");
            put_mov(&mut v, slot.as_str(), "rax");
        },
        (EType::F64, EType::I32) => {
            put_mov_like(&mut v, "movsd", "xmm0", slot.as_str());
            put(&mut v, "cvttsd2si", "eax, xmm0");
            put_adjust(&mut v, "sub", pile, "4");
            put_mov(&mut v, target.as_str(), "eax");
        },
        (EType::F32, EType::I64) => {
            put_mov_like(&mut v, "movss", "xmm0", slot.as_str());
            put(&mut v, "cvttss2si", "rax, xmm0");
            put_adjust(&mut v, "sub", pile, "4");
            put_mov(&mut v, slot.as_str(), "rax");
        },
        (EType::F32, EType::I32) => {
            put_mov_like(&mut v, "movss", "xmm0", slot.as_str());
            put(&mut v, "cvttss2si", "eax, xmm0");
            put_mov(&mut v, target.as_str(), "eax");
        },
        (EType::F32, EType::F64) => {
            put_mov_like(&mut v, "movss", "xmm0", slot.as_str());
            put(&mut v, "cvtss2sd", "xmm0, xmm0");
            put_adjust(&mut v, "add", pile, "4");
            put_mov_like(&mut v, "movsd", slot.as_str(), "xmm0");
        },
        (EType::F64, EType::F32) => {
            put_mov_like(&mut v, "movsd", "xmm0", slot.as_str());
            put(&mut v, "cvtsd2ss", "xmm0, xmm0");
            put_adjust(&mut v, "sub", pile, "4");
            put_mov_like(&mut v, "movss", slot.as_str(), "xmm0");
        },
        (EType::I32, EType::I64) | (EType::I16, EType::I64) | (EType::I8, EType::I64) => {
            let src = pair_str("rax", source.as_str());
            let dst = pair_str(slot.as_str(), "rax");
            v = gen_cast_moved("movsx", src.as_str(), "add", pile, "4", "mov", dst.as_str());
        },
        (EType::U32, EType::I64) | (EType::U32, EType::U64) | (EType::U16, EType::I64) | (
            EType::U16,
            EType::U64,
        ) | (EType::U8, EType::I64) | (EType::U8, EType::U64) => {
            let src = pair_str("rax", source.as_str());
            let dst = pair_str(slot.as_str(), "rax");
            v = gen_cast_moved("movzx", src.as_str(), "add", pile, "4", "mov", dst.as_str());
        },
        (EType::I64, EType::I32) | (EType::U64, EType::I32) => {
            let src = pair_str("eax", target.as_str());
            let dst = pair_str(target.as_str(), "eax");
            v = gen_cast_moved("mov", src.as_str(), "sub", pile, "4", "mov", dst.as_str());
        },
        (EType::I32, EType::I16) | (EType::I32, EType::U16) => {
            let src = pair_str("ax", target.as_str());
            let dst = pair_str(target.as_str(), "ax");
            v = gen_cast_moved("mov", src.as_str(), "sub", pile, "6", "mov", dst.as_str());
        },
        (EType::I32, EType::I8) | (EType::I32, EType::U8) | (EType::I16, EType::I8) | (
            EType::I16,
            EType::U8,
        ) => {
            let src = pair_str("al", target.as_str());
            let dst = pair_str(target.as_str(), "al");
            let amount = if from == EType::I32 {
                "3"
            } else {
                "1"
            };
            v = gen_cast_moved("mov", src.as_str(), "sub", pile, amount, "mov", dst.as_str());
        },
        (EType::I16, EType::I32) | (EType::I8, EType::I32) => {
            let src = pair_str("eax", source.as_str());
            let dst = pair_str(target.as_str(), "eax");
            let amount = if from == EType::I16 {
                "2"
            } else {
                "3"
            };
            v = gen_cast_moved("movsx", src.as_str(), "add", pile, amount, "mov", dst.as_str());
        },
        (EType::U16, EType::I32) | (EType::U16, EType::U32) | (EType::U8, EType::I32) | (
            EType::U8,
            EType::U32,
        ) => {
            let src = pair_str("eax", source.as_str());
            let dst = pair_str(target.as_str(), "eax");
            let amount = if from == EType::U16 {
                "2"
            } else {
                "3"
            };
            v = gen_cast_moved("movzx", src.as_str(), "add", pile, amount, "mov", dst.as_str());
        },
        (EType::I8, EType::I16) | (EType::U8, EType::I16) | (EType::U8, EType::U16) => {
            let src = pair_str("ax", source.as_str());
            let dst = pair_str(target.as_str(), "ax");
            let load = if from == EType::I8 {
                "movsx"
            } else {
                "movzx"
            };
            v = gen_cast_moved(load, src.as_str(), "add", pile, "1", "mov", dst.as_str());
        },
        (EType::Bool, EType::I32) | (EType::Bool, EType::I64) => {
            let src = pair_str("rax", source.as_str());
            let dst = pair_str(slot.as_str(), "rax");
            let amount = if to == EType::I64 {
                "7"
            } else {
                "3"
            };
            let store = if to == EType::I64 {
                "mov"
            } else {
                "mov dword"
            };
            v = gen_cast_moved("movzx", src.as_str(), "add", pile, amount, store, dst.as_str());
        },
        (EType::I64, EType::I8) => {
            put(&mut v, "mov", "al, 0");
            put_mov_like(&mut v, "cmp", source.as_str(), "0");
            put(&mut v, "setne", "al");
            put_adjust(&mut v, "add", pile, "1");
            put_mov(&mut v, target.as_str(), "al");
        },
        _ => {},
    }
    v
}

/// Appends `instr a, b`.
pub fn put_mov_like(v: &mut Vec<String>, instr: &str, a: &str, b: &str)
    ensures
        views(final(v)@) == views(old(v)@).push(instr_line(instr@, pair(a@, b@))),
{
    let args = pair_str(a, b);
    put(v, instr, args.as_str());
}

/// The three texts of the generator as character sequences.
#[verifier::ext_equal]
pub struct TextView {
    pub data: Seq<char>,
    pub code: Seq<char>,
    pub funcs: Seq<char>,
    pub str_count: nat,
}

impl TextView {
    /// The state of a fresh generator: the buffers of the bss section and the
    /// head of the data section.
    pub open spec fn initial() -> TextView {
        TextView {
            data: "section .bss\n    dump_buf: resb 21\n    data_stack: resq 4096\n    data_stack_proc: resq 8192\nsection .data\n"@,
            code: Seq::empty(),
            funcs: Seq::empty(),
            str_count: 0,
        }
    }

    /// The lines, each ended by a newline, appended to the procedures' code
    /// or to the entry code.
    pub open spec fn emit(self, in_proc: bool, lines: Seq<Seq<char>>) -> TextView {
        if in_proc {
            TextView { funcs: self.funcs + concat_lines(lines, "\n"@), ..self }
        } else {
            TextView { code: self.code + concat_lines(lines, "\n"@), ..self }
        }
    }

    /// A literal added to the data section under the next free label.
    pub open spec fn add_string(self, bytes: Seq<u8>) -> TextView {
        TextView {
            data: self.data + data_line(str_label(self.str_count), bytes) + "\n"@,
            str_count: self.str_count + 1,
            ..self
        }
    }

    /// A block of lines set off by blank lines in the procedures' code.
    pub open spec fn func_block(self, block: Seq<char>) -> TextView {
        TextView { funcs: self.funcs + "\n"@ + block + "\n"@ + "\n"@, ..self }
    }

    /// The finished image: the data, the procedures, the entry point, the
    /// entry code.
    pub open spec fn build(self) -> Seq<char> {
        self.data + "\nsection .text\n"@ + self.funcs
            + "\nglobal _start\n_start:\n    lea      r15, [data_stack + 4096*8]\n    call     proc_main\n"@
            + self.code
    }
}

/// The text of both runtime helpers.
pub open spec fn dump_function_text() -> Seq<char> {
    DUMP_I_SOURCE@ + "\n\n\n"@ + DUMP_STR_SOURCE@ + "\n"@
}

/// Collects an assembly image in three texts: data, procedures, entry code.
pub struct CAsmBuilder {
    pub l_sData: String,
    pub l_sCode: String,
    pub l_iFuncCode: String,
    pub l_iStrCount: usize,
}

impl View for CAsmBuilder {
    type V = TextView;

    open spec fn view(&self) -> TextView {
        TextView {
            data: self.l_sData@,
            code: self.l_sCode@,
            funcs: self.l_iFuncCode@,
            str_count: self.l_iStrCount as nat,
        }
    }
}

impl CAsmBuilder {
    /// A generator whose data text holds the bss section and the head of the
    /// data section.
    pub fn F_cNew() -> (r: Self)
        ensures
            r@ == TextView::initial(),
    {
        let r = CAsmBuilder {
            l_sData: String::from_str(
                "section .bss\n    dump_buf: resb 21\n    data_stack: resq 4096\n    data_stack_proc: resq 8192\nsection .data\n",
            ),
            l_sCode: String::new(),
            l_iFuncCode: String::new(),
            l_iStrCount: 0,
        };
        r
    }

    /// Appends a line to the data text.
    pub fn F_vEmitDataLine(&mut self, l_sLine: &str)
        ensures
            final(self)@ == (TextView { data: old(self)@.data + l_sLine@ + "\n"@, ..old(self)@ }),
    {
        self.l_sData.append(l_sLine);
        self.l_sData.append("\n");
    }

    /// Adds a literal to the data section and returns its label and its
    /// length in bytes. Every call hands out a fresh label.
    pub fn F_sAddString(&mut self, l_sStr: &str) -> (r: (String, usize))
        requires
            old(self).l_iStrCount < usize::MAX,
        ensures
            r.0@ == str_label(old(self)@.str_count),
            r.1 == encode_utf8(l_sStr@).len(),
            final(self)@ == old(self)@.add_string(encode_utf8(l_sStr@)),
    {
        let mut l_sLabel = String::from_str("str_");
        push_decimal(&mut l_sLabel, self.l_iStrCount as u64);
        self.l_iStrCount += 1;
        let l_lBytes = l_sStr.as_bytes();
        let l_iLen = l_lBytes.len();
        let l_sEscaped = escape_bytes(l_lBytes);
        let mut l_sLine = String::from_str("    ");
        l_sLine.append(l_sLabel.as_str());
        l_sLine.append(": db \"");
        l_sLine.append(l_sEscaped.as_str());
        l_sLine.append("\", 0");
        self.F_vEmitDataLine(l_sLine.as_str());
        (l_sLabel, l_iLen)
    }

    /// Appends a line to the entry code.
    pub fn F_vEmitLine(&mut self, l_sLine: &str)
        ensures
            final(self)@ == (TextView { code: old(self)@.code + l_sLine@ + "\n"@, ..old(self)@ }),
    {
        self.l_sCode.append(l_sLine);
        self.l_sCode.append("\n");
    }

    /// Appends an instruction to the entry code.
    pub fn F_vEmitInstr(&mut self, l_sInstr: &str, l_sArgs: &str)
        ensures
            final(self)@ == (TextView {
                code: old(self)@.code + instr_line(l_sInstr@, l_sArgs@) + "\n"@,
                ..old(self)@
            }),
    {
        let l_sLine = format_instr(l_sInstr, l_sArgs);
        self.F_vEmitLine(l_sLine.as_str());
    }

    /// Appends a line to the procedures' code.
    pub fn F_vEmitFuncLine(&mut self, l_sLine: &str)
        ensures
            final(self)@ == (TextView { funcs: old(self)@.funcs + l_sLine@ + "\n"@, ..old(self)@ }),
    {
        self.l_iFuncCode.append(l_sLine);
        self.l_iFuncCode.append("\n");
    }

    /// Appends an instruction to the procedures' code.
    pub fn F_vEmitFuncInstr(&mut self, l_sInstr: &str, l_sArgs: &str)
        ensures
            final(self)@ == (TextView {
                funcs: old(self)@.funcs + instr_line(l_sInstr@, l_sArgs@) + "\n"@,
                ..old(self)@
            }),
    {
        let l_sLine = format_instr(l_sInstr, l_sArgs);
        self.F_vEmitFuncLine(l_sLine.as_str());
    }

    /// Appends a block of lines, set off by blank lines, to the procedures'
    /// code.
    pub fn vEmitFuncLines(&mut self, l_sLines: &str)
        ensures
            final(self)@ == old(self)@.func_block(l_sLines@),
    {
        self.l_iFuncCode.append("\n");
        self.l_iFuncCode.append(l_sLines);
        self.l_iFuncCode.append("\n");
        self.l_iFuncCode.append("\n");
    }

    /// Appends the lines, each ended by a newline, to the procedures' code
    /// or to the entry code.
    pub fn F_vEmitLines(&mut self, l_bInProc: bool, l_lLines: &Vec<String>)
        ensures
            final(self)@ == old(self)@.emit(l_bInProc, views(l_lLines@)),
    {
        let ghost all = views(l_lLines@);
        let mut i: usize = 0;
        while i < l_lLines.len()
            invariant
                i <= l_lLines.len(),
                all == views(l_lLines@),
                self@ == old(self)@.emit(l_bInProc, all.take(i as int)),
            decreases l_lLines.len() - i,
        {
            proof {
                assert(all.take(i + 1).drop_last() =~= all.take(i as int));
            }
            if l_bInProc {
                self.F_vEmitFuncLine(l_lLines[i].as_str());
            } else {
                self.F_vEmitLine(l_lLines[i].as_str());
            }
            i += 1;
        }
        assert(all.take(i as int) =~= all);
    }

    /// Emits the exit sequence into the entry code.
    pub fn F_vEmitExit(&mut self)
        ensures
            final(self)@ == old(self)@.emit(false, code_exit()),
    {
        self.F_vEmitLines(false, &gen_exit());
    }

    /// The finished image.
    pub fn F_sBuild(self) -> (r: String)
        ensures
            r@ == self@.build(),
    {
        let mut r = self.l_sData;
        r.append("\nsection .text\n");
        r.append(self.l_iFuncCode.as_str());
        r.append(
            "\nglobal _start\n_start:\n    lea      r15, [data_stack + 4096*8]\n    call     proc_main\n",
        );
        r.append(self.l_sCode.as_str());
        r
    }

    /// Adds the two runtime helpers to the procedures' code.
    pub fn F_vEmitDumpFunction(&mut self)
        ensures
            final(self)@ == old(self)@.func_block(dump_function_text()),
    {
        let mut l_sText = String::from_str(DUMP_I_SOURCE);
        l_sText.append("\n\n\n");
        l_sText.append(DUMP_STR_SOURCE);
        l_sText.append("\n");
        self.vEmitFuncLines(l_sText.as_str());
    }

    /// Emits a system call with three arguments.
    pub fn F_vEmitSyscall3(&mut self, l_bInProc: bool, pile: &str)
        ensures
            final(self)@ == old(self)@.emit(l_bInProc, code_syscall(pile@, 3)),
    {
        self.F_vEmitLines(l_bInProc, &gen_syscall(pile, 3));
    }

    /// Emits a system call with no argument.
    pub fn F_vEmitSyscall0(&mut self, l_bInProc: bool, pile: &str)
        ensures
            final(self)@ == old(self)@.emit(l_bInProc, code_syscall(pile@, 0)),
    {
        self.F_vEmitLines(l_bInProc, &gen_syscall(pile, 0));
    }

    /// Emits a system call with one argument.
    pub fn F_vEmitSyscall1(&mut self, l_bInProc: bool, pile: &str)
        ensures
            final(self)@ == old(self)@.emit(l_bInProc, code_syscall(pile@, 1)),
    {
        self.F_vEmitLines(l_bInProc, &gen_syscall(pile, 1));
    }

    /// Emits a system call with two arguments.
    pub fn F_vEmitSyscall2(&mut self, l_bInProc: bool, pile: &str)
        ensures
            final(self)@ == old(self)@.emit(l_bInProc, code_syscall(pile@, 2)),
    {
        self.F_vEmitLines(l_bInProc, &gen_syscall(pile, 2));
    }

    /// Emits a system call with four arguments.
    pub fn F_vEmitSyscall4(&mut self, l_bInProc: bool, pile: &str)
        ensures
            final(self)@ == old(self)@.emit(l_bInProc, code_syscall(pile@, 4)),
    {
        self.F_vEmitLines(l_bInProc, &gen_syscall(pile, 4));
    }

    /// Emits a system call with five arguments.
    pub fn F_vEmitSyscall5(&mut self, l_bInProc: bool, pile: &str)
        ensures
            final(self)@ == old(self)@.emit(l_bInProc, code_syscall(pile@, 5)),
    {
        self.F_vEmitLines(l_bInProc, &gen_syscall(pile, 5));
    }

    /// Emits a system call with six arguments.
    pub fn F_vEmitSyscall6(&mut self, l_bInProc: bool, pile: &str)
        ensures
            final(self)@ == old(self)@.emit(l_bInProc, code_syscall(pile@, 6)),
    {
        self.F_vEmitLines(l_bInProc, &gen_syscall(pile, 6));
    }

    /// Emits the lines that turn the value on top of the stack from one
    /// type into another; nothing outside a procedure.
    pub fn F_vEmitCast(&mut self, l_eFrom: &EType, l_eTo: &EType, l_bInProc: bool, pile: &str)
        ensures
            final(self)@ == if l_bInProc {
                old(self)@.emit(true, code_cast(*l_eFrom, *l_eTo, pile@))
            } else {
                old(self)@
            },
    {
        if !l_bInProc {
            return ;
        }
        self.F_vEmitLines(true, &gen_cast(*l_eFrom, *l_eTo, pile));
    }
}

/// The stack register of this generator.
pub open spec fn fixed_pile() -> Seq<char> {
    "r15"@
}

/// What is said of a declaration inside a body.
pub open spec fn nested_decl_message() -> Seq<char> {
    "Instruction non supportee in statement"@
}

/// What is said when the literals outnumber the labels.
pub open spec fn label_overflow_message() -> Seq<char> {
    "Erreur: trop de chaines litterales"@
}

/// What is said when the program declares no procedure `main`.
pub open spec fn no_main_message() -> Seq<char> {
    "Erreur: proc main non declaree"@
}

/// The texts after one instruction has been compiled, or why it cannot
/// be: a declaration inside a body, or a literal beyond the last label.
pub open spec fn generate_one(
    b: TextView,
    instr: Instr,
    in_proc: bool,
    is_main: bool,
) -> Result<TextView, Seq<char>> {
    let pile = fixed_pile();
    match instr {
        Instr::PushStr(s) => if b.str_count >= usize::MAX {
            Err(label_overflow_message())
        } else {
            Ok(
                b.add_string(encode_utf8(s)).emit(
                    in_proc,
                    code_push(pile, str_label(b.str_count)),
                ),
            )
        },
        Instr::Ret => Ok(
            b.emit(
                in_proc,
                code_ret(
                    pile,
                    if in_proc && !is_main {
                        EReturn::Splice
                    } else {
                        EReturn::Bare
                    },
                ),
            ),
        ),
        Instr::Proc(_, _, _, _) => Err(nested_decl_message()),
        Instr::Const(_, _) => Err(nested_decl_message()),
        _ => match code_plain(instr, pile) {
            Some(lines) => Ok(b.emit(in_proc, lines)),
            None => Ok(b),
        },
    }
}

/// The texts after the instructions have been compiled in order; the
/// first instruction that cannot be compiled decides the error.
pub open spec fn generate_body(
    b: TextView,
    instrs: Seq<Instr>,
    in_proc: bool,
    is_main: bool,
) -> Result<TextView, Seq<char>>
    decreases instrs.len(),
{
    if instrs.len() == 0 {
        Ok(b)
    } else {
        match generate_body(b, instrs.drop_last(), in_proc, is_main) {
            Err(e) => Err(e),
            Ok(prev) => generate_one(prev, instrs.last(), in_proc, is_main),
        }
    }
}

/// The texts after a body: inside a procedure other than `main` the stack
/// register is saved first.
pub open spec fn generate_instrs(
    b: TextView,
    instrs: Seq<Instr>,
    in_proc: bool,
    is_main: bool,
) -> Result<TextView, Seq<char>> {
    if in_proc && !is_main {
        generate_body(
            b.emit(true, seq![instr_line("push"@, fixed_pile())]),
            instrs,
            in_proc,
            is_main,
        )
    } else {
        generate_body(b, instrs, in_proc, is_main)
    }
}

/// The texts after one declaration: its label, for a procedure other than
/// `main` the load of the second stack register, then its body.
pub open spec fn generate_decl(b: TextView, decl: Instr) -> Result<TextView, Seq<char>> {
    let is_main = decl.decl_name() == main_name();
    let labelled = b.emit(true, seq![proc_label(decl.decl_name()) + ":"@]);
    let entered = if is_main {
        labelled
    } else {
        labelled.emit(true, seq![instr_line("lea"@, "r14, [data_stack_proc + 8192*8]"@)])
    };
    generate_instrs(entered, decl.decl_body(), true, is_main)
}

/// The texts after the first `upto` items of the program: every
/// declaration that its name stands for is compiled, in the order of the
/// program.
pub open spec fn generate_decls(prog: Seq<Instr>, b: TextView, upto: nat) -> Result<
    TextView,
    Seq<char>,
>
    decreases upto,
{
    if upto == 0 {
        Ok(b)
    } else {
        let i = upto - 1;
        match generate_decls(prog, b, i as nat) {
            Err(e) => Err(e),
            Ok(prev) => {
                if resolves_to(prog, prog[i].decl_name(), i) {
                    generate_decl(prev, prog[i])
                } else {
                    Ok(prev)
                }
            },
        }
    }
}

/// The image of a program, or why there is none. A program without `main`
/// yields nothing else.
pub open spec fn generate_program(prog: Seq<Instr>) -> Result<Seq<char>, Seq<char>> {
    if !has_main(prog) {
        Err(no_main_message())
    } else {
        match generate_decls(
            prog,
            TextView::initial().func_block(dump_function_text()),
            prog.len(),
        ) {
            Err(e) => Err(e),
            Ok(b) => Ok(b.emit(false, code_exit()).build()),
        }
    }
}

/// A single line, ended by `end`.
pub proof fn lemma_concat_one(line: Seq<char>, end: Seq<char>)
    ensures
        concat_lines(seq![line], end) == line + end,
{
    reveal_with_fuel(concat_lines, 2);
}

/// An error, once met, stays the result for the rest of the program.
pub proof fn lemma_generate_decls_err(prog: Seq<Instr>, b: TextView, from: nat, upto: nat)
    requires
        from <= upto,
        generate_decls(prog, b, from) is Err,
    ensures
        generate_decls(prog, b, upto) == generate_decls(prog, b, from),
    decreases upto,
{
    if from < upto {
        lemma_generate_decls_err(prog, b, from, (upto - 1) as nat);
    }
}

/// An error, once met, stays the result for the rest of the body.
pub proof fn lemma_generate_body_err(
    b: TextView,
    instrs: Seq<Instr>,
    k: int,
    in_proc: bool,
    is_main: bool,
)
    requires
        0 <= k <= instrs.len(),
        generate_body(b, instrs.take(k), in_proc, is_main) is Err,
    ensures
        generate_body(b, instrs, in_proc, is_main) == generate_body(
            b,
            instrs.take(k),
            in_proc,
            is_main,
        ),
    decreases instrs.len() - k,
{
    if k < instrs.len() {
        assert(instrs.take(k + 1).drop_last() =~= instrs.take(k));
        lemma_generate_body_err(b, instrs, k + 1, in_proc, is_main);
    } else {
        assert(instrs.take(k) =~= instrs);
    }
}

/// Compiles programs into assembly images held as text.
pub struct CStackToX86_64;

impl CStackToX86_64 {
    /// Compiles a program. The scan comes first: without a procedure
    /// `main` nothing is emitted. Then the runtime helpers, every
    /// declaration in the order of the program, the exit sequence.
    pub fn F_sCompile(l_lIr: &[EIrInstr]) -> (r: Result<String, String>)
        ensures
            match r {
                Ok(image) => generate_program(instrs_view(l_lIr@)) == Ok::<
                    Seq<char>,
                    Seq<char>,
                >(image@),
                Err(message) => generate_program(instrs_view(l_lIr@)) == Err::<
                    Seq<char>,
                    Seq<char>,
                >(message@),
            },
    {
        let ghost prog = instrs_view(l_lIr@);
        if !program_has_main(l_lIr) {
            return Err(String::from_str("Erreur: proc main non declaree"));
        }
        let mut l_cBuilder = CAsmBuilder::F_cNew();
        l_cBuilder.F_vEmitDumpFunction();
        let ghost start = l_cBuilder@;
        let mut i: usize = 0;
        while i < l_lIr.len()
            invariant
                i <= l_lIr.len(),
                prog == instrs_view(l_lIr@),
                has_main(prog),
                start == TextView::initial().func_block(dump_function_text()),
                generate_decls(prog, start, i as nat) == Ok::<TextView, Seq<char>>(l_cBuilder@),
            decreases l_lIr.len() - i,
        {
            proof {
                lemma_body_view(l_lIr@[i as int]);
            }
            let l_eDone = match &l_lIr[i] {
                EIrInstr::Proc(l_sName, l_lBody, _, _) => Self::F_vCompileDecl(
                    &mut l_cBuilder,
                    l_lIr,
                    i,
                    l_sName,
                    l_lBody,
                ),
                EIrInstr::Const(l_sName, l_lBody) => Self::F_vCompileDecl(
                    &mut l_cBuilder,
                    l_lIr,
                    i,
                    l_sName,
                    l_lBody,
                ),
                _ => Ok(()),
            };
            match l_eDone {
                Ok(_) => {},
                Err(l_sMessage) => {
                    proof {
                        assert(generate_decls(prog, start, (i + 1) as nat) == Err::<
                            TextView,
                            Seq<char>,
                        >(l_sMessage@));
                        lemma_generate_decls_err(prog, start, (i + 1) as nat, prog.len());
                    }
                    return Err(l_sMessage);
                },
            }
            i += 1;
        }
        l_cBuilder.F_vEmitExit();
        Ok(l_cBuilder.F_sBuild())
    }

    /// Compiles the declaration `l_lIr[index]`, whose name and body are
    /// given, if its name stands for it.
    fn F_vCompileDecl(
        l_cBuilder: &mut CAsmBuilder,
        l_lIr: &[EIrInstr],
        index: usize,
        l_sName: &String,
        l_lBody: &Vec<EIrInstr>,
    ) -> (r: Result<(), String>)
        requires
            index < l_lIr@.len(),
            instrs_view(l_lIr@)[index as int].is_decl(),
            instrs_view(l_lIr@)[index as int].decl_name() == l_sName@,
            instrs_view(l_lIr@)[index as int].decl_body() == instrs_view(l_lBody@),
        ensures
            ({
                let prog = instrs_view(l_lIr@);
                let expected = if resolves_to(prog, l_sName@, index as int) {
                    generate_decl(old(l_cBuilder)@, prog[index as int])
                } else {
                    Ok(old(l_cBuilder)@)
                };
                match r {
                    Ok(_) => expected == Ok::<TextView, Seq<char>>(final(l_cBuilder)@),
                    Err(message) => expected == Err::<TextView, Seq<char>>(message@),
                }
            }),
    {
        let l_bStands = match find_decl(l_lIr, l_sName) {
            Some(j) => j == index,
            None => false,
        };
        if !l_bStands {
            return Ok(());
        }
        let l_bIsMain = l_sName.as_str().eq("main");
        let mut l_sLabel = proc_label_str(l_sName.as_str());
        l_sLabel.append(":");
        l_cBuilder.F_vEmitFuncLine(l_sLabel.as_str());
        proof {
            lemma_concat_one(proc_label(l_sName@) + ":"@, "\n"@);
            lemma_concat_one(instr_line("lea"@, "r14, [data_stack_proc + 8192*8]"@), "\n"@);
        }
        assert(l_cBuilder@ =~= old(l_cBuilder)@.emit(true, seq![proc_label(l_sName@) + ":"@]));
        if !l_bIsMain {
            let ghost labelled = l_cBuilder@;
            l_cBuilder.F_vEmitFuncInstr("lea", "r14, [data_stack_proc + 8192*8]");
            assert(l_cBuilder@ =~= labelled.emit(
                true,
                seq![instr_line("lea"@, "r14, [data_stack_proc + 8192*8]"@)],
            ));
        }
        Self::F_vCompileInstrs(l_cBuilder, l_lBody.as_slice(), true, l_bIsMain)
    }

    /// Compiles the instructions in order. Stops at the first one that
    /// cannot be compiled; what was emitted until then stays.
    pub fn F_vCompileInstrs(
        l_cBuilder: &mut CAsmBuilder,
        l_lInstrs: &[EIrInstr],
        l_bInProc: bool,
        l_bIsMain: bool,
    ) -> (r: Result<(), String>)
        ensures
            match r {
                Ok(_) => generate_instrs(
                    old(l_cBuilder)@,
                    instrs_view(l_lInstrs@),
                    l_bInProc,
                    l_bIsMain,
                ) == Ok::<TextView, Seq<char>>(final(l_cBuilder)@),
                Err(message) => generate_instrs(
                    old(l_cBuilder)@,
                    instrs_view(l_lInstrs@),
                    l_bInProc,
                    l_bIsMain,
                ) == Err::<TextView, Seq<char>>(message@),
            },
    {
        let ghost iv = instrs_view(l_lInstrs@);
        if l_bInProc && !l_bIsMain {
            l_cBuilder.F_vEmitFuncInstr("push", "r15");
            proof {
                lemma_concat_one(instr_line("push"@, fixed_pile()), "\n"@);
            }
            assert(l_cBuilder@ =~= old(l_cBuilder)@.emit(
                true,
                seq![instr_line("push"@, fixed_pile())],
            ));
        }
        let ghost start = l_cBuilder@;
        let mut i: usize = 0;
        while i < l_lInstrs.len()
            invariant
                i <= l_lInstrs.len(),
                iv == instrs_view(l_lInstrs@),
                generate_instrs(old(l_cBuilder)@, iv, l_bInProc, l_bIsMain) == generate_body(
                    start,
                    iv,
                    l_bInProc,
                    l_bIsMain,
                ),
                generate_body(start, iv.take(i as int), l_bInProc, l_bIsMain) == Ok::<
                    TextView,
                    Seq<char>,
                >(l_cBuilder@),
            decreases l_lInstrs.len() - i,
        {
            proof {
                assert(iv.take(i + 1).drop_last() =~= iv.take(i as int));
            }
            match Self::F_vCompileInstr(l_cBuilder, &l_lInstrs[i], l_bInProc, l_bIsMain) {
                Ok(_) => {},
                Err(l_sMessage) => {
                    proof {
                        assert(generate_body(start, iv.take(i + 1), l_bInProc, l_bIsMain) == Err::<
                            TextView,
                            Seq<char>,
                        >(l_sMessage@));
                        lemma_generate_body_err(start, iv, i + 1, l_bInProc, l_bIsMain);
                    }
                    return Err(l_sMessage);
                },
            }
            i += 1;
        }
        assert(iv.take(i as int) =~= iv);
        Ok(())
    }

    /// Compiles one instruction.
    pub fn F_vCompileInstr(
        l_cBuilder: &mut CAsmBuilder,
        l_cInstr: &EIrInstr,
        l_bInProc: bool,
        l_bIsMain: bool,
    ) -> (r: Result<(), String>)
        ensures
            match r {
                Ok(_) => generate_one(old(l_cBuilder)@, l_cInstr@, l_bInProc, l_bIsMain) == Ok::<
                    TextView,
                    Seq<char>,
                >(final(l_cBuilder)@),
                Err(message) => generate_one(old(l_cBuilder)@, l_cInstr@, l_bInProc, l_bIsMain)
                    == Err::<TextView, Seq<char>>(message@),
            },
    {
        let pile = "r15";
        match l_cInstr {
            EIrInstr::PushStr(l_sStr) => {
                if l_cBuilder.l_iStrCount == usize::MAX {
                    return Err(String::from_str("Erreur: trop de chaines litterales"));
                }
                let (l_sLabel, _) = l_cBuilder.F_sAddString(l_sStr.as_str());
                l_cBuilder.F_vEmitLines(l_bInProc, &gen_push(pile, l_sLabel.as_str()));
            },
            EIrInstr::Ret => {
                let l_eMode = if l_bInProc && !l_bIsMain {
                    EReturn::Splice
                } else {
                    EReturn::Bare
                };
                l_cBuilder.F_vEmitLines(l_bInProc, &gen_ret(pile, l_eMode));
            },
            EIrInstr::Proc(_, _, _, _) => {
                return Err(String::from_str("Instruction non supportee in statement"));
            },
            EIrInstr::Const(_, _) => {
                return Err(String::from_str("Instruction non supportee in statement"));
            },
            _ => {
                match gen_plain(l_cInstr, pile) {
                    Some(l_lLines) => {
                        l_cBuilder.F_vEmitLines(l_bInProc, &l_lLines);
                    },
                    None => {},
                }
            },
        }
        Ok(())
    }
}

} // verus!
