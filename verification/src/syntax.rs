//! The concrete syntax: the lexer, which turns source text into tokens, and
//! the parser, which turns tokens into the declarations of a program.

use crate::ir::{instrs_view, lemma_body_view, EIrInstr, EType, Instr};
use crate::text::{decimal_int, i64_to_decimal};
use vstd::prelude::*;
use vstd::string::*;

verus! {

/// Whether the character has the Unicode property `White_Space`, as
/// `char::is_whitespace` tells.
pub uninterp spec fn unicode_whitespace(c: char) -> bool;

/// Whether the character is in one of the Unicode number categories, as
/// `char::is_numeric` tells.
pub uninterp spec fn unicode_numeric(c: char) -> bool;

/// Whether the character has the Unicode property `Alphabetic`, as
/// `char::is_alphabetic` tells.
pub uninterp spec fn unicode_alphabetic(c: char) -> bool;

/// The text that formatting with `{:?}` gives for a string: quoted, with
/// escapes.
pub uninterp spec fn debug_str(s: Seq<char>) -> Seq<char>;

/// `char::is_whitespace` of the standard library: a function of the
/// character alone, named here by `unicode_whitespace`.
pub assume_specification[ char::is_whitespace ](c: char) -> (b: bool)
    ensures
        b == unicode_whitespace(c),
;

/// `char::is_numeric` of the standard library: a function of the character
/// alone, named here by `unicode_numeric`.
pub assume_specification[ char::is_numeric ](c: char) -> (b: bool)
    ensures
        b == unicode_numeric(c),
;

/// `char::is_alphabetic` of the standard library: a function of the
/// character alone, named here by `unicode_alphabetic`.
pub assume_specification[ char::is_alphabetic ](c: char) -> (b: bool)
    ensures
        b == unicode_alphabetic(c),
;

/// `char::is_alphanumeric` of the standard library: true exactly for the
/// characters for which `is_alphabetic` or `is_numeric` is.
pub assume_specification[ char::is_alphanumeric ](c: char) -> (b: bool)
    ensures
        b == (unicode_alphabetic(c) || unicode_numeric(c)),
;

/// Formats a string with `{:?}`, the `Debug` implementation of `str` in the
/// standard library: a function of the string alone, named here by
/// `debug_str`.
#[verifier::external_body]
fn F_sDebugStr(s: &str) -> (r: String)
    ensures
        r@ == debug_str(s@),
{
    format!("{:?}", s)
}

/// A token of the source language.
#[derive(Debug)]
pub enum EToken {
    Number(i64),
    String(String),
    Ident(String),
    Const,
    Proc,
    In,
    End,
    Plus,
    Minus,
    Mul,
    Div,
    Mod,
    Dup,
    Swap,
    Puts,
    Dump,
    Syscall0,
    Syscall1,
    Syscall2,
    Syscall3,
    Syscall4,
    Syscall5,
    Syscall6,
    I8,
    U8,
    I16,
    U16,
    I32,
    U32,
    I64,
    U64,
    F32,
    F64,
    Ptr,
    Str,
    Bool,
    Void,
    RetType,
}

/// The mathematical model of a token.
pub enum Token {
    Number(i64),
    String(Seq<char>),
    Ident(Seq<char>),
    Const,
    Proc,
    In,
    End,
    Plus,
    Minus,
    Mul,
    Div,
    Mod,
    Dup,
    Swap,
    Puts,
    Dump,
    Syscall0,
    Syscall1,
    Syscall2,
    Syscall3,
    Syscall4,
    Syscall5,
    Syscall6,
    I8,
    U8,
    I16,
    U16,
    I32,
    U32,
    I64,
    U64,
    F32,
    F64,
    Ptr,
    Str,
    Bool,
    Void,
    RetType,
}

impl View for EToken {
    type V = Token;

    open spec fn view(&self) -> Token {
        match self {
            EToken::Number(n) => Token::Number(*n),
            EToken::String(s) => Token::String(s@),
            EToken::Ident(s) => Token::Ident(s@),
            EToken::Const => Token::Const,
            EToken::Proc => Token::Proc,
            EToken::In => Token::In,
            EToken::End => Token::End,
            EToken::Plus => Token::Plus,
            EToken::Minus => Token::Minus,
            EToken::Mul => Token::Mul,
            EToken::Div => Token::Div,
            EToken::Mod => Token::Mod,
            EToken::Dup => Token::Dup,
            EToken::Swap => Token::Swap,
            EToken::Puts => Token::Puts,
            EToken::Dump => Token::Dump,
            EToken::Syscall0 => Token::Syscall0,
            EToken::Syscall1 => Token::Syscall1,
            EToken::Syscall2 => Token::Syscall2,
            EToken::Syscall3 => Token::Syscall3,
            EToken::Syscall4 => Token::Syscall4,
            EToken::Syscall5 => Token::Syscall5,
            EToken::Syscall6 => Token::Syscall6,
            EToken::I8 => Token::I8,
            EToken::U8 => Token::U8,
            EToken::I16 => Token::I16,
            EToken::U16 => Token::U16,
            EToken::I32 => Token::I32,
            EToken::U32 => Token::U32,
            EToken::I64 => Token::I64,
            EToken::U64 => Token::U64,
            EToken::F32 => Token::F32,
            EToken::F64 => Token::F64,
            EToken::Ptr => Token::Ptr,
            EToken::Str => Token::Str,
            EToken::Bool => Token::Bool,
            EToken::Void => Token::Void,
            EToken::RetType => Token::RetType,
        }
    }
}

/// The models of a sequence of tokens.
pub open spec fn tokens_view(v: Seq<EToken>) -> Seq<Token> {
    Seq::new(v.len(), |i: int| v[i]@)
}

/// The position behind the blanks and comments that begin at `pos`. A
/// comment runs from `#` to the end of its line; `in_comment` tells
/// whether `pos` lies in one.
pub open spec fn skip_blank(s: Seq<char>, pos: int, in_comment: bool) -> int
    decreases s.len() - pos,
{
    if pos < 0 || pos >= s.len() {
        pos
    } else if in_comment {
        skip_blank(s, pos + 1, s[pos] != '\n')
    } else if unicode_whitespace(s[pos]) {
        skip_blank(s, pos + 1, false)
    } else if s[pos] == '#' {
        skip_blank(s, pos + 1, true)
    } else {
        pos
    }
}

/// What an escape stands for: the character behind the backslash names a
/// newline, a tab, a carriage return, a backslash or a quote. No other
/// character makes an escape.
pub open spec fn unescape(c: char) -> Option<char> {
    if c == 'n' {
        Some('\n')
    } else if c == 't' {
        Some('\t')
    } else if c == 'r' {
        Some('\r')
    } else if c == '\\' {
        Some('\\')
    } else if c == '"' {
        Some('"')
    } else {
        None
    }
}

/// What is said of a string that its line does not close.
pub open spec fn unterminated_message() -> Seq<char> {
    "String non terminee"@
}

/// What is said of a backslash at the end of the input.
pub open spec fn escape_end_message() -> Seq<char> {
    "Fin inattendue dans escape"@
}

/// What is said of a backslash before a character that makes no escape.
pub open spec fn bad_escape_message(c: char) -> Seq<char> {
    "Escape inconnu: "@.push(c)
}

/// The rest of a string literal from `pos`, which lies behind the opening
/// quote: what it holds, added to `acc`, and the position behind the
/// closing quote. The literal must be closed, and a backslash in it must
/// begin one of the five escapes.
pub open spec fn read_string(s: Seq<char>, pos: int, acc: Seq<char>) -> Result<
    (Seq<char>, int),
    Seq<char>,
>
    decreases s.len() - pos,
{
    if pos < 0 || pos >= s.len() {
        Err(unterminated_message())
    } else if s[pos] == '"' {
        Ok((acc, pos + 1))
    } else if s[pos] == '\\' {
        if pos + 1 >= s.len() {
            Err(escape_end_message())
        } else {
            match unescape(s[pos + 1]) {
                Some(c) => read_string(s, pos + 2, acc.push(c)),
                None => Err(bad_escape_message(s[pos + 1])),
            }
        }
    } else {
        read_string(s, pos + 1, acc.push(s[pos]))
    }
}

/// Whether the character may stand in an identifier.
pub open spec fn ident_char(c: char) -> bool {
    unicode_alphabetic(c) || unicode_numeric(c) || c == '_'
}

/// The position behind the identifier characters that begin at `pos`.
pub open spec fn ident_end(s: Seq<char>, pos: int) -> int
    decreases s.len() - pos,
{
    if 0 <= pos < s.len() && ident_char(s[pos]) {
        ident_end(s, pos + 1)
    } else {
        pos
    }
}

/// The position behind the numeric characters that begin at `pos`.
pub open spec fn number_end(s: Seq<char>, pos: int) -> int
    decreases s.len() - pos,
{
    if 0 <= pos < s.len() && unicode_numeric(s[pos]) {
        number_end(s, pos + 1)
    } else {
        pos
    }
}

/// The value of a decimal digit; none for any other character.
pub open spec fn digit_value(c: char) -> Option<int> {
    if c == '0' {
        Some(0)
    } else if c == '1' {
        Some(1)
    } else if c == '2' {
        Some(2)
    } else if c == '3' {
        Some(3)
    } else if c == '4' {
        Some(4)
    } else if c == '5' {
        Some(5)
    } else if c == '6' {
        Some(6)
    } else if c == '7' {
        Some(7)
    } else if c == '8' {
        Some(8)
    } else if c == '9' {
        Some(9)
    } else {
        None
    }
}

/// The value of a run of decimal digits; none if another character is
/// among them.
pub open spec fn digits_value(d: Seq<char>) -> Option<int>
    decreases d.len(),
{
    if d.len() == 0 {
        Some(0)
    } else {
        match (digits_value(d.drop_last()), digit_value(d.last())) {
            (Some(v), Some(x)) => Some(v * 10 + x),
            _ => None,
        }
    }
}

/// What is said where a number is expected and no digit stands.
pub open spec fn no_digits_message() -> Seq<char> {
    "Nombre invalide"@
}

/// What is said of digits that are no decimal number of 64 bits.
pub open spec fn bad_number_message() -> Seq<char> {
    "Parse error"@
}

/// The number that begins at `pos`, and the position behind it: an
/// optional `-`, then the numeric characters that follow, which must be
/// decimal digits of a value up to the largest of 64 bits.
pub open spec fn read_number(s: Seq<char>, pos: int) -> Result<(i64, int), Seq<char>> {
    let negative = 0 <= pos < s.len() && s[pos] == '-';
    let start = if negative {
        pos + 1
    } else {
        pos
    };
    let end = number_end(s, start);
    if end <= start {
        Err(no_digits_message())
    } else {
        match digits_value(s.subrange(start, end)) {
            Some(v) => if v > i64::MAX {
                Err(bad_number_message())
            } else if negative {
                Ok(((-v) as i64, end))
            } else {
                Ok((v as i64, end))
            },
            None => Err(bad_number_message()),
        }
    }
}

/// The token that a word stands for: a keyword, a builtin, a type name, or
/// else an identifier.
pub open spec fn word_token(w: Seq<char>) -> Token {
    if w == "ret"@ {
        Token::RetType
    } else if w == "proc"@ {
        Token::Proc
    } else if w == "const"@ {
        Token::Const
    } else if w == "in"@ {
        Token::In
    } else if w == "end"@ {
        Token::End
    } else if w == "dup"@ {
        Token::Dup
    } else if w == "swap"@ {
        Token::Swap
    } else if w == "puts"@ {
        Token::Puts
    } else if w == "dump"@ {
        Token::Dump
    } else if w == "syscall"@ {
        Token::Syscall0
    } else if w == "syscall1"@ {
        Token::Syscall1
    } else if w == "syscall2"@ {
        Token::Syscall2
    } else if w == "syscall3"@ {
        Token::Syscall3
    } else if w == "syscall4"@ {
        Token::Syscall4
    } else if w == "syscall5"@ {
        Token::Syscall5
    } else if w == "syscall6"@ {
        Token::Syscall6
    } else if w == "i8"@ {
        Token::I8
    } else if w == "u8"@ {
        Token::U8
    } else if w == "i16"@ {
        Token::I16
    } else if w == "u16"@ {
        Token::U16
    } else if w == "i32"@ {
        Token::I32
    } else if w == "u32"@ {
        Token::U32
    } else if w == "i64"@ {
        Token::I64
    } else if w == "u64"@ {
        Token::U64
    } else if w == "f32"@ {
        Token::F32
    } else if w == "f64"@ {
        Token::F64
    } else if w == "ptr"@ {
        Token::Ptr
    } else if w == "str"@ {
        Token::Str
    } else if w == "bool"@ {
        Token::Bool
    } else if w == "void"@ {
        Token::Void
    } else {
        Token::Ident(w)
    }
}

/// What is said of a character that begins no token.
pub open spec fn stray_message(c: char) -> Seq<char> {
    "Caractere inattendu: "@.push(c)
}

/// Whether a negative number begins at `pos`: a `-` right before a numeric
/// character.
pub open spec fn negative_starts(s: Seq<char>, pos: int) -> bool {
    0 <= pos && pos + 1 < s.len() && s[pos] == '-' && unicode_numeric(s[pos + 1])
}

/// The token that begins at `pos`, where a character stands, and the
/// position behind it.
pub open spec fn next_token(s: Seq<char>, pos: int) -> Result<(Token, int), Seq<char>> {
    let c = s[pos];
    if c == '"' {
        match read_string(s, pos + 1, Seq::empty()) {
            Ok((text, end)) => Ok((Token::String(text), end)),
            Err(e) => Err(e),
        }
    } else if negative_starts(s, pos) {
        match read_number(s, pos) {
            Ok((n, end)) => Ok((Token::Number(n), end)),
            Err(e) => Err(e),
        }
    } else if c == '+' {
        Ok((Token::Plus, pos + 1))
    } else if c == '-' {
        Ok((Token::Minus, pos + 1))
    } else if c == '*' {
        Ok((Token::Mul, pos + 1))
    } else if c == '/' {
        Ok((Token::Div, pos + 1))
    } else if c == '%' {
        Ok((Token::Mod, pos + 1))
    } else if unicode_numeric(c) {
        match read_number(s, pos) {
            Ok((n, end)) => Ok((Token::Number(n), end)),
            Err(e) => Err(e),
        }
    } else if unicode_alphabetic(c) || c == '_' {
        Ok((word_token(s.subrange(pos, ident_end(s, pos))), ident_end(s, pos)))
    } else {
        Err(stray_message(c))
    }
}

/// The tokens from `pos` to the end of the text, added to `acc`. Every
/// token takes at least one character.
pub open spec fn tokenize_from(s: Seq<char>, pos: int, acc: Seq<Token>) -> Result<
    Seq<Token>,
    Seq<char>,
>
    decreases s.len() - pos,
{
    let start = skip_blank(s, pos, false);
    if start < 0 || start >= s.len() {
        Ok(acc)
    } else {
        match next_token(s, start) {
            Err(e) => Err(e),
            Ok((token, end)) => if pos < end <= s.len() {
                tokenize_from(s, end, acc.push(token))
            } else {
                Ok(acc)
            },
        }
    }
}

/// The tokens of a source text.
pub open spec fn tokenize(s: Seq<char>) -> Result<Seq<Token>, Seq<char>> {
    tokenize_from(s, 0, Seq::empty())
}

/// Blanks and comments are skipped forwards, within the text.
pub proof fn lemma_skip_blank_bounds(s: Seq<char>, pos: int, in_comment: bool)
    requires
        0 <= pos <= s.len(),
    ensures
        pos <= skip_blank(s, pos, in_comment) <= s.len(),
    decreases s.len() - pos,
{
    if pos < s.len() {
        if in_comment {
            lemma_skip_blank_bounds(s, pos + 1, s[pos] != '\n');
        } else if unicode_whitespace(s[pos]) {
            lemma_skip_blank_bounds(s, pos + 1, false);
        } else if s[pos] == '#' {
            lemma_skip_blank_bounds(s, pos + 1, true);
        }
    }
}

/// A string literal ends behind where it began, within the text.
pub proof fn lemma_read_string_bounds(s: Seq<char>, pos: int, acc: Seq<char>)
    requires
        0 <= pos <= s.len(),
    ensures
        read_string(s, pos, acc) is Ok ==> pos < read_string(s, pos, acc)->Ok_0.1 <= s.len(),
    decreases s.len() - pos,
{
    if pos < s.len() && s[pos] != '"' {
        if s[pos] == '\\' {
            if pos + 1 < s.len() {
                match unescape(s[pos + 1]) {
                    Some(c) => {
                        lemma_read_string_bounds(s, pos + 2, acc.push(c));
                    },
                    None => {},
                }
            }
        } else {
            lemma_read_string_bounds(s, pos + 1, acc.push(s[pos]));
        }
    }
}

/// A run of identifier characters ends within the text, and behind where
/// it began if an identifier character stands there.
pub proof fn lemma_ident_end_bounds(s: Seq<char>, pos: int)
    requires
        0 <= pos <= s.len(),
    ensures
        pos <= ident_end(s, pos) <= s.len(),
        pos < s.len() && ident_char(s[pos]) ==> pos < ident_end(s, pos),
    decreases s.len() - pos,
{
    if pos < s.len() && ident_char(s[pos]) {
        lemma_ident_end_bounds(s, pos + 1);
    }
}

/// A run of numeric characters ends within the text, and behind where it
/// began if a numeric character stands there.
pub proof fn lemma_number_end_bounds(s: Seq<char>, pos: int)
    requires
        0 <= pos <= s.len(),
    ensures
        pos <= number_end(s, pos) <= s.len(),
        pos < s.len() && unicode_numeric(s[pos]) ==> pos < number_end(s, pos),
    decreases s.len() - pos,
{
    if pos < s.len() && unicode_numeric(s[pos]) {
        lemma_number_end_bounds(s, pos + 1);
    }
}

/// Every token takes at least one character and ends within the text.
pub proof fn lemma_next_token_bounds(s: Seq<char>, pos: int)
    requires
        0 <= pos < s.len(),
    ensures
        next_token(s, pos) is Ok ==> pos < next_token(s, pos)->Ok_0.1 <= s.len(),
{
    lemma_read_string_bounds(s, pos + 1, Seq::empty());
    lemma_ident_end_bounds(s, pos);
    lemma_number_end_bounds(s, pos);
    if pos + 1 <= s.len() {
        lemma_number_end_bounds(s, pos + 1);
    }
}

/// What an escape stands for; none for a character that makes no escape.
pub fn unescape_exec(c: char) -> (r: Option<char>)
    ensures
        r == unescape(c),
{
    if c == 'n' {
        Some('\n')
    } else if c == 't' {
        Some('\t')
    } else if c == 'r' {
        Some('\r')
    } else if c == '\\' {
        Some('\\')
    } else if c == '"' {
        Some('"')
    } else {
        None
    }
}

/// The value of a decimal digit; none for any other character.
pub fn digit_value_exec(c: char) -> (r: Option<i64>)
    ensures
        match r {
            Some(d) => digit_value(c) == Some(d as int) && 0 <= d <= 9,
            None => digit_value(c) is None,
        },
{
    if c == '0' {
        Some(0)
    } else if c == '1' {
        Some(1)
    } else if c == '2' {
        Some(2)
    } else if c == '3' {
        Some(3)
    } else if c == '4' {
        Some(4)
    } else if c == '5' {
        Some(5)
    } else if c == '6' {
        Some(6)
    } else if c == '7' {
        Some(7)
    } else if c == '8' {
        Some(8)
    } else if c == '9' {
        Some(9)
    } else {
        None
    }
}

/// The token that a word stands for.
pub fn F_eWordToken(l_sWord: String) -> (r: EToken)
    ensures
        r@ == word_token(l_sWord@),
{
    if l_sWord.as_str().eq("ret") {
        EToken::RetType
    } else if l_sWord.as_str().eq("proc") {
        EToken::Proc
    } else if l_sWord.as_str().eq("const") {
        EToken::Const
    } else if l_sWord.as_str().eq("in") {
        EToken::In
    } else if l_sWord.as_str().eq("end") {
        EToken::End
    } else if l_sWord.as_str().eq("dup") {
        EToken::Dup
    } else if l_sWord.as_str().eq("swap") {
        EToken::Swap
    } else if l_sWord.as_str().eq("puts") {
        EToken::Puts
    } else if l_sWord.as_str().eq("dump") {
        EToken::Dump
    } else if l_sWord.as_str().eq("syscall") {
        EToken::Syscall0
    } else if l_sWord.as_str().eq("syscall1") {
        EToken::Syscall1
    } else if l_sWord.as_str().eq("syscall2") {
        EToken::Syscall2
    } else if l_sWord.as_str().eq("syscall3") {
        EToken::Syscall3
    } else if l_sWord.as_str().eq("syscall4") {
        EToken::Syscall4
    } else if l_sWord.as_str().eq("syscall5") {
        EToken::Syscall5
    } else if l_sWord.as_str().eq("syscall6") {
        EToken::Syscall6
    } else if l_sWord.as_str().eq("i8") {
        EToken::I8
    } else if l_sWord.as_str().eq("u8") {
        EToken::U8
    } else if l_sWord.as_str().eq("i16") {
        EToken::I16
    } else if l_sWord.as_str().eq("u16") {
        EToken::U16
    } else if l_sWord.as_str().eq("i32") {
        EToken::I32
    } else if l_sWord.as_str().eq("u32") {
        EToken::U32
    } else if l_sWord.as_str().eq("i64") {
        EToken::I64
    } else if l_sWord.as_str().eq("u64") {
        EToken::U64
    } else if l_sWord.as_str().eq("f32") {
        EToken::F32
    } else if l_sWord.as_str().eq("f64") {
        EToken::F64
    } else if l_sWord.as_str().eq("ptr") {
        EToken::Ptr
    } else if l_sWord.as_str().eq("str") {
        EToken::Str
    } else if l_sWord.as_str().eq("bool") {
        EToken::Bool
    } else if l_sWord.as_str().eq("void") {
        EToken::Void
    } else {
        EToken::Ident(l_sWord)
    }
}

/// The value of a run of digits, as far as it fits in 64 bits.
pub open spec fn fitting_value(d: Seq<char>) -> Option<i64> {
    match digits_value(d) {
        Some(v) => if v > i64::MAX {
            None
        } else {
            Some(v as i64)
        },
        None => None,
    }
}

/// The value of a run of digits is not negative.
pub proof fn lemma_digits_value_nonnegative(d: Seq<char>)
    ensures
        digits_value(d) is Some ==> digits_value(d)->Some_0 >= 0,
    decreases d.len(),
{
    if d.len() > 0 {
        lemma_digits_value_nonnegative(d.drop_last());
    }
}

/// Reads a source text character by character.
pub struct CLexer {
    pub l_sInput: Vec<char>,
    pub l_iPos: usize,
}

impl CLexer {
    /// Whether the position lies within the text or at its end.
    pub open spec fn wf(&self) -> bool {
        self.l_iPos <= self.l_sInput@.len()
    }

    /// A lexer at the beginning of the text.
    pub fn F_cNew(l_sInput: &str) -> (r: Self)
        ensures
            r.l_sInput@ == l_sInput@,
            r.l_iPos == 0,
            r.wf(),
    {
        let mut l_lChars: Vec<char> = Vec::new();
        for l_cChar in it: l_sInput.chars()
            invariant
                l_lChars@ == it.seq().take(it.index() as int),
        {
            l_lChars.push(l_cChar);
        }
        CLexer { l_sInput: l_lChars, l_iPos: 0 }
    }

    /// The character at the position, if one stands there.
    pub fn F_cPeek(&self) -> (r: Option<char>)
        ensures
            r == if self.l_iPos < self.l_sInput@.len() {
                Some(self.l_sInput@[self.l_iPos as int])
            } else {
                None
            },
    {
        if self.l_iPos < self.l_sInput.len() {
            Some(self.l_sInput[self.l_iPos])
        } else {
            None
        }
    }

    /// The character at the position, which moves behind it; at the end of
    /// the text nothing moves.
    pub fn F_cAdvance(&mut self) -> (r: Option<char>)
        ensures
            final(self).l_sInput == old(self).l_sInput,
            r == if old(self).l_iPos < old(self).l_sInput@.len() {
                Some(old(self).l_sInput@[old(self).l_iPos as int])
            } else {
                None
            },
            final(self).l_iPos == if old(self).l_iPos < old(self).l_sInput@.len() {
                old(self).l_iPos + 1
            } else {
                old(self).l_iPos as int
            },
    {
        let l_cChar = self.F_cPeek();
        if self.l_iPos < self.l_sInput.len() {
            self.l_iPos += 1;
        }
        l_cChar
    }

    /// Moves behind blanks and comments.
    pub fn F_vSkipWhitespace(&mut self)
        requires
            old(self).wf(),
        ensures
            final(self).l_sInput == old(self).l_sInput,
            final(self).l_iPos == skip_blank(old(self).l_sInput@, old(self).l_iPos as int, false),
            final(self).wf(),
    {
        let ghost s = self.l_sInput@;
        let mut l_bComment = false;
        while self.l_iPos < self.l_sInput.len()
            invariant
                self.wf(),
                self.l_sInput == old(self).l_sInput,
                s == self.l_sInput@,
                skip_blank(s, old(self).l_iPos as int, false) == skip_blank(
                    s,
                    self.l_iPos as int,
                    l_bComment,
                ),
            decreases self.l_sInput@.len() - self.l_iPos,
        {
            let l_cChar = self.l_sInput[self.l_iPos];
            if l_bComment {
                l_bComment = l_cChar != '\n';
            } else if !l_cChar.is_whitespace() {
                if l_cChar == '#' {
                    l_bComment = true;
                } else {
                    return ;
                }
            }
            self.l_iPos += 1;
        }
    }

    /// Reads a string literal, whose opening quote stands at the position.
    pub fn F_sReadString(&mut self) -> (r: Result<String, String>)
        requires
            old(self).wf(),
        ensures
            final(self).l_sInput == old(self).l_sInput,
            final(self).wf(),
            match r {
                Ok(text) => read_string(
                    old(self).l_sInput@,
                    old(self).l_iPos + 1,
                    Seq::empty(),
                ) == Ok::<(Seq<char>, int), Seq<char>>((text@, final(self).l_iPos as int)),
                Err(message) => read_string(
                    old(self).l_sInput@,
                    old(self).l_iPos + 1,
                    Seq::empty(),
                ) == Err::<(Seq<char>, int), Seq<char>>(message@),
            },
    {
        let ghost s = self.l_sInput@;
        let ghost start = old(self).l_iPos + 1;
        if self.l_iPos >= self.l_sInput.len() {
            return Err(String::from_str("String non terminee"));
        }
        self.l_iPos += 1;
        let mut l_sResult = String::new();
        while self.l_iPos < self.l_sInput.len()
            invariant
                self.wf(),
                self.l_sInput == old(self).l_sInput,
                s == self.l_sInput@,
                start == old(self).l_iPos + 1,
                read_string(s, start, Seq::empty()) == read_string(
                    s,
                    self.l_iPos as int,
                    l_sResult@,
                ),
            decreases self.l_sInput@.len() - self.l_iPos,
        {
            let l_cChar = self.l_sInput[self.l_iPos];
            if l_cChar == '"' {
                self.l_iPos += 1;
                return Ok(l_sResult);
            } else if l_cChar == '\\' {
                if self.l_iPos + 1 >= self.l_sInput.len() {
                    return Err(String::from_str("Fin inattendue dans escape"));
                }
                let l_cNext = self.l_sInput[self.l_iPos + 1];
                match unescape_exec(l_cNext) {
                    Some(l_cMeant) => {
                        l_sResult.push(l_cMeant);
                    },
                    None => {
                        let mut l_sMessage = String::from_str("Escape inconnu: ");
                        l_sMessage.push(l_cNext);
                        return Err(l_sMessage);
                    },
                }
                self.l_iPos += 2;
            } else {
                l_sResult.push(l_cChar);
                self.l_iPos += 1;
            }
        }
        Err(String::from_str("String non terminee"))
    }

    /// Reads the identifier characters at the position.
    pub fn F_sReadIdent(&mut self) -> (r: String)
        requires
            old(self).wf(),
        ensures
            final(self).l_sInput == old(self).l_sInput,
            final(self).wf(),
            final(self).l_iPos == ident_end(old(self).l_sInput@, old(self).l_iPos as int),
            r@ == old(self).l_sInput@.subrange(old(self).l_iPos as int, final(self).l_iPos as int),
    {
        let ghost s = self.l_sInput@;
        let ghost start = self.l_iPos as int;
        let mut l_sResult = String::new();
        while self.l_iPos < self.l_sInput.len()
            invariant
                self.wf(),
                self.l_sInput == old(self).l_sInput,
                s == self.l_sInput@,
                start == old(self).l_iPos,
                start <= self.l_iPos,
                ident_end(s, start) == ident_end(s, self.l_iPos as int),
                l_sResult@ == s.subrange(start, self.l_iPos as int),
            decreases self.l_sInput@.len() - self.l_iPos,
        {
            let l_cChar = self.l_sInput[self.l_iPos];
            if l_cChar.is_alphanumeric() || l_cChar == '_' {
                l_sResult.push(l_cChar);
                self.l_iPos += 1;
            } else {
                return l_sResult;
            }
        }
        l_sResult
    }

    /// Reads the number at the position.
    pub fn F_iReadNumber(&mut self) -> (r: Result<i64, String>)
        requires
            old(self).wf(),
        ensures
            final(self).l_sInput == old(self).l_sInput,
            final(self).wf(),
            match r {
                Ok(n) => read_number(old(self).l_sInput@, old(self).l_iPos as int) == Ok::<
                    (i64, int),
                    Seq<char>,
                >((n, final(self).l_iPos as int)),
                Err(message) => read_number(old(self).l_sInput@, old(self).l_iPos as int) == Err::<
                    (i64, int),
                    Seq<char>,
                >(message@),
            },
    {
        let ghost s = self.l_sInput@;
        let l_iLen = self.l_sInput.len();
        let l_bNeg = self.l_iPos < l_iLen && self.l_sInput[self.l_iPos] == '-';
        if l_bNeg {
            self.l_iPos += 1;
        }
        let l_iStart = self.l_iPos;
        let mut l_iVal: Option<i64> = Some(0);
        let mut l_bMore = self.l_iPos < l_iLen && self.l_sInput[self.l_iPos].is_numeric();
        while l_bMore
            invariant
                self.wf(),
                self.l_sInput == old(self).l_sInput,
                s == self.l_sInput@,
                l_iLen == s.len(),
                l_iStart <= self.l_iPos,
                l_bNeg == (old(self).l_iPos < s.len() && s[old(self).l_iPos as int] == '-'),
                l_iStart == old(self).l_iPos + if l_bNeg {
                    1int
                } else {
                    0int
                },
                l_bMore == (self.l_iPos < l_iLen && unicode_numeric(s[self.l_iPos as int])),
                number_end(s, l_iStart as int) == number_end(s, self.l_iPos as int),
                l_iVal == fitting_value(s.subrange(l_iStart as int, self.l_iPos as int)),
                l_iVal is Some ==> l_iVal->Some_0 >= 0,
            decreases self.l_sInput@.len() - self.l_iPos,
        {
            let l_cChar = self.l_sInput[self.l_iPos];
            let ghost seen = s.subrange(l_iStart as int, self.l_iPos as int);
            let ghost more = s.subrange(l_iStart as int, self.l_iPos + 1);
            proof {
                assert(more.drop_last() =~= seen);
                lemma_digits_value_nonnegative(seen);
            }
            l_iVal = match (l_iVal, digit_value_exec(l_cChar)) {
                (Some(l_iV), Some(l_iD)) => match l_iV.checked_mul(10) {
                    Some(l_iTen) => l_iTen.checked_add(l_iD),
                    None => None,
                },
                _ => None,
            };
            self.l_iPos += 1;
            l_bMore = self.l_iPos < l_iLen && self.l_sInput[self.l_iPos].is_numeric();
        }
        proof {
            lemma_digits_value_nonnegative(s.subrange(l_iStart as int, self.l_iPos as int));
        }
        if self.l_iPos == l_iStart {
            return Err(String::from_str("Nombre invalide"));
        }
        match l_iVal {
            Some(l_iV) => Ok(
                if l_bNeg {
                    -l_iV
                } else {
                    l_iV
                },
            ),
            None => Err(String::from_str("Parse error")),
        }
    }

    /// Reads the token at the position, where the character `l_cChar`
    /// stands.
    pub fn F_eNextToken(&mut self, l_cChar: char) -> (r: Result<EToken, String>)
        requires
            old(self).wf(),
            old(self).l_iPos < old(self).l_sInput@.len(),
            l_cChar == old(self).l_sInput@[old(self).l_iPos as int],
        ensures
            final(self).l_sInput == old(self).l_sInput,
            final(self).wf(),
            match r {
                Ok(token) => next_token(old(self).l_sInput@, old(self).l_iPos as int) == Ok::<
                    (Token, int),
                    Seq<char>,
                >((token@, final(self).l_iPos as int)),
                Err(message) => next_token(old(self).l_sInput@, old(self).l_iPos as int) == Err::<
                    (Token, int),
                    Seq<char>,
                >(message@),
            },
    {
        let l_iLen = self.l_sInput.len();
        let l_bNumberFollows = self.l_iPos + 1 < l_iLen && self.l_sInput[self.l_iPos
            + 1].is_numeric();
        if l_cChar == '"' {
            match self.F_sReadString() {
                Ok(l_sStr) => Ok(EToken::String(l_sStr)),
                Err(l_sMessage) => Err(l_sMessage),
            }
        } else if l_cChar == '-' && l_bNumberFollows {
            match self.F_iReadNumber() {
                Ok(l_iNum) => Ok(EToken::Number(l_iNum)),
                Err(l_sMessage) => Err(l_sMessage),
            }
        } else if l_cChar == '+' {
            self.l_iPos += 1;
            Ok(EToken::Plus)
        } else if l_cChar == '-' {
            self.l_iPos += 1;
            Ok(EToken::Minus)
        } else if l_cChar == '*' {
            self.l_iPos += 1;
            Ok(EToken::Mul)
        } else if l_cChar == '/' {
            self.l_iPos += 1;
            Ok(EToken::Div)
        } else if l_cChar == '%' {
            self.l_iPos += 1;
            Ok(EToken::Mod)
        } else if l_cChar.is_numeric() {
            match self.F_iReadNumber() {
                Ok(l_iNum) => Ok(EToken::Number(l_iNum)),
                Err(l_sMessage) => Err(l_sMessage),
            }
        } else if l_cChar.is_alphabetic() || l_cChar == '_' {
            let l_sIdent = self.F_sReadIdent();
            Ok(F_eWordToken(l_sIdent))
        } else {
            let mut l_sMessage = String::from_str("Caractere inattendu: ");
            l_sMessage.push(l_cChar);
            Err(l_sMessage)
        }
    }

    /// Reads the tokens from the position to the end of the text.
    pub fn F_lTokenize(&mut self) -> (r: Result<Vec<EToken>, String>)
        requires
            old(self).wf(),
        ensures
            final(self).l_sInput == old(self).l_sInput,
            final(self).wf(),
            match r {
                Ok(tokens) => tokenize_from(
                    old(self).l_sInput@,
                    old(self).l_iPos as int,
                    Seq::empty(),
                ) == Ok::<Seq<Token>, Seq<char>>(tokens_view(tokens@)),
                Err(message) => tokenize_from(
                    old(self).l_sInput@,
                    old(self).l_iPos as int,
                    Seq::empty(),
                ) == Err::<Seq<Token>, Seq<char>>(message@),
            },
    {
        let ghost s = self.l_sInput@;
        let ghost whole = tokenize_from(s, self.l_iPos as int, Seq::empty());
        let mut l_lTokens: Vec<EToken> = Vec::new();
        assert(tokens_view(l_lTokens@) =~= Seq::<Token>::empty());
        loop
            invariant
                self.wf(),
                self.l_sInput == old(self).l_sInput,
                s == self.l_sInput@,
                whole == tokenize_from(s, old(self).l_iPos as int, Seq::empty()),
                whole == tokenize_from(s, self.l_iPos as int, tokens_view(l_lTokens@)),
            decreases self.l_sInput@.len() - self.l_iPos,
        {
            let ghost from = self.l_iPos as int;
            let ghost acc = tokens_view(l_lTokens@);
            proof {
                lemma_skip_blank_bounds(s, from, false);
            }
            self.F_vSkipWhitespace();
            let l_cChar = match self.F_cPeek() {
                None => {
                    return Ok(l_lTokens);
                },
                Some(l_cChar) => l_cChar,
            };
            proof {
                lemma_next_token_bounds(s, self.l_iPos as int);
            }
            match self.F_eNextToken(l_cChar) {
                Err(l_sMessage) => {
                    return Err(l_sMessage);
                },
                Ok(l_eToken) => {
                    l_lTokens.push(l_eToken);
                    assert(tokens_view(l_lTokens@) =~= acc.push(l_eToken@));
                },
            }
        }
    }
}

/// The type that a token names.
pub open spec fn token_type(t: Token) -> Option<EType> {
    match t {
        Token::I8 => Some(EType::I8),
        Token::U8 => Some(EType::U8),
        Token::I16 => Some(EType::I16),
        Token::U16 => Some(EType::U16),
        Token::I32 => Some(EType::I32),
        Token::U32 => Some(EType::U32),
        Token::I64 => Some(EType::I64),
        Token::U64 => Some(EType::U64),
        Token::F32 => Some(EType::F32),
        Token::F64 => Some(EType::F64),
        Token::Ptr => Some(EType::Ptr),
        Token::Str => Some(EType::Str),
        Token::Bool => Some(EType::Bool),
        Token::Void => Some(EType::Void),
        _ => None,
    }
}

/// Whether the token names the type of a parameter: any type but `void`.
pub open spec fn is_param_type(t: Token) -> bool {
    token_type(t) is Some && !(t is Void)
}

/// A number that tells the variants of a token apart.
pub open spec fn token_kind(t: Token) -> int {
    match t {
        Token::Number(_) => 0,
        Token::String(_) => 1,
        Token::Ident(_) => 2,
        Token::Const => 3,
        Token::Proc => 4,
        Token::In => 5,
        Token::End => 6,
        Token::Plus => 7,
        Token::Minus => 8,
        Token::Mul => 9,
        Token::Div => 10,
        Token::Mod => 11,
        Token::Dup => 12,
        Token::Swap => 13,
        Token::Puts => 14,
        Token::Dump => 15,
        Token::Syscall0 => 16,
        Token::Syscall1 => 17,
        Token::Syscall2 => 18,
        Token::Syscall3 => 19,
        Token::Syscall4 => 20,
        Token::Syscall5 => 21,
        Token::Syscall6 => 22,
        Token::I8 => 23,
        Token::U8 => 24,
        Token::I16 => 25,
        Token::U16 => 26,
        Token::I32 => 27,
        Token::U32 => 28,
        Token::I64 => 29,
        Token::U64 => 30,
        Token::F32 => 31,
        Token::F64 => 32,
        Token::Ptr => 33,
        Token::Str => 34,
        Token::Bool => 35,
        Token::Void => 36,
        Token::RetType => 37,
    }
}

/// The text that formatting with `{:?}` gives for a token.
pub open spec fn token_debug(t: Token) -> Seq<char> {
    match t {
        Token::Number(n) => "Number("@ + decimal_int(n as int) + ")"@,
        Token::String(s) => "String("@ + debug_str(s) + ")"@,
        Token::Ident(s) => "Ident("@ + debug_str(s) + ")"@,
        Token::Const => "Const"@,
        Token::Proc => "Proc"@,
        Token::In => "In"@,
        Token::End => "End"@,
        Token::Plus => "Plus"@,
        Token::Minus => "Minus"@,
        Token::Mul => "Mul"@,
        Token::Div => "Div"@,
        Token::Mod => "Mod"@,
        Token::Dup => "Dup"@,
        Token::Swap => "Swap"@,
        Token::Puts => "Puts"@,
        Token::Dump => "Dump"@,
        Token::Syscall0 => "Syscall0"@,
        Token::Syscall1 => "Syscall1"@,
        Token::Syscall2 => "Syscall2"@,
        Token::Syscall3 => "Syscall3"@,
        Token::Syscall4 => "Syscall4"@,
        Token::Syscall5 => "Syscall5"@,
        Token::Syscall6 => "Syscall6"@,
        Token::I8 => "I8"@,
        Token::U8 => "U8"@,
        Token::I16 => "I16"@,
        Token::U16 => "U16"@,
        Token::I32 => "I32"@,
        Token::U32 => "U32"@,
        Token::I64 => "I64"@,
        Token::U64 => "U64"@,
        Token::F32 => "F32"@,
        Token::F64 => "F64"@,
        Token::Ptr => "Ptr"@,
        Token::Str => "Str"@,
        Token::Bool => "Bool"@,
        Token::Void => "Void"@,
        Token::RetType => "RetType"@,
    }
}

/// What is said where the tokens end too early.
pub open spec fn end_message() -> Seq<char> {
    "Unexpected end of input"@
}

/// What is said where another token was expected.
pub open spec fn expected_message(expected: Token, got: Token) -> Seq<char> {
    "Expected "@ + token_debug(expected) + ", got "@ + token_debug(got)
}

/// What is said where a type name was expected.
pub open spec fn expected_type_message(got: Token) -> Seq<char> {
    "Expected type, got "@ + token_debug(got)
}

/// What is said of a token that begins no instruction.
pub open spec fn unexpected_message(got: Token) -> Seq<char> {
    "Unexpected token: "@ + token_debug(got)
}

/// What is said where a procedure has no name.
pub open spec fn proc_name_message() -> Seq<char> {
    "Expected proc name"@
}

/// What is said where a constant has no name.
pub open spec fn const_name_message() -> Seq<char> {
    "Expected const name"@
}

/// What is said of a token that begins no declaration.
pub open spec fn declaration_message() -> Seq<char> {
    "Expected proc declaration"@
}

/// Why the token at `pos` is not the expected one, if it is not.
pub open spec fn expect(tokens: Seq<Token>, pos: int, expected: Token) -> Option<Seq<char>> {
    if pos < 0 || pos >= tokens.len() {
        Some(end_message())
    } else if tokens[pos] == expected {
        None
    } else {
        Some(expected_message(expected, tokens[pos]))
    }
}

/// The instruction that a token stands for.
pub open spec fn parse_instr(t: Token) -> Result<Instr, Seq<char>> {
    match t {
        Token::Number(n) => Ok(Instr::PushI64(n)),
        Token::String(s) => Ok(Instr::PushStr(s)),
        Token::Ident(name) => Ok(Instr::Call(name)),
        Token::Plus => Ok(Instr::AddI64),
        Token::Minus => Ok(Instr::SubI64),
        Token::Mul => Ok(Instr::MulI64),
        Token::Div => Ok(Instr::DivI64),
        Token::Mod => Ok(Instr::ModI64),
        Token::Dup => Ok(Instr::Dup),
        Token::Swap => Ok(Instr::Swap),
        Token::Puts => Ok(Instr::Puts),
        Token::Dump => Ok(Instr::Dump),
        Token::Syscall0 => Ok(Instr::Syscall0),
        Token::Syscall1 => Ok(Instr::Syscall1),
        Token::Syscall2 => Ok(Instr::Syscall2),
        Token::Syscall3 => Ok(Instr::Syscall3),
        Token::Syscall4 => Ok(Instr::Syscall4),
        Token::Syscall5 => Ok(Instr::Syscall5),
        Token::Syscall6 => Ok(Instr::Syscall6),
        Token::End => Ok(Instr::Ret),
        _ => Err(unexpected_message(t)),
    }
}

/// The position behind the parameter types that begin at `pos`.
pub open spec fn params_end(tokens: Seq<Token>, pos: int) -> int
    decreases tokens.len() - pos,
{
    if 0 <= pos < tokens.len() && is_param_type(tokens[pos]) {
        params_end(tokens, pos + 1)
    } else {
        pos
    }
}

/// The types that the tokens from `from` up to `to` name.
pub open spec fn param_types(tokens: Seq<Token>, from: int, to: int) -> Seq<EType> {
    Seq::new((to - from) as nat, |i: int| token_type(tokens[from + i])->Some_0)
}

/// The instructions of a body from `pos` to its `end`, added to `acc`, with
/// the `Ret` that ends every body, and the position behind `end`. A body
/// that the tokens do not close is an error.
pub open spec fn parse_body(tokens: Seq<Token>, pos: int, acc: Seq<Instr>) -> Result<
    (Seq<Instr>, int),
    Seq<char>,
>
    decreases tokens.len() - pos,
{
    if pos < 0 || pos >= tokens.len() {
        Err(end_message())
    } else if tokens[pos] is End {
        Ok((acc.push(Instr::Ret), pos + 1))
    } else {
        match parse_instr(tokens[pos]) {
            Err(e) => Err(e),
            Ok(instr) => parse_body(tokens, pos + 1, acc.push(instr)),
        }
    }
}

/// The rest of a declaration from `in` on: the `in`, then its body.
pub open spec fn parse_in_body(tokens: Seq<Token>, pos: int) -> Result<
    (Seq<Instr>, int),
    Seq<char>,
> {
    match expect(tokens, pos, Token::In) {
        Some(e) => Err(e),
        None => parse_body(tokens, pos + 1, Seq::empty()),
    }
}

/// The procedure declared at `pos`, `proc <name> <type>* [ret <type>] in
/// <body> end`, and the position behind it.
pub open spec fn parse_proc(tokens: Seq<Token>, pos: int) -> Result<(Instr, int), Seq<char>> {
    match expect(tokens, pos, Token::Proc) {
        Some(e) => Err(e),
        None => if !(pos + 1 < tokens.len() && tokens[pos + 1] is Ident) {
            Err(proc_name_message())
        } else {
            let name = tokens[pos + 1]->Ident_0;
            let after = params_end(tokens, pos + 2);
            let params = param_types(tokens, pos + 2, after);
            if after < tokens.len() && tokens[after] is RetType {
                if after + 1 >= tokens.len() {
                    Err(end_message())
                } else {
                    match token_type(tokens[after + 1]) {
                        None => Err(expected_type_message(tokens[after + 1])),
                        Some(ret) => match parse_in_body(tokens, after + 2) {
                            Err(e) => Err(e),
                            Ok((body, end)) => Ok((Instr::Proc(name, body, params, ret), end)),
                        },
                    }
                }
            } else {
                match parse_in_body(tokens, after) {
                    Err(e) => Err(e),
                    Ok((body, end)) => Ok((Instr::Proc(name, body, params, EType::Void), end)),
                }
            }
        },
    }
}

/// The constant declared at `pos`, `const <name> in <body> end`, and the
/// position behind it.
pub open spec fn parse_const(tokens: Seq<Token>, pos: int) -> Result<(Instr, int), Seq<char>> {
    match expect(tokens, pos, Token::Const) {
        Some(e) => Err(e),
        None => if !(pos + 1 < tokens.len() && tokens[pos + 1] is Ident) {
            Err(const_name_message())
        } else {
            match parse_in_body(tokens, pos + 2) {
                Err(e) => Err(e),
                Ok((body, end)) => Ok((Instr::Const(tokens[pos + 1]->Ident_0, body), end)),
            }
        },
    }
}

/// The declaration at `pos`, where a token stands.
pub open spec fn parse_decl(tokens: Seq<Token>, pos: int) -> Result<(Instr, int), Seq<char>> {
    if tokens[pos] is Proc {
        parse_proc(tokens, pos)
    } else if tokens[pos] is Const {
        parse_const(tokens, pos)
    } else {
        Err(declaration_message())
    }
}

/// The declarations from `pos` to the end of the tokens, added to `acc`.
/// Every declaration takes at least one token.
pub open spec fn parse_program(tokens: Seq<Token>, pos: int, acc: Seq<Instr>) -> Result<
    Seq<Instr>,
    Seq<char>,
>
    decreases tokens.len() - pos,
{
    if pos < 0 || pos >= tokens.len() {
        Ok(acc)
    } else {
        match parse_decl(tokens, pos) {
            Err(e) => Err(e),
            Ok((decl, end)) => if pos < end <= tokens.len() {
                parse_program(tokens, end, acc.push(decl))
            } else {
                Ok(acc)
            },
        }
    }
}

/// The program that a source text stands for, or what is wrong with it.
pub open spec fn parse_source(s: Seq<char>) -> Result<Seq<Instr>, Seq<char>> {
    match tokenize(s) {
        Err(e) => Err(e),
        Ok(tokens) => parse_program(tokens, 0, Seq::empty()),
    }
}

/// A body ends behind where it began, within the tokens.
pub proof fn lemma_parse_body_bounds(tokens: Seq<Token>, pos: int, acc: Seq<Instr>)
    requires
        0 <= pos <= tokens.len(),
    ensures
        parse_body(tokens, pos, acc) is Ok ==> pos < parse_body(tokens, pos, acc)->Ok_0.1
            <= tokens.len(),
    decreases tokens.len() - pos,
{
    if pos < tokens.len() && !(tokens[pos] is End) {
        match parse_instr(tokens[pos]) {
            Err(_) => {},
            Ok(instr) => {
                lemma_parse_body_bounds(tokens, pos + 1, acc.push(instr));
            },
        }
    }
}

/// A run of parameter types ends at or behind where it began, within the
/// tokens.
pub proof fn lemma_params_end_bounds(tokens: Seq<Token>, pos: int)
    requires
        0 <= pos <= tokens.len(),
    ensures
        pos <= params_end(tokens, pos) <= tokens.len(),
    decreases tokens.len() - pos,
{
    if pos < tokens.len() && is_param_type(tokens[pos]) {
        lemma_params_end_bounds(tokens, pos + 1);
    }
}

/// A declaration ends behind where it began, within the tokens.
pub proof fn lemma_parse_decl_bounds(tokens: Seq<Token>, pos: int)
    requires
        0 <= pos < tokens.len(),
    ensures
        parse_decl(tokens, pos) is Ok ==> pos < parse_decl(tokens, pos)->Ok_0.1 <= tokens.len(),
{
    if pos + 2 <= tokens.len() {
        lemma_params_end_bounds(tokens, pos + 2);
        let after = params_end(tokens, pos + 2);
        if after + 1 <= tokens.len() {
            lemma_parse_body_bounds(tokens, after + 1, Seq::empty());
        }
        if after + 3 <= tokens.len() {
            lemma_parse_body_bounds(tokens, after + 3, Seq::empty());
        }
    }
    if pos + 3 <= tokens.len() {
        lemma_parse_body_bounds(tokens, pos + 3, Seq::empty());
    }
}

impl EToken {
    /// A number that tells the variants apart.
    pub fn F_iKind(&self) -> (r: u8)
        ensures
            r == token_kind(self@),
    {
        match self {
            EToken::Number(_) => 0,
            EToken::String(_) => 1,
            EToken::Ident(_) => 2,
            EToken::Const => 3,
            EToken::Proc => 4,
            EToken::In => 5,
            EToken::End => 6,
            EToken::Plus => 7,
            EToken::Minus => 8,
            EToken::Mul => 9,
            EToken::Div => 10,
            EToken::Mod => 11,
            EToken::Dup => 12,
            EToken::Swap => 13,
            EToken::Puts => 14,
            EToken::Dump => 15,
            EToken::Syscall0 => 16,
            EToken::Syscall1 => 17,
            EToken::Syscall2 => 18,
            EToken::Syscall3 => 19,
            EToken::Syscall4 => 20,
            EToken::Syscall5 => 21,
            EToken::Syscall6 => 22,
            EToken::I8 => 23,
            EToken::U8 => 24,
            EToken::I16 => 25,
            EToken::U16 => 26,
            EToken::I32 => 27,
            EToken::U32 => 28,
            EToken::I64 => 29,
            EToken::U64 => 30,
            EToken::F32 => 31,
            EToken::F64 => 32,
            EToken::Ptr => 33,
            EToken::Str => 34,
            EToken::Bool => 35,
            EToken::Void => 36,
            EToken::RetType => 37,
        }
    }

    /// Whether both tokens are the same.
    pub fn F_bEquals(&self, l_eOther: &EToken) -> (r: bool)
        ensures
            r == (self@ == l_eOther@),
    {
        match (self, l_eOther) {
            (EToken::Number(a), EToken::Number(b)) => *a == *b,
            (EToken::String(a), EToken::String(b)) => {
                *a == *b
            },
            (EToken::Ident(a), EToken::Ident(b)) => *a == *b,
            _ => {
                let l_iKind = self.F_iKind();
                l_iKind >= 3 && l_iKind == l_eOther.F_iKind()
            },
        }
    }

    /// The text that formatting with `{:?}` gives for the token.
    pub fn F_sDebug(&self) -> (r: String)
        ensures
            r@ == token_debug(self@),
    {
        match self {
            EToken::Number(n) => {
                let mut l_sText = String::from_str("Number(");
                let l_sNumber = i64_to_decimal(*n);
                l_sText.append(l_sNumber.as_str());
                l_sText.append(")");
                l_sText
            },
            EToken::String(s) => {
                let mut l_sText = String::from_str("String(");
                let l_sQuoted = F_sDebugStr(s.as_str());
                l_sText.append(l_sQuoted.as_str());
                l_sText.append(")");
                l_sText
            },
            EToken::Ident(s) => {
                let mut l_sText = String::from_str("Ident(");
                let l_sQuoted = F_sDebugStr(s.as_str());
                l_sText.append(l_sQuoted.as_str());
                l_sText.append(")");
                l_sText
            },
            EToken::Const => String::from_str("Const"),
            EToken::Proc => String::from_str("Proc"),
            EToken::In => String::from_str("In"),
            EToken::End => String::from_str("End"),
            EToken::Plus => String::from_str("Plus"),
            EToken::Minus => String::from_str("Minus"),
            EToken::Mul => String::from_str("Mul"),
            EToken::Div => String::from_str("Div"),
            EToken::Mod => String::from_str("Mod"),
            EToken::Dup => String::from_str("Dup"),
            EToken::Swap => String::from_str("Swap"),
            EToken::Puts => String::from_str("Puts"),
            EToken::Dump => String::from_str("Dump"),
            EToken::Syscall0 => String::from_str("Syscall0"),
            EToken::Syscall1 => String::from_str("Syscall1"),
            EToken::Syscall2 => String::from_str("Syscall2"),
            EToken::Syscall3 => String::from_str("Syscall3"),
            EToken::Syscall4 => String::from_str("Syscall4"),
            EToken::Syscall5 => String::from_str("Syscall5"),
            EToken::Syscall6 => String::from_str("Syscall6"),
            EToken::I8 => String::from_str("I8"),
            EToken::U8 => String::from_str("U8"),
            EToken::I16 => String::from_str("I16"),
            EToken::U16 => String::from_str("U16"),
            EToken::I32 => String::from_str("I32"),
            EToken::U32 => String::from_str("U32"),
            EToken::I64 => String::from_str("I64"),
            EToken::U64 => String::from_str("U64"),
            EToken::F32 => String::from_str("F32"),
            EToken::F64 => String::from_str("F64"),
            EToken::Ptr => String::from_str("Ptr"),
            EToken::Str => String::from_str("Str"),
            EToken::Bool => String::from_str("Bool"),
            EToken::Void => String::from_str("Void"),
            EToken::RetType => String::from_str("RetType"),
        }
    }

    /// The type that the token names.
    pub fn F_eType(&self) -> (r: Option<EType>)
        ensures
            r == token_type(self@),
    {
        match self {
            EToken::I8 => Some(EType::I8),
            EToken::U8 => Some(EType::U8),
            EToken::I16 => Some(EType::I16),
            EToken::U16 => Some(EType::U16),
            EToken::I32 => Some(EType::I32),
            EToken::U32 => Some(EType::U32),
            EToken::I64 => Some(EType::I64),
            EToken::U64 => Some(EType::U64),
            EToken::F32 => Some(EType::F32),
            EToken::F64 => Some(EType::F64),
            EToken::Ptr => Some(EType::Ptr),
            EToken::Str => Some(EType::Str),
            EToken::Bool => Some(EType::Bool),
            EToken::Void => Some(EType::Void),
            _ => None,
        }
    }
}

/// Reads declarations from a sequence of tokens.
pub struct CParser {
    pub l_lTokens: Vec<EToken>,
    pub l_iPos: usize,
}

impl CParser {
    /// Whether the position lies within the tokens or at their end.
    pub open spec fn wf(&self) -> bool {
        self.l_iPos <= self.l_lTokens@.len()
    }

    /// The models of the tokens.
    pub open spec fn tokens(&self) -> Seq<Token> {
        tokens_view(self.l_lTokens@)
    }

    /// A parser at the beginning of the tokens.
    pub fn F_cNew(l_lTokens: Vec<EToken>) -> (r: Self)
        ensures
            r.l_lTokens == l_lTokens,
            r.l_iPos == 0,
            r.wf(),
    {
        CParser { l_lTokens, l_iPos: 0 }
    }

    /// The token at the position, if one stands there.
    pub fn F_ePeek(&self) -> (r: Option<&EToken>)
        ensures
            match r {
                Some(token) => self.l_iPos < self.l_lTokens@.len() && *token
                    == self.l_lTokens@[self.l_iPos as int],
                None => self.l_iPos >= self.l_lTokens@.len(),
            },
    {
        if self.l_iPos < self.l_lTokens.len() {
            Some(&self.l_lTokens[self.l_iPos])
        } else {
            None
        }
    }

    /// Moves behind the token at the position; at the end nothing moves.
    pub fn F_eAdvance(&mut self)
        ensures
            final(self).l_lTokens == old(self).l_lTokens,
            final(self).l_iPos == if old(self).l_iPos < old(self).l_lTokens@.len() {
                old(self).l_iPos + 1
            } else {
                old(self).l_iPos as int
            },
    {
        if self.l_iPos < self.l_lTokens.len() {
            self.l_iPos += 1;
        }
    }

    /// Moves back by one token; at the beginning nothing moves.
    pub fn F_eBack(&mut self)
        ensures
            final(self).l_lTokens == old(self).l_lTokens,
            final(self).l_iPos == if old(self).l_iPos > 0 {
                old(self).l_iPos - 1
            } else {
                0
            },
    {
        if self.l_iPos > 0 {
            self.l_iPos -= 1;
        }
    }

    /// Takes the token at the position, which must be the expected one.
    pub fn F_bExpect(&mut self, l_eExpected: EToken) -> (r: Result<(), String>)
        requires
            old(self).wf(),
        ensures
            final(self).l_lTokens == old(self).l_lTokens,
            final(self).wf(),
            match r {
                Ok(_) => expect(old(self).tokens(), old(self).l_iPos as int, l_eExpected@) is None
                    && final(self).l_iPos == old(self).l_iPos + 1,
                Err(message) => expect(old(self).tokens(), old(self).l_iPos as int, l_eExpected@)
                    == Some(message@) && final(self).l_iPos == old(self).l_iPos,
            },
    {
        if self.l_iPos >= self.l_lTokens.len() {
            return Err(String::from_str("Unexpected end of input"));
        }
        let l_eToken = &self.l_lTokens[self.l_iPos];
        if l_eToken.F_bEquals(&l_eExpected) {
            self.l_iPos += 1;
            Ok(())
        } else {
            let mut l_sMessage = String::from_str("Expected ");
            l_sMessage.append(l_eExpected.F_sDebug().as_str());
            l_sMessage.append(", got ");
            l_sMessage.append(l_eToken.F_sDebug().as_str());
            Err(l_sMessage)
        }
    }

    /// Takes the type name at the position.
    pub fn F_lParseType(&mut self) -> (r: Result<EType, String>)
        requires
            old(self).wf(),
        ensures
            final(self).l_lTokens == old(self).l_lTokens,
            final(self).wf(),
            match r {
                Ok(t) => old(self).l_iPos < old(self).tokens().len() && token_type(
                    old(self).tokens()[old(self).l_iPos as int],
                ) == Some(t) && final(self).l_iPos == old(self).l_iPos + 1,
                Err(message) => final(self).l_iPos == old(self).l_iPos && if old(self).l_iPos
                    >= old(self).tokens().len() {
                    message@ == end_message()
                } else {
                    token_type(old(self).tokens()[old(self).l_iPos as int]) is None && message@
                        == expected_type_message(old(self).tokens()[old(self).l_iPos as int])
                },
            },
    {
        if self.l_iPos >= self.l_lTokens.len() {
            return Err(String::from_str("Unexpected end of input"));
        }
        let l_eToken = &self.l_lTokens[self.l_iPos];
        match l_eToken.F_eType() {
            Some(l_eType) => {
                self.l_iPos += 1;
                Ok(l_eType)
            },
            None => {
                let mut l_sMessage = String::from_str("Expected type, got ");
                l_sMessage.append(l_eToken.F_sDebug().as_str());
                Err(l_sMessage)
            },
        }
    }

    /// Takes the token at the position as an instruction.
    pub fn F_eParseInstr(&mut self) -> (r: Result<EIrInstr, String>)
        requires
            old(self).wf(),
        ensures
            final(self).l_lTokens == old(self).l_lTokens,
            final(self).wf(),
            match r {
                Ok(instr) => old(self).l_iPos < old(self).tokens().len() && parse_instr(
                    old(self).tokens()[old(self).l_iPos as int],
                ) == Ok::<Instr, Seq<char>>(instr@) && final(self).l_iPos == old(self).l_iPos + 1,
                Err(message) => final(self).l_iPos == old(self).l_iPos && if old(self).l_iPos
                    >= old(self).tokens().len() {
                    message@ == end_message()
                } else {
                    parse_instr(old(self).tokens()[old(self).l_iPos as int]) == Err::<
                        Instr,
                        Seq<char>,
                    >(message@)
                },
            },
    {
        if self.l_iPos >= self.l_lTokens.len() {
            return Err(String::from_str("Unexpected end of input"));
        }
        let l_eToken = &self.l_lTokens[self.l_iPos];
        let l_eInstr = match l_eToken {
            EToken::Number(l_iN) => Ok(EIrInstr::PushI64(*l_iN)),
            EToken::String(l_sStr) => Ok(EIrInstr::PushStr(l_sStr.clone())),
            EToken::Ident(l_sName) => Ok(EIrInstr::Call(l_sName.clone())),
            EToken::Plus => Ok(EIrInstr::AddI64),
            EToken::Minus => Ok(EIrInstr::SubI64),
            EToken::Mul => Ok(EIrInstr::MulI64),
            EToken::Div => Ok(EIrInstr::DivI64),
            EToken::Mod => Ok(EIrInstr::ModI64),
            EToken::Dup => Ok(EIrInstr::Dup),
            EToken::Swap => Ok(EIrInstr::Swap),
            EToken::Puts => Ok(EIrInstr::Puts),
            EToken::Dump => Ok(EIrInstr::Dump),
            EToken::Syscall0 => Ok(EIrInstr::Syscall0),
            EToken::Syscall1 => Ok(EIrInstr::Syscall1),
            EToken::Syscall2 => Ok(EIrInstr::Syscall2),
            EToken::Syscall3 => Ok(EIrInstr::Syscall3),
            EToken::Syscall4 => Ok(EIrInstr::Syscall4),
            EToken::Syscall5 => Ok(EIrInstr::Syscall5),
            EToken::Syscall6 => Ok(EIrInstr::Syscall6),
            EToken::End => Ok(EIrInstr::Ret),
            _ => {
                let mut l_sMessage = String::from_str("Unexpected token: ");
                l_sMessage.append(l_eToken.F_sDebug().as_str());
                Err(l_sMessage)
            },
        };
        if l_eInstr.is_ok() {
            self.l_iPos += 1;
        }
        l_eInstr
    }

    /// Takes `in`, the instructions of a body, and the `end` that closes
    /// it; the body gets the `Ret` that ends every body.
    pub fn F_lParseBody(&mut self) -> (r: Result<Vec<EIrInstr>, String>)
        requires
            old(self).wf(),
        ensures
            final(self).l_lTokens == old(self).l_lTokens,
            final(self).wf(),
            match r {
                Ok(body) => parse_in_body(old(self).tokens(), old(self).l_iPos as int) == Ok::<
                    (Seq<Instr>, int),
                    Seq<char>,
                >((instrs_view(body@), final(self).l_iPos as int)),
                Err(message) => parse_in_body(old(self).tokens(), old(self).l_iPos as int)
                    == Err::<(Seq<Instr>, int), Seq<char>>(message@),
            },
    {
        let ghost tokens = self.tokens();
        match self.F_bExpect(EToken::In) {
            Err(l_sMessage) => {
                return Err(l_sMessage);
            },
            Ok(_) => {},
        }
        let mut l_lBody: Vec<EIrInstr> = Vec::new();
        assert(instrs_view(l_lBody@) =~= Seq::<Instr>::empty());
        while self.l_iPos < self.l_lTokens.len()
            invariant
                self.wf(),
                self.l_lTokens == old(self).l_lTokens,
                tokens == self.tokens(),
                parse_in_body(tokens, old(self).l_iPos as int) == parse_body(
                    tokens,
                    self.l_iPos as int,
                    instrs_view(l_lBody@),
                ),
            decreases self.l_lTokens@.len() - self.l_iPos,
        {
            let ghost acc = instrs_view(l_lBody@);
            match &self.l_lTokens[self.l_iPos] {
                EToken::End => {
                    self.l_iPos += 1;
                    l_lBody.push(EIrInstr::Ret);
                    assert(instrs_view(l_lBody@) =~= acc.push(Instr::Ret));
                    return Ok(l_lBody);
                },
                _ => {},
            }
            match self.F_eParseInstr() {
                Err(l_sMessage) => {
                    return Err(l_sMessage);
                },
                Ok(l_eInstr) => {
                    l_lBody.push(l_eInstr);
                    assert(instrs_view(l_lBody@) =~= acc.push(l_eInstr@));
                },
            }
        }
        Err(String::from_str("Unexpected end of input"))
    }

    /// Takes the parameter types at the position.
    pub fn F_lParseParams(&mut self) -> (r: Vec<EType>)
        requires
            old(self).wf(),
        ensures
            final(self).l_lTokens == old(self).l_lTokens,
            final(self).wf(),
            final(self).l_iPos == params_end(old(self).tokens(), old(self).l_iPos as int),
            r@ == param_types(
                old(self).tokens(),
                old(self).l_iPos as int,
                final(self).l_iPos as int,
            ),
    {
        let ghost tokens = self.tokens();
        let ghost start = self.l_iPos as int;
        let mut l_lParams: Vec<EType> = Vec::new();
        while self.l_iPos < self.l_lTokens.len()
            invariant
                self.wf(),
                self.l_lTokens == old(self).l_lTokens,
                tokens == self.tokens(),
                start == old(self).l_iPos,
                start <= self.l_iPos,
                params_end(tokens, start) == params_end(tokens, self.l_iPos as int),
                l_lParams@ == param_types(tokens, start, self.l_iPos as int),
            decreases self.l_lTokens@.len() - self.l_iPos,
        {
            let l_eToken = &self.l_lTokens[self.l_iPos];
            let l_eType = match l_eToken {
                EToken::Void => None,
                _ => l_eToken.F_eType(),
            };
            match l_eType {
                None => {
                    return l_lParams;
                },
                Some(l_eParam) => {
                    l_lParams.push(l_eParam);
                    self.l_iPos += 1;
                },
            }
        }
        l_lParams
    }

    /// Takes the name at the position, if an identifier stands there.
    pub fn F_sParseName(&mut self) -> (r: Option<String>)
        requires
            old(self).wf(),
        ensures
            final(self).l_lTokens == old(self).l_lTokens,
            final(self).wf(),
            match r {
                Some(name) => old(self).l_iPos < old(self).tokens().len() && old(
                    self,
                ).tokens()[old(self).l_iPos as int] == Token::Ident(name@) && final(self).l_iPos
                    == old(self).l_iPos + 1,
                None => !(old(self).l_iPos < old(self).tokens().len() && old(
                    self,
                ).tokens()[old(self).l_iPos as int] is Ident),
            },
    {
        if self.l_iPos >= self.l_lTokens.len() {
            return None;
        }
        match &self.l_lTokens[self.l_iPos] {
            EToken::Ident(l_sName) => {
                let l_sCopy = l_sName.clone();
                self.l_iPos += 1;
                Some(l_sCopy)
            },
            _ => None,
        }
    }

    /// Takes a procedure declaration.
    pub fn F_lParseProc(&mut self) -> (r: Result<EIrInstr, String>)
        requires
            old(self).wf(),
        ensures
            final(self).l_lTokens == old(self).l_lTokens,
            final(self).wf(),
            match r {
                Ok(decl) => parse_proc(old(self).tokens(), old(self).l_iPos as int) == Ok::<
                    (Instr, int),
                    Seq<char>,
                >((decl@, final(self).l_iPos as int)),
                Err(message) => parse_proc(old(self).tokens(), old(self).l_iPos as int) == Err::<
                    (Instr, int),
                    Seq<char>,
                >(message@),
            },
    {
        match self.F_bExpect(EToken::Proc) {
            Err(l_sMessage) => {
                return Err(l_sMessage);
            },
            Ok(_) => {},
        }
        let l_sName = match self.F_sParseName() {
            None => {
                return Err(String::from_str("Expected proc name"));
            },
            Some(l_sName) => l_sName,
        };
        let l_lParams = self.F_lParseParams();
        let l_bRet = match self.F_ePeek() {
            Some(EToken::RetType) => true,
            _ => false,
        };
        let mut l_eRetType = EType::Void;
        if l_bRet {
            self.F_eAdvance();
            match self.F_lParseType() {
                Err(l_sMessage) => {
                    return Err(l_sMessage);
                },
                Ok(l_eType) => {
                    l_eRetType = l_eType;
                },
            }
        }
        match self.F_lParseBody() {
            Err(l_sMessage) => Err(l_sMessage),
            Ok(l_lBody) => {
                let l_eDecl = EIrInstr::Proc(l_sName, l_lBody, l_lParams, l_eRetType);
                proof {
                    lemma_body_view(l_eDecl);
                    assert(l_eDecl@ == Instr::Proc(
                        l_sName@,
                        instrs_view(l_lBody@),
                        l_lParams@,
                        l_eRetType,
                    ));
                }
                Ok(l_eDecl)
            },
        }
    }

    /// Takes a constant declaration.
    pub fn F_lParseConst(&mut self) -> (r: Result<EIrInstr, String>)
        requires
            old(self).wf(),
        ensures
            final(self).l_lTokens == old(self).l_lTokens,
            final(self).wf(),
            match r {
                Ok(decl) => parse_const(old(self).tokens(), old(self).l_iPos as int) == Ok::<
                    (Instr, int),
                    Seq<char>,
                >((decl@, final(self).l_iPos as int)),
                Err(message) => parse_const(old(self).tokens(), old(self).l_iPos as int) == Err::<
                    (Instr, int),
                    Seq<char>,
                >(message@),
            },
    {
        match self.F_bExpect(EToken::Const) {
            Err(l_sMessage) => {
                return Err(l_sMessage);
            },
            Ok(_) => {},
        }
        let l_sName = match self.F_sParseName() {
            None => {
                return Err(String::from_str("Expected const name"));
            },
            Some(l_sName) => l_sName,
        };
        match self.F_lParseBody() {
            Err(l_sMessage) => Err(l_sMessage),
            Ok(l_lBody) => {
                let l_eDecl = EIrInstr::Const(l_sName, l_lBody);
                proof {
                    lemma_body_view(l_eDecl);
                }
                Ok(l_eDecl)
            },
        }
    }

    /// Takes the declarations from the position to the end of the tokens.
    pub fn F_lParse(&mut self) -> (r: Result<Vec<EIrInstr>, String>)
        requires
            old(self).wf(),
        ensures
            final(self).l_lTokens == old(self).l_lTokens,
            final(self).wf(),
            match r {
                Ok(program) => parse_program(
                    old(self).tokens(),
                    old(self).l_iPos as int,
                    Seq::empty(),
                ) == Ok::<Seq<Instr>, Seq<char>>(instrs_view(program@)),
                Err(message) => parse_program(
                    old(self).tokens(),
                    old(self).l_iPos as int,
                    Seq::empty(),
                ) == Err::<Seq<Instr>, Seq<char>>(message@),
            },
    {
        let ghost tokens = self.tokens();
        let ghost whole = parse_program(tokens, self.l_iPos as int, Seq::empty());
        let mut l_lProgram: Vec<EIrInstr> = Vec::new();
        assert(instrs_view(l_lProgram@) =~= Seq::<Instr>::empty());
        while self.l_iPos < self.l_lTokens.len()
            invariant
                self.wf(),
                self.l_lTokens == old(self).l_lTokens,
                tokens == self.tokens(),
                whole == parse_program(tokens, old(self).l_iPos as int, Seq::empty()),
                whole == parse_program(tokens, self.l_iPos as int, instrs_view(l_lProgram@)),
            decreases self.l_lTokens@.len() - self.l_iPos,
        {
            let ghost acc = instrs_view(l_lProgram@);
            proof {
                lemma_parse_decl_bounds(tokens, self.l_iPos as int);
            }
            let l_eDecl = match &self.l_lTokens[self.l_iPos] {
                EToken::Proc => self.F_lParseProc(),
                EToken::Const => self.F_lParseConst(),
                _ => Err(String::from_str("Expected proc declaration")),
            };
            match l_eDecl {
                Err(l_sMessage) => {
                    return Err(l_sMessage);
                },
                Ok(l_eItem) => {
                    l_lProgram.push(l_eItem);
                    assert(instrs_view(l_lProgram@) =~= acc.push(l_eItem@));
                },
            }
        }
        Ok(l_lProgram)
    }
}

/// Reads a program from its source text: the tokens first, then the
/// declarations.
pub fn F_lParseProgram(l_sInput: &str) -> (r: Result<Vec<EIrInstr>, String>)
    ensures
        match r {
            Ok(program) => parse_source(l_sInput@) == Ok::<Seq<Instr>, Seq<char>>(
                instrs_view(program@),
            ),
            Err(message) => parse_source(l_sInput@) == Err::<Seq<Instr>, Seq<char>>(message@),
        },
{
    let mut l_cLexer = CLexer::F_cNew(l_sInput);
    let l_lTokens = match l_cLexer.F_lTokenize() {
        Err(l_sMessage) => {
            return Err(l_sMessage);
        },
        Ok(l_lTokens) => l_lTokens,
    };
    let mut l_cParser = CParser::F_cNew(l_lTokens);
    l_cParser.F_lParse()
}

} // verus!
