use stacklang::text::{
    digit_char, format_instr, i64_to_decimal, join_lines, magnitude, padded, push_decimal,
    u64_to_decimal,
};

#[test]
fn digits_are_the_ascii_digits() {
    let all: String = (0..10).map(digit_char).collect();
    assert_eq!(all, "0123456789");
}

#[test]
fn unsigned_decimal_rendering() {
    assert_eq!(u64_to_decimal(0), "0");
    assert_eq!(u64_to_decimal(7), "7");
    assert_eq!(u64_to_decimal(10), "10");
    assert_eq!(u64_to_decimal(4096), "4096");
    assert_eq!(u64_to_decimal(1000000007), "1000000007");
    assert_eq!(u64_to_decimal(u64::MAX), "18446744073709551615");
}

#[test]
fn push_decimal_appends() {
    let mut s = "str_".to_string();
    push_decimal(&mut s, 42);
    assert_eq!(s, "str_42");
    push_decimal(&mut s, 0);
    assert_eq!(s, "str_420");
}

#[test]
fn signed_decimal_rendering() {
    assert_eq!(i64_to_decimal(0), "0");
    assert_eq!(i64_to_decimal(5), "5");
    assert_eq!(i64_to_decimal(-7), "-7");
    assert_eq!(i64_to_decimal(36), "36");
    assert_eq!(i64_to_decimal(i64::MAX), "9223372036854775807");
    assert_eq!(i64_to_decimal(i64::MIN), "-9223372036854775808");
    assert_eq!(i64_to_decimal(-1), "-1");
}

#[test]
fn signed_decimal_agrees_with_the_standard_rendering() {
    for v in [-1000i64, -99, -10, -9, 9, 10, 99, 100, 101, 65535, -65536] {
        assert_eq!(i64_to_decimal(v), v.to_string());
    }
}

#[test]
fn magnitude_of_the_extremes() {
    assert_eq!(magnitude(0), 0);
    assert_eq!(magnitude(-1), 1);
    assert_eq!(magnitude(i64::MAX), 9223372036854775807);
    assert_eq!(magnitude(i64::MIN), 9223372036854775808);
}

#[test]
fn padding_fills_up_to_the_width() {
    assert_eq!(padded("mov", 8), "mov     ");
    assert_eq!(padded("", 3), "   ");
    assert_eq!(padded("syscall", 8), "syscall ");
    assert_eq!(padded("exactly8", 8), "exactly8");
    assert_eq!(padded("cvttsd2si", 8), "cvttsd2si");
    assert_eq!(padded("x", 0), "x");
}

#[test]
fn padding_counts_characters_not_bytes() {
    assert_eq!(padded("é", 3), "é  ");
}

#[test]
fn instruction_lines_are_indented_and_aligned() {
    assert_eq!(format_instr("mov", "rax, [r15]"), "    mov      rax, [r15]");
    assert_eq!(format_instr("ret", ""), "    ret      ");
    assert_eq!(format_instr("cvttsd2si", "rax, xmm0"), "    cvttsd2si rax, xmm0");
    assert_eq!(format_instr("mov dword", "[r15], rax"), "    mov dword [r15], rax");
}

#[test]
fn joining_puts_the_separator_between_lines_only() {
    let none: Vec<String> = Vec::new();
    assert_eq!(join_lines(&none, "\n"), "");
    assert_eq!(join_lines(&vec!["a".to_string()], "\n"), "a");
    assert_eq!(
        join_lines(&vec!["a".to_string(), String::new(), "b".to_string()], "\n"),
        "a\n\nb"
    );
    assert_eq!(join_lines(&vec!["x".to_string(), "y".to_string()], ", "), "x, y");
}
