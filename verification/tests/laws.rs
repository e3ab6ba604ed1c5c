use stacklang::interp::{F_eApply, EInterpError};
use stacklang::EIrInstr;

fn apply_all(instrs: &[EIrInstr], stack: &mut Vec<i64>) -> Result<(), EInterpError> {
    for i in instrs {
        F_eApply(i, stack)?;
    }
    Ok(())
}

fn binary(op: EIrInstr, a: i64, b: i64) -> Result<i64, EInterpError> {
    let mut s = vec![11, 22];
    apply_all(&[EIrInstr::PushI64(a), EIrInstr::PushI64(b), op], &mut s)?;
    assert_eq!(s.len(), 3);
    assert_eq!(&s[..2], &[11, 22]);
    Ok(s[2])
}

#[test]
fn dup_then_drop_is_the_identity() {
    let mut s = vec![1, 2, 3];
    assert_eq!(apply_all(&[EIrInstr::Dup, EIrInstr::Drop], &mut s), Ok(()));
    assert_eq!(s, vec![1, 2, 3]);
    let mut one = vec![i64::MIN];
    assert_eq!(apply_all(&[EIrInstr::Dup, EIrInstr::Drop], &mut one), Ok(()));
    assert_eq!(one, vec![i64::MIN]);
}

#[test]
fn dup_fails_on_the_empty_stack() {
    let mut s: Vec<i64> = Vec::new();
    assert_eq!(
        apply_all(&[EIrInstr::Dup, EIrInstr::Drop], &mut s),
        Err(EInterpError::StackUnderflow)
    );
    assert!(s.is_empty());
}

#[test]
fn swap_then_swap_is_the_identity() {
    let mut s = vec![1, 2, 3];
    assert_eq!(F_eApply(&EIrInstr::Swap, &mut s), Ok(()));
    assert_eq!(s, vec![1, 3, 2]);
    assert_eq!(F_eApply(&EIrInstr::Swap, &mut s), Ok(()));
    assert_eq!(s, vec![1, 2, 3]);
}

#[test]
fn swap_fails_below_two_slots() {
    let mut s = vec![5];
    assert_eq!(F_eApply(&EIrInstr::Swap, &mut s), Err(EInterpError::StackUnderflow));
    assert_eq!(s, vec![5]);
}

#[test]
fn add_wraps_around() {
    assert_eq!(binary(EIrInstr::AddI64, 2, 3), Ok(5));
    assert_eq!(binary(EIrInstr::AddI64, i64::MAX, 1), Ok(i64::MIN));
    assert_eq!(binary(EIrInstr::AddI64, i64::MIN, -1), Ok(i64::MAX));
    assert_eq!(binary(EIrInstr::AddI64, -5, 5), Ok(0));
}

#[test]
fn sub_takes_the_top_from_the_slot_below_it() {
    assert_eq!(binary(EIrInstr::SubI64, 0, 7), Ok(-7));
    assert_eq!(binary(EIrInstr::SubI64, i64::MIN, 1), Ok(i64::MAX));
    assert_eq!(binary(EIrInstr::SubI64, 10, 3), Ok(7));
}

#[test]
fn mul_wraps_around() {
    assert_eq!(binary(EIrInstr::MulI64, 6, 6), Ok(36));
    assert_eq!(binary(EIrInstr::MulI64, i64::MAX, 2), Ok(-2));
    assert_eq!(binary(EIrInstr::MulI64, -3, 4), Ok(-12));
    assert_eq!(binary(EIrInstr::MulI64, i64::MIN, -1), Ok(i64::MIN));
}

#[test]
fn division_truncates_and_the_remainder_has_the_sign_of_the_dividend() {
    for (a, b, q, r) in [
        (7i64, 2i64, 3i64, 1i64),
        (-7, 2, -3, -1),
        (7, -2, -3, 1),
        (-7, -2, 3, -1),
        (6, 3, 2, 0),
        (0, 5, 0, 0),
        (1, i64::MIN, 0, 1),
        (i64::MIN, 2, -4611686018427387904, 0),
        (i64::MIN, i64::MIN, 1, 0),
        (i64::MAX, -1, -i64::MAX, 0),
    ] {
        assert_eq!(binary(EIrInstr::DivI64, a, b), Ok(q));
        assert_eq!(binary(EIrInstr::ModI64, a, b), Ok(r));
        assert_eq!(q.wrapping_mul(b).wrapping_add(r), a);
        assert!(r == 0 || (r < 0) == (a < 0));
    }
}

#[test]
fn division_by_zero_traps() {
    assert_eq!(binary(EIrInstr::DivI64, 1, 0), Err(EInterpError::DivideError));
    assert_eq!(binary(EIrInstr::ModI64, 1, 0), Err(EInterpError::DivideError));
    assert_eq!(binary(EIrInstr::DivI64, 0, 0), Err(EInterpError::DivideError));
}

#[test]
fn the_quotient_that_does_not_fit_traps() {
    assert_eq!(binary(EIrInstr::DivI64, i64::MIN, -1), Err(EInterpError::DivideError));
    assert_eq!(binary(EIrInstr::ModI64, i64::MIN, -1), Err(EInterpError::DivideError));
}

#[test]
fn a_trap_leaves_the_stack_as_it_was() {
    let mut s = vec![4, 0];
    assert_eq!(F_eApply(&EIrInstr::DivI64, &mut s), Err(EInterpError::DivideError));
    assert_eq!(s, vec![4, 0]);
}

#[test]
fn comparisons_push_zero_or_one() {
    assert_eq!(binary(EIrInstr::Eq, 3, 3), Ok(1));
    assert_eq!(binary(EIrInstr::Eq, 3, 4), Ok(0));
    assert_eq!(binary(EIrInstr::Neq, 3, 4), Ok(1));
    assert_eq!(binary(EIrInstr::Neq, 3, 3), Ok(0));
    assert_eq!(binary(EIrInstr::Lt, -1, 0), Ok(1));
    assert_eq!(binary(EIrInstr::Lt, 0, -1), Ok(0));
    assert_eq!(binary(EIrInstr::Lt, 2, 2), Ok(0));
    assert_eq!(binary(EIrInstr::Gt, 0, -1), Ok(1));
    assert_eq!(binary(EIrInstr::Gt, 2, 2), Ok(0));
    assert_eq!(binary(EIrInstr::Le, 2, 2), Ok(1));
    assert_eq!(binary(EIrInstr::Le, 3, 2), Ok(0));
    assert_eq!(binary(EIrInstr::Ge, 2, 2), Ok(1));
    assert_eq!(binary(EIrInstr::Ge, i64::MIN, i64::MAX), Ok(0));
}

#[test]
fn bitwise_operations_work_on_the_bit_patterns() {
    assert_eq!(binary(EIrInstr::And, 0b1100, 0b1010), Ok(0b1000));
    assert_eq!(binary(EIrInstr::Or, 0b1100, 0b1010), Ok(0b1110));
    assert_eq!(binary(EIrInstr::Xor, 0b1100, 0b1010), Ok(0b0110));
    assert_eq!(binary(EIrInstr::And, -1, 0x7f), Ok(0x7f));
    let mut s = vec![0];
    assert_eq!(F_eApply(&EIrInstr::Not, &mut s), Ok(()));
    assert_eq!(s, vec![-1]);
    let mut t = vec![9, 0x0f];
    assert_eq!(F_eApply(&EIrInstr::Not, &mut t), Ok(()));
    assert_eq!(t, vec![9, -16]);
}

#[test]
fn shifts_use_the_low_six_bits_of_the_amount() {
    assert_eq!(binary(EIrInstr::Shl, 1, 4), Ok(16));
    assert_eq!(binary(EIrInstr::Shl, 1, 63), Ok(i64::MIN));
    assert_eq!(binary(EIrInstr::Shl, 1, 64), Ok(1));
    assert_eq!(binary(EIrInstr::Shl, 1, 65), Ok(2));
    assert_eq!(binary(EIrInstr::Shl, 3, -1), Ok(i64::MIN));
    assert_eq!(binary(EIrInstr::Shr, 16, 4), Ok(1));
    assert_eq!(binary(EIrInstr::Shr, -1, 63), Ok(1));
    assert_eq!(binary(EIrInstr::Shr, -1, 1), Ok(i64::MAX));
    assert_eq!(binary(EIrInstr::Shr, 256, 264), Ok(1));
}

#[test]
fn over_copies_the_slot_below_the_top() {
    let mut s = vec![1, 2];
    assert_eq!(F_eApply(&EIrInstr::Over, &mut s), Ok(()));
    assert_eq!(s, vec![1, 2, 1]);
    let mut short = vec![1];
    assert_eq!(F_eApply(&EIrInstr::Over, &mut short), Err(EInterpError::StackUnderflow));
}

#[test]
fn rot_brings_the_third_slot_to_the_top() {
    let mut s = vec![0, 1, 2, 3];
    assert_eq!(F_eApply(&EIrInstr::Rot, &mut s), Ok(()));
    assert_eq!(s, vec![0, 2, 3, 1]);
    assert_eq!(F_eApply(&EIrInstr::Rot, &mut s), Ok(()));
    assert_eq!(F_eApply(&EIrInstr::Rot, &mut s), Ok(()));
    assert_eq!(s, vec![0, 1, 2, 3]);
    let mut short = vec![1, 2];
    assert_eq!(F_eApply(&EIrInstr::Rot, &mut short), Err(EInterpError::StackUnderflow));
    assert_eq!(short, vec![1, 2]);
}

#[test]
fn drop_and_not_need_a_slot() {
    let mut s: Vec<i64> = Vec::new();
    assert_eq!(F_eApply(&EIrInstr::Drop, &mut s), Err(EInterpError::StackUnderflow));
    assert_eq!(F_eApply(&EIrInstr::Not, &mut s), Err(EInterpError::StackUnderflow));
}

#[test]
fn binary_instructions_need_two_slots() {
    for op in [EIrInstr::AddI64, EIrInstr::DivI64, EIrInstr::Eq, EIrInstr::Shl, EIrInstr::Xor] {
        let mut s = vec![0];
        assert_eq!(F_eApply(&op, &mut s), Err(EInterpError::StackUnderflow));
        assert_eq!(s, vec![0]);
    }
}

#[test]
fn depth_follows_the_stack_effects() {
    let run = [
        EIrInstr::PushI64(1),
        EIrInstr::PushI64(2),
        EIrInstr::Over,
        EIrInstr::Rot,
        EIrInstr::AddI64,
        EIrInstr::Dup,
        EIrInstr::Swap,
        EIrInstr::Drop,
        EIrInstr::Not,
        EIrInstr::Lt,
    ];
    let effects = [1i64, 1, 1, 0, -1, 1, 0, -1, 0, -1];
    let mut s = vec![7];
    let mut depth = 1i64;
    for (i, e) in run.iter().zip(effects) {
        assert_eq!(F_eApply(i, &mut s), Ok(()));
        depth += e;
        assert_eq!(s.len() as i64, depth);
    }
    assert_eq!(s, vec![7, 0]);
}

#[test]
fn other_instructions_leave_the_stack_to_the_machine() {
    let mut s = vec![1, 2];
    for i in [EIrInstr::Puts, EIrInstr::Dump, EIrInstr::Ret, EIrInstr::Syscall3, EIrInstr::Load8] {
        assert_eq!(F_eApply(&i, &mut s), Ok(()));
        assert_eq!(s, vec![1, 2]);
    }
}
