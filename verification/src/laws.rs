//! Laws of the stack semantics: what holds of every stack and of all
//! operands.

use crate::engine::{data_line, lemma_str_label_injective, str_label, BuilderView};
use crate::interp::{
    apply, frame_wf, lemma_declared_resolves, lookup, CFrame, EEvent, EInterpError, EState,
    MachineView,
};
use crate::ir::Instr;
use vstd::arithmetic::div_mod::lemma_fundamental_div_mod;
use vstd::prelude::*;

verus! {

/// The stack after the instructions, carried out in order on the stack
/// alone; the first failure ends the run.
pub open spec fn apply_all(instrs: Seq<Instr>, s: Seq<i64>) -> Result<Seq<i64>, EInterpError>
    decreases instrs.len(),
{
    if instrs.len() == 0 {
        Ok(s)
    } else {
        match apply(instrs[0], s) {
            Err(e) => Err(e),
            Ok(next) => apply_all(instrs.drop_first(), next),
        }
    }
}

/// The sum of the stack effects of the instructions.
pub open spec fn effect_sum(instrs: Seq<Instr>) -> int
    decreases instrs.len(),
{
    if instrs.len() == 0 {
        0
    } else {
        instrs[0].stack_effect() + effect_sum(instrs.drop_first())
    }
}

/// Whether the instruction needs nothing but the stack.
pub open spec fn stack_only(instr: Instr) -> bool {
    match instr {
        Instr::PushI64(_)
        | Instr::Dup
        | Instr::Swap
        | Instr::Drop
        | Instr::Over
        | Instr::Rot
        | Instr::Not => true,
        _ => instr.is_binary(),
    }
}

/// An instruction that needs only the stack, where it succeeds, changes
/// the depth by its stack effect.
pub proof fn lemma_apply_depth(instr: Instr, s: Seq<i64>)
    requires
        stack_only(instr),
        apply(instr, s) is Ok,
    ensures
        apply(instr, s)->Ok_0.len() == s.len() + instr.stack_effect(),
{
    if instr.is_binary() {
        assert(instr.stack_effect() == -1);
    }
}

/// After a run of instructions that need only the stack, the depth is the
/// depth before plus the sum of their stack effects.
pub proof fn lemma_apply_all_depth(instrs: Seq<Instr>, s: Seq<i64>)
    requires
        forall|i: int| 0 <= i < instrs.len() ==> stack_only(#[trigger] instrs[i]),
        apply_all(instrs, s) is Ok,
    ensures
        apply_all(instrs, s)->Ok_0.len() == s.len() + effect_sum(instrs),
    decreases instrs.len(),
{
    if instrs.len() > 0 {
        let next = apply(instrs[0], s)->Ok_0;
        lemma_apply_depth(instrs[0], s);
        assert forall|i: int| 0 <= i < instrs.drop_first().len() implies stack_only(
            #[trigger] instrs.drop_first()[i],
        ) by {
            assert(instrs.drop_first()[i] == instrs[i + 1]);
        }
        lemma_apply_all_depth(instrs.drop_first(), next);
    }
}

/// `Dup` then `Drop` leaves every stack that holds a slot as it was; on
/// the empty stack `Dup` fails.
pub proof fn lemma_dup_drop(s: Seq<i64>)
    ensures
        s.len() >= 1 ==> apply_all(seq![Instr::Dup, Instr::Drop], s) == Ok::<
            Seq<i64>,
            EInterpError,
        >(s),
        s.len() == 0 ==> apply_all(seq![Instr::Dup, Instr::Drop], s) == Err::<
            Seq<i64>,
            EInterpError,
        >(EInterpError::StackUnderflow),
{
    reveal_with_fuel(apply_all, 3);
    if s.len() >= 1 {
        let dup = s.push(s[s.len() - 1]);
        assert(dup.take(dup.len() - 1) =~= s);
    }
}

/// `Swap` then `Swap` leaves every stack that holds two slots as it was;
/// on a shorter stack `Swap` fails.
pub proof fn lemma_swap_swap(s: Seq<i64>)
    ensures
        s.len() >= 2 ==> apply_all(seq![Instr::Swap, Instr::Swap], s) == Ok::<
            Seq<i64>,
            EInterpError,
        >(s),
        s.len() < 2 ==> apply_all(seq![Instr::Swap, Instr::Swap], s) == Err::<
            Seq<i64>,
            EInterpError,
        >(EInterpError::StackUnderflow),
{
    reveal_with_fuel(apply_all, 3);
    if s.len() >= 2 {
        let n = s.len() as int;
        let once = s.take(n - 2).push(s[n - 1]).push(s[n - 2]);
        assert(once.take(n - 2).push(once[n - 1]).push(once[n - 2]) =~= s);
    }
}

/// The three instructions that push two operands and combine them.
pub open spec fn push_push(a: i64, b: i64, op: Instr) -> Seq<Instr> {
    seq![Instr::PushI64(a), Instr::PushI64(b), op]
}

/// Pushing two operands and combining them by a binary instruction leaves
/// the result on top of what the stack held, or fails as the instruction
/// does.
pub proof fn lemma_push_push(s: Seq<i64>, a: i64, b: i64, op: Instr)
    requires
        op.is_binary(),
    ensures
        apply_all(push_push(a, b, op), s) == match op.binary_result(a, b) {
            Some(r) => Ok::<Seq<i64>, EInterpError>(s.push(r)),
            None => Err::<Seq<i64>, EInterpError>(EInterpError::DivideError),
        },
{
    reveal_with_fuel(apply_all, 4);
    let two = s.push(a).push(b);
    assert(two.take(two.len() - 2) =~= s);
}

/// `PushI64(a); PushI64(b); AddI64` leaves on top the sum of `a` and `b`
/// modulo 2^64.
pub proof fn lemma_add_wraps(s: Seq<i64>, a: i64, b: i64)
    ensures
        apply_all(push_push(a, b, Instr::AddI64), s) == Ok::<Seq<i64>, EInterpError>(
            s.push(a.wrapping_add(b)),
        ),
        (a.wrapping_add(b) - (a + b)) % 0x1_0000_0000_0000_0000 == 0,
{
    lemma_push_push(s, a, b, Instr::AddI64);
}

/// For a divisor other than zero, and but for the one quotient that does
/// not fit, `PushI64(a); PushI64(b); DivI64` leaves a quotient `q` and
/// `PushI64(a); PushI64(b); ModI64` a remainder `r` with `a = q * b + r`,
/// where `r` is smaller than `b` in magnitude and is zero or has the sign
/// of `a`.
pub proof fn lemma_div_mod(s: Seq<i64>, a: i64, b: i64)
    requires
        b != 0,
        !(a == i64::MIN && b == -1),
    ensures
        a.checked_div(b) is Some,
        a.checked_rem(b) is Some,
        apply_all(push_push(a, b, Instr::DivI64), s) == Ok::<Seq<i64>, EInterpError>(
            s.push(a.checked_div(b)->Some_0),
        ),
        apply_all(push_push(a, b, Instr::ModI64), s) == Ok::<Seq<i64>, EInterpError>(
            s.push(a.checked_rem(b)->Some_0),
        ),
        a == a.checked_div(b)->Some_0 * b + a.checked_rem(b)->Some_0,
        a.checked_rem(b)->Some_0 == 0 || (a.checked_rem(b)->Some_0 < 0 <==> a < 0),
        -b < a.checked_rem(b)->Some_0 < b || b < a.checked_rem(b)->Some_0 < -b,
{
    lemma_push_push(s, a, b, Instr::DivI64);
    lemma_push_push(s, a, b, Instr::ModI64);
    lemma_truncated_division(a as int, b as int);
}

/// `PushI64(i64::MIN); PushI64(-1); DivI64` traps, and so does the
/// remainder of the same operands.
pub proof fn lemma_min_by_minus_one_traps(s: Seq<i64>)
    ensures
        apply_all(push_push(i64::MIN, -1i64, Instr::DivI64), s) == Err::<Seq<i64>, EInterpError>(
            EInterpError::DivideError,
        ),
        apply_all(push_push(i64::MIN, -1i64, Instr::ModI64), s) == Err::<Seq<i64>, EInterpError>(
            EInterpError::DivideError,
        ),
{
    lemma_push_push(s, i64::MIN, -1i64, Instr::DivI64);
    lemma_push_push(s, i64::MIN, -1i64, Instr::ModI64);
}

/// Division by zero traps, and so does the remainder.
pub proof fn lemma_by_zero_traps(s: Seq<i64>, a: i64)
    ensures
        apply_all(push_push(a, 0, Instr::DivI64), s) == Err::<Seq<i64>, EInterpError>(
            EInterpError::DivideError,
        ),
        apply_all(push_push(a, 0, Instr::ModI64), s) == Err::<Seq<i64>, EInterpError>(
            EInterpError::DivideError,
        ),
{
    lemma_push_push(s, a, 0, Instr::DivI64);
    lemma_push_push(s, a, 0, Instr::ModI64);
}

/// Every literal that is added to the data section gets a label of its
/// own, whether or not its bytes were added before: two literals added one
/// after the other stand under different labels.
pub proof fn lemma_fresh_labels(b: BuilderView, first: Seq<u8>, second: Seq<u8>)
    ensures
        b.add_string(first).add_string(second).data == b.data.push(
            data_line(str_label(b.str_count), first),
        ).push(data_line(str_label(b.str_count + 1), second)),
        str_label(b.str_count) != str_label(b.str_count + 1),
{
    if str_label(b.str_count) == str_label(b.str_count + 1) {
        lemma_str_label_injective(b.str_count, b.str_count + 1);
    }
}

/// Literals with different indices stand under different labels.
pub proof fn lemma_labels_distinct(i: nat, j: nat)
    requires
        i != j,
    ensures
        str_label(i) != str_label(j),
{
    if str_label(i) == str_label(j) {
        lemma_str_label_injective(i, j);
    }
}

/// The quotient towards zero, over the integers.
pub open spec fn truncated_quotient(x: int, d: int) -> int {
    if x >= 0 && d > 0 {
        x / d
    } else if x < 0 && d < 0 {
        (-x) / (-d)
    } else if x < 0 {
        -((-x) / d)
    } else {
        -(x / (-d))
    }
}

/// The remainder that goes with the quotient towards zero: it has the sign
/// of the dividend.
pub open spec fn truncated_remainder(x: int, d: int) -> int {
    if x >= 0 && d > 0 {
        x % d
    } else if x < 0 && d < 0 {
        -((-x) % (-d))
    } else if x < 0 {
        -((-x) % d)
    } else {
        x % (-d)
    }
}

/// Quotient and remainder towards zero recompose the dividend.
pub proof fn lemma_truncated_division(x: int, d: int)
    requires
        d != 0,
    ensures
        x == truncated_quotient(x, d) * d + truncated_remainder(x, d),
        truncated_remainder(x, d) == 0 || (truncated_remainder(x, d) < 0 <==> x < 0),
        -d < truncated_remainder(x, d) < d || d < truncated_remainder(x, d) < -d,
        x >= 0 && d > 0 ==> 0 <= truncated_quotient(x, d) <= x,
        x < 0 && d < 0 ==> 0 <= truncated_quotient(x, d) <= -x,
        x < 0 && d > 0 ==> x <= truncated_quotient(x, d) <= 0,
        x >= 0 && d < 0 ==> -x <= truncated_quotient(x, d) <= 0,
        x < 0 && d < -1 ==> 2 * truncated_quotient(x, d) <= -x,
{
    let ax = if x < 0 { -x } else { x };
    let ad = if d < 0 { -d } else { d };
    lemma_fundamental_div_mod(ax, ad);
    let q = ax / ad;
    let r = ax % ad;
    assert(0 <= q <= ax) by (nonlinear_arith)
        requires
            ax == ad * q + r,
            0 <= r < ad,
            ax >= 0,
            ad > 0,
    ;
    if ad >= 2 {
        assert(2 * q <= ax) by (nonlinear_arith)
            requires
                ax == ad * q + r,
                0 <= r,
                q >= 0,
                ad >= 2,
        ;
    }
    if x >= 0 && d > 0 {
        assert(q * d == ad * q) by (nonlinear_arith)
            requires
                d == ad,
        ;
    } else if x < 0 && d < 0 {
        assert(q * d == -(ad * q)) by (nonlinear_arith)
            requires
                d == -ad,
        ;
    } else if x < 0 {
        assert((-q) * d == -(ad * q)) by (nonlinear_arith)
            requires
                d == ad,
        ;
    } else {
        assert((-q) * d == ad * q) by (nonlinear_arith)
            requires
                d == -ad,
        ;
    }
}

/// A step that carries out an instruction other than a call or a return,
/// and does not fail, changes the depth of the stack by the instruction's
/// stack effect, once the host's answer is in.
pub proof fn lemma_execute_depth(prog: Seq<Instr>, m: MachineView, instr: Instr, answer: i64)
    requires
        m.state == EState::Running,
        m.frames.len() > 0,
        !(instr is Call),
        !(instr is Ret),
        !(m.execute(prog, instr).0.state is Failed),
    ensures
        m.execute(prog, instr).0.resume(answer).stack.len() == m.stack.len()
            + instr.stack_effect(),
        m.execute(prog, instr).0.resume(answer).state == EState::Running,
        m.execute(prog, instr).0.resume(answer).frames == m.advance().frames,
{
    if stack_only(instr) {
        lemma_apply_depth(instr, m.stack);
    }
}

/// The machine after one step for each answer, in order: the step, then
/// the answer, which a machine that waits for nothing passes over.
pub open spec fn run_with(prog: Seq<Instr>, m: MachineView, answers: Seq<i64>) -> MachineView
    decreases answers.len(),
{
    if answers.len() == 0 {
        m
    } else {
        run_with(prog, m.step(prog).0.resume(answers[0]), answers.drop_first())
    }
}

/// A machine that has given up stays so.
pub proof fn lemma_failed_stays(prog: Seq<Instr>, m: MachineView, answers: Seq<i64>)
    requires
        m.state is Failed,
    ensures
        run_with(prog, m, answers) == m,
    decreases answers.len(),
{
    if answers.len() > 0 {
        lemma_failed_stays(prog, m, answers.drop_first());
    }
}

/// While the innermost activation runs instructions that are neither calls
/// nor returns, the depth of the stack is, after each of them, the depth
/// before the first plus the sum of their stack effects, as long as none
/// fails.
pub proof fn lemma_run_depth(prog: Seq<Instr>, m: MachineView, answers: Seq<i64>)
    requires
        m.state == EState::Running,
        m.frames.len() > 0,
        frame_wf(prog, m.frames.last()),
        m.frames.last().l_iPc + answers.len() <= m.body(prog).len(),
        m.frames.last().l_iPc + answers.len() <= usize::MAX,
        forall|i: int|
            m.frames.last().l_iPc <= i < m.frames.last().l_iPc + answers.len() ==> {
                let instr = #[trigger] m.body(prog)[i];
                !(instr is Call) && !(instr is Ret)
            },
        !(run_with(prog, m, answers).state is Failed),
    ensures
        run_with(prog, m, answers).stack.len() == m.stack.len() + effect_sum(
            m.body(prog).subrange(
                m.frames.last().l_iPc as int,
                m.frames.last().l_iPc + answers.len(),
            ),
        ),
    decreases answers.len(),
{
    let f = m.frames.last();
    let body = m.body(prog);
    let pc = f.l_iPc as int;
    let k = answers.len() as int;
    let ran = body.subrange(pc, pc + k);
    if k > 0 {
        let instr = body[pc];
        let next = m.step(prog).0.resume(answers[0]);
        if m.execute(prog, instr).0.state is Failed {
            lemma_failed_stays(prog, next, answers.drop_first());
        }
        lemma_execute_depth(prog, m, instr, answers[0]);
        let rest = answers.drop_first();
        assert forall|i: int| pc + 1 <= i < pc + 1 + rest.len() implies {
            let instr = #[trigger] next.body(prog)[i];
            !(instr is Call) && !(instr is Ret)
        } by {
            assert(next.body(prog)[i] == body[i]);
        }
        lemma_run_depth(prog, next, rest);
        assert(ran.drop_first() =~= body.subrange(pc + 1, pc + 1 + rest.len()));
    }
}

/// A call and the return from the activation that it opened: where both
/// succeed, the return leaves the stack at the depth before the call, less
/// the callee's arguments, plus one slot if the callee returns a value, and
/// the caller is the innermost activation again. `at_ret` is any state in
/// which the callee's activation is the innermost one. The stack and the
/// parameter lists are taken to fit in memory, as those of a machine do.
pub proof fn lemma_call_ret_depth(
    prog: Seq<Instr>,
    m: MachineView,
    name: Seq<char>,
    at_ret: MachineView,
)
    requires
        m.frames.len() > 0,
        m.stack.len() <= usize::MAX,
        forall|i: int| 0 <= i < prog.len() ==> (#[trigger] prog[i]).decl_params() <= usize::MAX,
        m.execute(prog, Instr::Call(name)).1 == EEvent::Continue,
        at_ret.frames.len() == m.frames.len() + 1,
        at_ret.frames.drop_last() == m.execute(prog, Instr::Call(name)).0.frames.drop_last(),
        at_ret.frames.last() == (CFrame {
            l_iPc: at_ret.frames.last().l_iPc,
            ..m.execute(prog, Instr::Call(name)).0.frames.last()
        }),
        at_ret.ret().1 == EEvent::Continue,
    ensures
        lookup(prog, name) is Some,
        at_ret.ret().0.stack.len() == m.stack.len() - prog[lookup(prog, name)->Some_0].decl_params()
            + if prog[lookup(prog, name)->Some_0].decl_returns() {
            1int
        } else {
            0int
        },
        at_ret.ret().0.frames == m.advance().frames,
{
    lemma_declared_resolves(prog, name);
}

/// A step leaves every activation but the innermost as it is, and changes
/// of the innermost, while it stays, nothing but the instruction that is
/// to run next.
pub proof fn lemma_step_frames(prog: Seq<Instr>, m: MachineView, k: int)
    requires
        0 <= k < m.frames.len(),
        k < m.step(prog).0.frames.len(),
    ensures
        m.step(prog).0.frames[k] == (CFrame {
            l_iPc: m.step(prog).0.frames[k].l_iPc,
            ..m.frames[k]
        }),
        k < m.frames.len() - 1 ==> m.step(prog).0.frames[k] == m.frames[k],
{
}

/// One more answer: the run of the answers before it, then one step and
/// the answer.
pub proof fn lemma_run_with_push(prog: Seq<Instr>, m: MachineView, answers: Seq<i64>, last: i64)
    ensures
        run_with(prog, m, answers.push(last)) == run_with(prog, m, answers).step(prog).0.resume(
            last,
        ),
    decreases answers.len(),
{
    let more = answers.push(last);
    if answers.len() == 0 {
        assert(run_with(prog, m.step(prog).0.resume(more[0]), more.drop_first()) == m.step(
            prog,
        ).0.resume(last));
    } else {
        assert(more.drop_first() =~= answers.drop_first().push(last));
        lemma_run_with_push(prog, m.step(prog).0.resume(answers[0]), answers.drop_first(), last);
    }
}

/// Whether the activation `f` is the activation `opened`, moved on or not.
pub open spec fn same_activation(opened: CFrame, f: CFrame) -> bool {
    f == (CFrame { l_iPc: f.l_iPc, ..opened })
}

/// Whether the machine is about to return from its innermost activation:
/// it is running and the instruction at hand is `Ret`.
pub open spec fn at_ret(prog: Seq<Instr>, m: MachineView) -> bool {
    &&& m.state == EState::Running
    &&& m.at_instr(prog)
    &&& m.instr(prog) is Ret
}

/// While an activation is not the innermost one or has not returned, the
/// steps leave it and the activations below it as they are, but for the
/// instruction that it is to run next.
pub proof fn lemma_activation_stays(prog: Seq<Instr>, m: MachineView, answers: Seq<i64>, h: int)
    requires
        0 <= h < m.frames.len(),
        forall|j: int|
            0 <= j <= answers.len() ==> (#[trigger] run_with(prog, m, answers.take(j))).frames.len()
                > h,
    ensures
        same_activation(m.frames[h], run_with(prog, m, answers).frames[h]),
        run_with(prog, m, answers).frames.take(h) == m.frames.take(h),
    decreases answers.len(),
{
    let k = answers.len() as int;
    if k > 0 {
        let front = answers.drop_last();
        let before = run_with(prog, m, front);
        let after = run_with(prog, m, answers);
        assert forall|j: int| 0 <= j <= front.len() implies (#[trigger] run_with(
            prog,
            m,
            front.take(j),
        )).frames.len() > h by {
            assert(front.take(j) =~= answers.take(j));
        }
        lemma_activation_stays(prog, m, front, h);
        assert(answers =~= answers.take(k));
        assert(answers =~= front.push(answers.last()));
        lemma_run_with_push(prog, m, front, answers.last());
        lemma_step_frames(prog, before, h);
        assert forall|i: int| 0 <= i < h implies after.frames.take(h)[i] == m.frames.take(h)[i] by {
            lemma_step_frames(prog, before, i);
        }
    }
}

/// A call, the run of the callee, and its return: where each of the steps
/// succeeds, the return leaves the stack at the depth before the call, less
/// the callee's arguments, plus one slot if the callee returns a value.
///
/// The first of the answers is passed to the call, the last to the return.
/// In between the callee's activation, or one that it opened, is the
/// innermost one; before the last step the callee's is, at a `Ret`. The
/// stack and the parameter lists are taken to fit in memory, as those of a
/// machine do.
pub proof fn lemma_call_return(prog: Seq<Instr>, m: MachineView, name: Seq<char>, answers: Seq<i64>)
    requires
        m.state == EState::Running,
        m.at_instr(prog),
        m.instr(prog) == Instr::Call(name),
        m.stack.len() <= usize::MAX,
        forall|i: int| 0 <= i < prog.len() ==> (#[trigger] prog[i]).decl_params() <= usize::MAX,
        answers.len() >= 2,
        forall|j: int|
            1 <= j < answers.len() ==> (#[trigger] run_with(prog, m, answers.take(j))).frames.len()
                > m.frames.len(),
        run_with(prog, m, answers.take(answers.len() - 1)).frames.len() == m.frames.len() + 1,
        at_ret(prog, run_with(prog, m, answers.take(answers.len() - 1))),
        !(run_with(prog, m, answers).state is Failed),
    ensures
        lookup(prog, name) is Some,
        run_with(prog, m, answers).stack.len() == m.stack.len() - prog[lookup(
            prog,
            name,
        )->Some_0].decl_params() + if prog[lookup(prog, name)->Some_0].decl_returns() {
            1int
        } else {
            0int
        },
        run_with(prog, m, answers).frames == m.advance().frames,
{
    let h = m.frames.len() as int;
    let k = answers.len() as int;
    // The first step is the call.
    let entered = m.step(prog).0.resume(answers[0]);
    assert(answers.take(1) =~= Seq::<i64>::empty().push(answers[0]));
    lemma_run_with_push(prog, m, Seq::empty(), answers[0]);
    lemma_declared_resolves(prog, name);
    // The callee's activation stays while it runs.
    let rest = answers.subrange(1, k - 1);
    assert forall|j: int| 0 <= j <= rest.len() implies (#[trigger] run_with(
        prog,
        entered,
        rest.take(j),
    )).frames.len() > h by {
        lemma_run_from(prog, m, answers.take(j + 1));
        assert(answers.take(j + 1).drop_first() =~= rest.take(j));
    }
    lemma_activation_stays(prog, entered, rest, h);
    lemma_run_from(prog, m, answers.take(k - 1));
    assert(answers.take(k - 1).drop_first() =~= rest);
    // The last step is the return.
    assert(answers =~= answers.take(k - 1).push(answers[k - 1]));
    lemma_run_with_push(prog, m, answers.take(k - 1), answers[k - 1]);
}

/// A run of at least one answer is a step, the first answer, and the run of
/// the rest.
pub proof fn lemma_run_from(prog: Seq<Instr>, m: MachineView, answers: Seq<i64>)
    requires
        answers.len() >= 1,
    ensures
        run_with(prog, m, answers) == run_with(
            prog,
            m.step(prog).0.resume(answers[0]),
            answers.drop_first(),
        ),
{
}

} // verus!
