use vstd::prelude::*;

use crate::value::LocalAddr;

verus! {

/// A runtime operand value, as an execution engine's operand stack and
/// locals array hold it. Float values are carried as their IEEE-754 bit
/// patterns; this layer never does float arithmetic on them.
///
/// The module itself never holds such a value: it exists so that the
/// observable effect of each fused superinstruction on (locals, stack) can
/// be stated and proved equal to the effect of its unfused expansion.
#[derive(Debug, Clone, Copy, PartialEq, Eq, Structural)]
pub enum WasmValue {
    I32(i32),
    I64(i64),
    F32Bits(u32),
    F64Bits(u64),
}

/// The payload of an `I64` value; meaningful only on that variant.
pub open spec fn as_i64(v: WasmValue) -> i64
    recommends
        v is I64,
{
    match v {
        WasmValue::I64(x) => x,
        _ => 0,
    }
}

/// Left rotation of a 64-bit pattern by `n < 64` places.
pub open spec fn u64_rotl(x: u64, n: u64) -> u64
    recommends
        n < 64,
{
    if n == 0 {
        x
    } else {
        ((x << n) | (x >> (64 - n))) as u64
    }
}

/// The `i64.rotl` operation: rotate the 64 bits of `x` left by `k` modulo 64
/// places.
pub open spec fn i64_rotl_spec(x: i64, k: i64) -> i64 {
    u64_rotl(x as u64, (k as u64) % 64) as i64
}

/// Effect of `local.get a`: push the value of local `a`.
pub open spec fn local_get_effect(
    locals: Seq<WasmValue>,
    stack: Seq<WasmValue>,
    a: LocalAddr,
) -> Seq<WasmValue>
    recommends
        (a as int) < locals.len(),
{
    stack.push(locals[a as int])
}

/// Effect of `local.set a`: pop the top of the stack into local `a`.
pub open spec fn local_set_effect(
    locals: Seq<WasmValue>,
    stack: Seq<WasmValue>,
    a: LocalAddr,
) -> (Seq<WasmValue>, Seq<WasmValue>)
    recommends
        (a as int) < locals.len(),
        stack.len() > 0,
{
    (locals.update(a as int, stack.last()), stack.drop_last())
}

/// Effect of `local.tee a`: copy the top of the stack into local `a`,
/// leaving the stack unchanged.
pub open spec fn local_tee_effect(
    locals: Seq<WasmValue>,
    stack: Seq<WasmValue>,
    a: LocalAddr,
) -> (Seq<WasmValue>, Seq<WasmValue>)
    recommends
        (a as int) < locals.len(),
        stack.len() > 0,
{
    (locals.update(a as int, stack.last()), stack)
}

/// Effect of the fused `LocalGet2(a, b)`: push local `a`, then local `b`.
pub open spec fn local_get2_effect(
    locals: Seq<WasmValue>,
    stack: Seq<WasmValue>,
    a: LocalAddr,
    b: LocalAddr,
) -> Seq<WasmValue>
    recommends
        (a as int) < locals.len(),
        (b as int) < locals.len(),
{
    stack.push(locals[a as int]).push(locals[b as int])
}

/// Effect of the fused `LocalGet3(a, b, c)`: push locals `a`, `b`, `c`.
pub open spec fn local_get3_effect(
    locals: Seq<WasmValue>,
    stack: Seq<WasmValue>,
    a: LocalAddr,
    b: LocalAddr,
    c: LocalAddr,
) -> Seq<WasmValue>
    recommends
        (a as int) < locals.len(),
        (b as int) < locals.len(),
        (c as int) < locals.len(),
{
    stack.push(locals[a as int]).push(locals[b as int]).push(locals[c as int])
}

/// Effect of the fused `LocalTeeGet(a, b)`: copy the stack top into local
/// `a`, then push the (possibly just-written) local `b`.
pub open spec fn local_tee_get_effect(
    locals: Seq<WasmValue>,
    stack: Seq<WasmValue>,
    a: LocalAddr,
    b: LocalAddr,
) -> (Seq<WasmValue>, Seq<WasmValue>)
    recommends
        (a as int) < locals.len(),
        (b as int) < locals.len(),
        stack.len() > 0,
{
    (
        locals.update(a as int, stack.last()),
        if a == b {
            stack.push(stack.last())
        } else {
            stack.push(locals[b as int])
        },
    )
}

/// Effect of the fused `LocalGetSet(a, b)`: copy local `a` into local `b`,
/// leaving the stack unchanged.
pub open spec fn local_get_set_effect(
    locals: Seq<WasmValue>,
    a: LocalAddr,
    b: LocalAddr,
) -> Seq<WasmValue>
    recommends
        (a as int) < locals.len(),
        (b as int) < locals.len(),
{
    locals.update(b as int, locals[a as int])
}

/// Effect of `i64.const c`: push the constant.
pub open spec fn i64_const_effect(stack: Seq<WasmValue>, c: i64) -> Seq<WasmValue> {
    stack.push(WasmValue::I64(c))
}

/// Effect of `i64.xor`: pop two `i64` operands and push their xor.
pub open spec fn i64_xor_effect(stack: Seq<WasmValue>) -> Seq<WasmValue>
    recommends
        stack.len() >= 2,
        stack[stack.len() - 1] is I64,
        stack[stack.len() - 2] is I64,
{
    stack.drop_last().drop_last().push(
        WasmValue::I64(as_i64(stack[stack.len() - 2]) ^ as_i64(stack[stack.len() - 1])),
    )
}

/// Effect of `i64.rotl`: pop the rotate count and the operand, and push the
/// operand rotated left.
pub open spec fn i64_rotl_effect(stack: Seq<WasmValue>) -> Seq<WasmValue>
    recommends
        stack.len() >= 2,
        stack[stack.len() - 1] is I64,
        stack[stack.len() - 2] is I64,
{
    stack.drop_last().drop_last().push(
        WasmValue::I64(i64_rotl_spec(as_i64(stack[stack.len() - 2]), as_i64(stack[stack.len() - 1]))),
    )
}

/// Effect of the fused `I64XorConstRotl(c)`: pop two `i64` operands, xor
/// them, and push the result rotated left by `c`.
pub open spec fn i64_xor_const_rotl_effect(stack: Seq<WasmValue>, c: i64) -> Seq<WasmValue>
    recommends
        stack.len() >= 2,
        stack[stack.len() - 1] is I64,
        stack[stack.len() - 2] is I64,
{
    stack.drop_last().drop_last().push(
        WasmValue::I64(
            i64_rotl_spec(as_i64(stack[stack.len() - 2]) ^ as_i64(stack[stack.len() - 1]), c),
        ),
    )
}

/// Fusion equivalence for `LocalGet2`: the fused effect is exactly
/// `local.get a` followed by `local.get b`.
pub proof fn lemma_local_get2_fusion(
    locals: Seq<WasmValue>,
    stack: Seq<WasmValue>,
    a: LocalAddr,
    b: LocalAddr,
)
    requires
        (a as int) < locals.len(),
        (b as int) < locals.len(),
    ensures
        local_get2_effect(locals, stack, a, b) == local_get_effect(
            locals,
            local_get_effect(locals, stack, a),
            b,
        ),
{
}

/// Fusion equivalence for `LocalGet3`: the fused effect is exactly three
/// consecutive `local.get`s.
pub proof fn lemma_local_get3_fusion(
    locals: Seq<WasmValue>,
    stack: Seq<WasmValue>,
    a: LocalAddr,
    b: LocalAddr,
    c: LocalAddr,
)
    requires
        (a as int) < locals.len(),
        (b as int) < locals.len(),
        (c as int) < locals.len(),
    ensures
        local_get3_effect(locals, stack, a, b, c) == local_get_effect(
            locals,
            local_get_effect(locals, local_get_effect(locals, stack, a), b),
            c,
        ),
{
}

/// Fusion equivalence for `LocalTeeGet`: the fused effect is exactly
/// `local.tee a` followed by `local.get b`, including the case `a == b`
/// where the get observes the value the tee just wrote.
pub proof fn lemma_local_tee_get_fusion(
    locals: Seq<WasmValue>,
    stack: Seq<WasmValue>,
    a: LocalAddr,
    b: LocalAddr,
)
    requires
        (a as int) < locals.len(),
        (b as int) < locals.len(),
        stack.len() > 0,
    ensures
        local_tee_get_effect(locals, stack, a, b) == ({
            let (l1, s1) = local_tee_effect(locals, stack, a);
            (l1, local_get_effect(l1, s1, b))
        }),
{
}

/// Fusion equivalence for `LocalGetSet`: the fused effect is exactly
/// `local.get a` followed by `local.set b`, and the stack comes back
/// unchanged.
pub proof fn lemma_local_get_set_fusion(
    locals: Seq<WasmValue>,
    stack: Seq<WasmValue>,
    a: LocalAddr,
    b: LocalAddr,
)
    requires
        (a as int) < locals.len(),
        (b as int) < locals.len(),
    ensures
        ({
            let s1 = local_get_effect(locals, stack, a);
            local_set_effect(locals, s1, b)
        }) == (local_get_set_effect(locals, a, b), stack),
{
    let s1 = local_get_effect(locals, stack, a);
    assert(s1.drop_last() =~= stack);
}

/// Fusion equivalence for `I64XorConstRotl`: the fused effect is exactly
/// `i64.xor`, `i64.const c`, `i64.rotl` in sequence.
pub proof fn lemma_i64_xor_const_rotl_fusion(stack: Seq<WasmValue>, c: i64)
    requires
        stack.len() >= 2,
        stack[stack.len() - 1] is I64,
        stack[stack.len() - 2] is I64,
    ensures
        i64_xor_const_rotl_effect(stack, c) == i64_rotl_effect(
            i64_const_effect(i64_xor_effect(stack), c),
        ),
{
    let s1 = i64_xor_effect(stack);
    let s2 = i64_const_effect(s1, c);
    assert(s2.drop_last() =~= s1);
    assert(s2.drop_last().drop_last() =~= stack.drop_last().drop_last());
    assert(i64_xor_const_rotl_effect(stack, c) =~= i64_rotl_effect(s2));
}

/// One engine step of `local.get a`.
pub fn exec_local_get(locals: &Vec<WasmValue>, stack: &mut Vec<WasmValue>, a: LocalAddr)
    requires
        (a as int) < locals@.len(),
    ensures
        final(stack)@ == local_get_effect(locals@, old(stack)@, a),
{
    let v = locals[a as usize];
    stack.push(v);
}

/// One engine step of `local.set a`.
pub fn exec_local_set(locals: &mut Vec<WasmValue>, stack: &mut Vec<WasmValue>, a: LocalAddr)
    requires
        (a as int) < old(locals)@.len(),
        old(stack)@.len() > 0,
    ensures
        final(locals)@ == local_set_effect(old(locals)@, old(stack)@, a).0,
        final(stack)@ == local_set_effect(old(locals)@, old(stack)@, a).1,
{
    let v = stack.pop().unwrap();
    locals.set(a as usize, v);
}

/// One engine step of `local.tee a`.
pub fn exec_local_tee(locals: &mut Vec<WasmValue>, stack: &Vec<WasmValue>, a: LocalAddr)
    requires
        (a as int) < old(locals)@.len(),
        stack@.len() > 0,
    ensures
        final(locals)@ == local_tee_effect(old(locals)@, stack@, a).0,
        stack@ == local_tee_effect(old(locals)@, stack@, a).1,
{
    let v = stack[stack.len() - 1];
    locals.set(a as usize, v);
}

/// One engine step of the fused `LocalGet2(a, b)`.
pub fn exec_local_get2(locals: &Vec<WasmValue>, stack: &mut Vec<WasmValue>, a: LocalAddr, b: LocalAddr)
    requires
        (a as int) < locals@.len(),
        (b as int) < locals@.len(),
    ensures
        final(stack)@ == local_get2_effect(locals@, old(stack)@, a, b),
{
    let va = locals[a as usize];
    let vb = locals[b as usize];
    stack.push(va);
    stack.push(vb);
}

/// One engine step of the fused `LocalGet3(a, b, c)`.
pub fn exec_local_get3(
    locals: &Vec<WasmValue>,
    stack: &mut Vec<WasmValue>,
    a: LocalAddr,
    b: LocalAddr,
    c: LocalAddr,
)
    requires
        (a as int) < locals@.len(),
        (b as int) < locals@.len(),
        (c as int) < locals@.len(),
    ensures
        final(stack)@ == local_get3_effect(locals@, old(stack)@, a, b, c),
{
    let va = locals[a as usize];
    let vb = locals[b as usize];
    let vc = locals[c as usize];
    stack.push(va);
    stack.push(vb);
    stack.push(vc);
}

/// One engine step of the fused `LocalTeeGet(a, b)`.
pub fn exec_local_tee_get(
    locals: &mut Vec<WasmValue>,
    stack: &mut Vec<WasmValue>,
    a: LocalAddr,
    b: LocalAddr,
)
    requires
        (a as int) < old(locals)@.len(),
        (b as int) < old(locals)@.len(),
        old(stack)@.len() > 0,
    ensures
        final(locals)@ == local_tee_get_effect(old(locals)@, old(stack)@, a, b).0,
        final(stack)@ == local_tee_get_effect(old(locals)@, old(stack)@, a, b).1,
{
    let v = stack[stack.len() - 1];
    locals.set(a as usize, v);
    let w = locals[b as usize];
    stack.push(w);
}

/// One engine step of the fused `LocalGetSet(a, b)`.
pub fn exec_local_get_set(locals: &mut Vec<WasmValue>, a: LocalAddr, b: LocalAddr)
    requires
        (a as int) < old(locals)@.len(),
        (b as int) < old(locals)@.len(),
    ensures
        final(locals)@ == local_get_set_effect(old(locals)@, a, b),
{
    let v = locals[a as usize];
    locals.set(b as usize, v);
}

/// One engine step of `i64.const c`.
pub fn exec_i64_const(stack: &mut Vec<WasmValue>, c: i64)
    ensures
        final(stack)@ == i64_const_effect(old(stack)@, c),
{
    stack.push(WasmValue::I64(c));
}

/// One engine step of `i64.xor`.
pub fn exec_i64_xor(stack: &mut Vec<WasmValue>)
    requires
        old(stack)@.len() >= 2,
        old(stack)@[old(stack)@.len() - 1] is I64,
        old(stack)@[old(stack)@.len() - 2] is I64,
    ensures
        final(stack)@ == i64_xor_effect(old(stack)@),
{
    let y = stack.pop().unwrap();
    let x = stack.pop().unwrap();
    match (x, y) {
        (WasmValue::I64(xv), WasmValue::I64(yv)) => {
            stack.push(WasmValue::I64(xv ^ yv));
        },
        _ => {
            proof {
                assert(false);
            }
        },
    }
}

/// The `i64.rotl` arithmetic: rotate `x` left by `k` modulo 64 places.
pub fn i64_rotl(x: i64, k: i64) -> (r: i64)
    ensures
        r == i64_rotl_spec(x, k),
{
    let n: u64 = (k as u64) % 64;
    let ux = x as u64;
    if n == 0 {
        ux as i64
    } else {
        ((ux << n) | (ux >> (64 - n))) as i64
    }
}

/// One engine step of `i64.rotl`.
pub fn exec_i64_rotl(stack: &mut Vec<WasmValue>)
    requires
        old(stack)@.len() >= 2,
        old(stack)@[old(stack)@.len() - 1] is I64,
        old(stack)@[old(stack)@.len() - 2] is I64,
    ensures
        final(stack)@ == i64_rotl_effect(old(stack)@),
{
    let y = stack.pop().unwrap();
    let x = stack.pop().unwrap();
    match (x, y) {
        (WasmValue::I64(xv), WasmValue::I64(yv)) => {
            let r = i64_rotl(xv, yv);
            stack.push(WasmValue::I64(r));
        },
        _ => {
            proof {
                assert(false);
            }
        },
    }
}

/// One engine step of the fused `I64XorConstRotl(c)`: a single atomic step,
/// never re-expanded.
pub fn exec_i64_xor_const_rotl(stack: &mut Vec<WasmValue>, c: i64)
    requires
        old(stack)@.len() >= 2,
        old(stack)@[old(stack)@.len() - 1] is I64,
        old(stack)@[old(stack)@.len() - 2] is I64,
    ensures
        final(stack)@ == i64_xor_const_rotl_effect(old(stack)@, c),
{
    let y = stack.pop().unwrap();
    let x = stack.pop().unwrap();
    match (x, y) {
        (WasmValue::I64(xv), WasmValue::I64(yv)) => {
            let r = i64_rotl(xv ^ yv, c);
            stack.push(WasmValue::I64(r));
        },
        _ => {
            proof {
                assert(false);
            }
        },
    }
}

} // verus!
