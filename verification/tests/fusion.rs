use tinywasm_types::exec_i64_const;
use tinywasm_types::exec_i64_rotl;
use tinywasm_types::exec_i64_xor;
use tinywasm_types::exec_i64_xor_const_rotl;
use tinywasm_types::exec_local_get;
use tinywasm_types::exec_local_get2;
use tinywasm_types::exec_local_get3;
use tinywasm_types::exec_local_get_set;
use tinywasm_types::exec_local_set;
use tinywasm_types::exec_local_tee;
use tinywasm_types::exec_local_tee_get;
use tinywasm_types::i64_rotl;
use tinywasm_types::WasmValue;

fn sample_locals() -> Vec<WasmValue> {
    vec![
        WasmValue::I32(10),
        WasmValue::I64(-20),
        WasmValue::F32Bits(0x3F80_0000),
        WasmValue::F64Bits(0x3FF0_0000_0000_0000),
    ]
}

fn sample_stack() -> Vec<WasmValue> {
    vec![WasmValue::I32(1), WasmValue::I64(2)]
}

#[test]
fn test_local_get2_matches_two_gets() {
    let locals = sample_locals();
    let mut fused = sample_stack();
    exec_local_get2(&locals, &mut fused, 1, 3);
    let mut unfused = sample_stack();
    exec_local_get(&locals, &mut unfused, 1);
    exec_local_get(&locals, &mut unfused, 3);
    assert_eq!(fused, unfused);
}

#[test]
fn test_local_get3_matches_three_gets() {
    let locals = sample_locals();
    let mut fused = sample_stack();
    exec_local_get3(&locals, &mut fused, 2, 0, 2);
    let mut unfused = sample_stack();
    exec_local_get(&locals, &mut unfused, 2);
    exec_local_get(&locals, &mut unfused, 0);
    exec_local_get(&locals, &mut unfused, 2);
    assert_eq!(fused, unfused);
}

#[test]
fn test_local_tee_get_matches_tee_then_get() {
    let mut locals_fused = sample_locals();
    let mut fused = sample_stack();
    exec_local_tee_get(&mut locals_fused, &mut fused, 0, 3);
    let mut locals_unfused = sample_locals();
    let mut unfused = sample_stack();
    exec_local_tee(&mut locals_unfused, &unfused, 0);
    exec_local_get(&locals_unfused, &mut unfused, 3);
    assert_eq!(fused, unfused);
    assert_eq!(locals_fused, locals_unfused);
}

#[test]
fn test_local_tee_get_same_local() {
    // The get must observe the value the tee just wrote.
    let mut locals_fused = sample_locals();
    let mut fused = sample_stack();
    exec_local_tee_get(&mut locals_fused, &mut fused, 2, 2);
    let mut locals_unfused = sample_locals();
    let mut unfused = sample_stack();
    exec_local_tee(&mut locals_unfused, &unfused, 2);
    exec_local_get(&locals_unfused, &mut unfused, 2);
    assert_eq!(fused, unfused);
    assert_eq!(locals_fused, locals_unfused);
    assert_eq!(fused.last(), Some(&WasmValue::I64(2)));
}

#[test]
fn test_local_get_set_matches_get_then_set() {
    let mut locals_fused = sample_locals();
    exec_local_get_set(&mut locals_fused, 1, 0);
    let mut locals_unfused = sample_locals();
    let mut stack = sample_stack();
    let before = stack.clone();
    exec_local_get(&locals_unfused, &mut stack, 1);
    exec_local_set(&mut locals_unfused, &mut stack, 0);
    assert_eq!(locals_fused, locals_unfused);
    assert_eq!(stack, before);
    assert_eq!(locals_fused[0], WasmValue::I64(-20));
}

#[test]
fn test_i64_xor_const_rotl_matches_unfused_sequence() {
    let cases: [(i64, i64, i64); 5] = [
        (0x0123_4567_89AB_CDEF, 0x0F0F_0F0F_0F0F_0F0F, 13),
        (-1, 0, 1),
        (i64::MIN, i64::MAX, 63),
        (42, -42, 64),
        (7, 9, -3),
    ];
    for (x, y, c) in cases {
        let mut fused = vec![WasmValue::I64(x), WasmValue::I64(y)];
        exec_i64_xor_const_rotl(&mut fused, c);
        let mut unfused = vec![WasmValue::I64(x), WasmValue::I64(y)];
        exec_i64_xor(&mut unfused);
        exec_i64_const(&mut unfused, c);
        exec_i64_rotl(&mut unfused);
        assert_eq!(fused, unfused);
        assert_eq!(fused, vec![WasmValue::I64((x ^ y).rotate_left((c as u64 % 64) as u32))]);
    }
}

#[test]
fn test_i64_rotl_matches_rotate_left() {
    for (x, k) in [(1i64, 1i64), (-2, 63), (0x8000_0000_0000_0001u64 as i64, 4), (5, 0), (5, 64)] {
        assert_eq!(i64_rotl(x, k), x.rotate_left((k as u64 % 64) as u32));
    }
}
