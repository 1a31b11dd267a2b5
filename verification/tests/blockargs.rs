use tinywasm_types::BlockArgs;
use tinywasm_types::BlockArgsPacked;
use tinywasm_types::ValType;

#[test]
fn test_empty() {
    let args = BlockArgs::Empty;
    let packed = BlockArgsPacked::new(args);
    assert_eq!(packed.unpack(), BlockArgs::Empty);
}

#[test]
fn test_val_type_i32() {
    let args = BlockArgs::Type(ValType::I32);
    let packed = BlockArgsPacked::new(args);
    assert_eq!(packed.unpack(), BlockArgs::Type(ValType::I32));
}

#[test]
fn test_val_type_i64() {
    let args = BlockArgs::Type(ValType::I64);
    let packed = BlockArgsPacked::new(args);
    assert_eq!(packed.unpack(), BlockArgs::Type(ValType::I64));
}

#[test]
fn test_val_type_f32() {
    let args = BlockArgs::Type(ValType::F32);
    let packed = BlockArgsPacked::new(args);
    assert_eq!(packed.unpack(), BlockArgs::Type(ValType::F32));
}

#[test]
fn test_val_type_f64() {
    let args = BlockArgs::Type(ValType::F64);
    let packed = BlockArgsPacked::new(args);
    assert_eq!(packed.unpack(), BlockArgs::Type(ValType::F64));
}

#[test]
fn test_func_type() {
    let func_type = 123; // Use an arbitrary u32 value
    let args = BlockArgs::FuncType(func_type);
    let packed = BlockArgsPacked::new(args);
    assert_eq!(packed.unpack(), BlockArgs::FuncType(func_type));
}

#[test]
fn test_round_trip_all_value_types() {
    let types = [
        ValType::I32,
        ValType::I64,
        ValType::F32,
        ValType::F64,
        ValType::V128,
        ValType::RefFunc,
        ValType::RefExtern,
    ];
    for t in types {
        let packed = BlockArgsPacked::new(BlockArgs::Type(t));
        assert_eq!(packed.unpack(), BlockArgs::Type(t));
    }
}

#[test]
fn test_func_type_boundaries() {
    for x in [0u32, 1, 0xFF, 0x100, 0xABCD, 0x12345678, u32::MAX - 1, u32::MAX] {
        let packed = BlockArgsPacked::new(BlockArgs::FuncType(x));
        assert_eq!(packed.unpack(), BlockArgs::FuncType(x));
    }
}

#[test]
fn test_packed_new_is_valid() {
    assert!(BlockArgsPacked::new(BlockArgs::Empty).is_valid());
    assert!(BlockArgsPacked::new(BlockArgs::Type(ValType::RefExtern)).is_valid());
    assert!(BlockArgsPacked::new(BlockArgs::FuncType(u32::MAX)).is_valid());
}

#[test]
fn test_repack_after_wide_value_forgets_trailing_bytes() {
    // A buffer that once held the all-ones function-type index, then is
    // rebuilt for the Empty and single-type cases: the unused trailing bytes
    // of the earlier value are never observed by the later round trips.
    let wide = BlockArgsPacked::new(BlockArgs::FuncType(u32::MAX));
    assert_eq!(wide.unpack(), BlockArgs::FuncType(u32::MAX));
    let empty = BlockArgsPacked::new(BlockArgs::Empty);
    assert_eq!(empty.unpack(), BlockArgs::Empty);
    let typed = BlockArgsPacked::new(BlockArgs::Type(ValType::I32));
    assert_eq!(typed.unpack(), BlockArgs::Type(ValType::I32));
}
