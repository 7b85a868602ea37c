use ssc::mem::{Memory, GI, KI, MI, TI};

#[test]
fn memory_get_returns_bytes() {
    let m = Memory::from_bytes(123_456);
    assert_eq!(m.get(), 123_456);
}

#[test]
fn memory_get_as_rounds_down() {
    let m = Memory::from_bytes(3 * MI + 5);
    assert_eq!(m.get_as::<1>(), 3 * MI + 5);
    assert_eq!(m.get_as::<KI>(), 3 * KI);
    assert_eq!(m.get_as::<MI>(), 3);
    assert_eq!(m.get_as::<GI>(), 0);
}

#[test]
fn memory_units_nest() {
    let m = Memory::from_bytes(5 * GI + 7 * MI + 9 * KI + 11);
    assert_eq!(m.get_as::<MI>(), m.get_as::<KI>() / KI);
    assert_eq!(m.get_as::<GI>(), m.get_as::<MI>() / KI);
    assert_eq!(m.get_as::<GI>(), 5);
}

#[test]
fn memory_unit_constants() {
    assert_eq!(KI, 1024);
    assert_eq!(MI, 1024 * 1024);
    assert_eq!(GI, 1024 * 1024 * 1024);
    assert_eq!(TI as u64, 1u64 << 40);
    let m = Memory::from_bytes(2 * TI + 1);
    assert_eq!(m.get_as::<TI>(), 2);
}

#[test]
fn memory_is_copy() {
    let m = Memory::from_bytes(42);
    let n = m;
    assert_eq!(m.get(), n.get());
}
