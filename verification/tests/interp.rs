use virtual_gpu::interp::{weighted_sum, Vector};

#[test]
fn weighted_sum_scalar() {
    let values = [1, 2, 3];
    let weights = [1, 2, 3];
    assert!(weighted_sum(&values, &weights) == 14);
}

#[test]
fn vector_add() {
    let v1 = [1, 2, 3];
    let v2 = [1, 2, 3];
    assert!((Vector::from(v1) + Vector::from(v2)) == [2, 4, 6].into());
}

#[test]
fn vector_mul() {
    let v = [1, 2, 3];
    let s = 10;
    assert!(Vector::from(v) * s == [10, 20, 30].into());
}

#[test]
fn vector_transparency() {
    let v = [1, 2, 3, 4, 5];
    assert!(std::mem::size_of_val(&v) == std::mem::size_of_val(&Vector::from(v)));
}

#[test]
fn weighted_sum_uses_shorter_list() {
    let values = [2u32, 3, 4];
    let weights = [5u32, 7];
    assert_eq!(weighted_sum(&values, &weights), 2 * 5 + 3 * 7);
}

#[test]
fn weighted_sum_of_nothing_is_default() {
    let values: [i64; 0] = [];
    let weights = [1i64, 2];
    assert_eq!(weighted_sum(&values, &weights), 0);
}

#[test]
fn vector_round_trip() {
    let items = [7u8, 8, 9, 10];
    let v = Vector::from(items);
    assert_eq!(v.to_array(), items);
    let back: [u8; 4] = v.into();
    assert_eq!(back, items);
    assert_eq!(v[2], 9);
}

#[test]
fn vector_default_is_zero() {
    let v: Vector<i32, 3> = Default::default();
    assert_eq!(v.to_array(), [0, 0, 0]);
}

#[test]
fn vector_deref_mut_writes_component() {
    let mut v = Vector::from([1u16, 2, 3]);
    v[1] = 20;
    assert_eq!(v.to_array(), [1, 20, 3]);
}

#[test]
fn weighted_sum_vector() {
    let values = vec![
        glam::vec3(1.0, 1.0, 1.0),
        glam::vec3(1.0, 1.0, 1.0),
        glam::vec3(1.0, 1.0, 1.0),
    ];
    let weights = [1.0, 1.0, 1.0];
    assert!(weighted_sum(&values, &weights) == glam::vec3(3.0, 3.0, 3.0,));
}
