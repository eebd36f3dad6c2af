use wirecube::grid::{diagonal, flatten, transpose};

fn counting() -> [[u32; 4]; 4] {
    [[0, 1, 2, 3], [4, 5, 6, 7], [8, 9, 10, 11], [12, 13, 14, 15]]
}

#[test]
fn transpose_swaps_rows_and_columns() {
    let t = transpose(&counting());
    assert_eq!(t, [[0, 4, 8, 12], [1, 5, 9, 13], [2, 6, 10, 14], [3, 7, 11, 15]]);
}

#[test]
fn transpose_twice_is_identity_on_floats() {
    let m: [[f32; 4]; 4] = [
        [1.5, -2.0, 0.25, 3.0],
        [0.0, 7.0, -1.0, 2.5],
        [9.0, 8.0, 6.5, -4.0],
        [0.1, 0.2, 0.3, 1.0],
    ];
    assert_eq!(transpose(&transpose(&m)), m);
}

#[test]
fn diagonal_builds_identity_and_scale() {
    let id = diagonal([1.0f32, 1.0, 1.0, 1.0], 0.0);
    assert_eq!(
        id,
        [[1.0, 0.0, 0.0, 0.0], [0.0, 1.0, 0.0, 0.0], [0.0, 0.0, 1.0, 0.0], [0.0, 0.0, 0.0, 1.0]]
    );
    let s = diagonal([2.0f32, 3.0, 4.0, 1.0], 0.0);
    assert_eq!(s[0][0], 2.0);
    assert_eq!(s[1][1], 3.0);
    assert_eq!(s[2][2], 4.0);
    assert_eq!(s[3][3], 1.0);
    assert_eq!(s[0][3], 0.0);
}

#[test]
fn flatten_reads_row_by_row() {
    let v = flatten(&counting());
    assert_eq!(v, (0..16).collect::<Vec<u32>>());
    let t = flatten(&transpose(&counting()));
    assert_eq!(t[1], 4);
    assert_eq!(t[4], 1);
}
