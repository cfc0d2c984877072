use vstd::prelude::*;

verus! {

/// Index `i` of the cube table: face i / 6, as the triangles (0, 1, 2) and
/// (0, 2, 3) of its 4 corners.
pub open spec fn spec_cube_index(i: int) -> u16 {
    let face = i / 6;
    let k = i % 6;
    let corner: int = if k == 0 || k == 3 {
        0
    } else if k == 1 {
        1
    } else if k == 2 || k == 4 {
        2
    } else {
        3
    };
    (4 * face + corner) as u16
}

/// The triangles of a cube whose 24 corners are listed face by face.
pub fn cube_indices() -> (r: Vec<u16>)
    ensures
        r@.len() == 36,
        forall|i: int| 0 <= i < 36 ==> r@[i] == spec_cube_index(i),
{
    let r: Vec<u16> = vec![
        0, 1, 2, 0, 2, 3,  // front
        4, 5, 6, 4, 6, 7,  // back
        8, 9, 10, 8, 10, 11,  // top
        12, 13, 14, 12, 14, 15,  // bottom
        16, 17, 18, 16, 18, 19,  // right
        20, 21, 22, 20, 22, 23,  // left
    ];
    assert forall|i: int| 0 <= i < 36 implies r@[i] == spec_cube_index(i) by {
        vstd::arithmetic::div_mod::lemma_fundamental_div_mod(i, 6);
    }
    r
}

} // verus!
