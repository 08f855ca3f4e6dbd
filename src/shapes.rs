use vstd::prelude::*;

verus! {

/// The coordinate plane an axis-aligned rectangle lies parallel to.
#[derive(Clone, Copy, Debug, PartialEq, Eq, Structural)]
pub enum RectType {
    RectXY,
    RectXZ,
    RectYZ,
}

/// Whether a rectangle's normal points along its axis or against it.
#[derive(Clone, Copy, Debug, PartialEq, Eq, Structural)]
pub enum NormalType {
    Flipped,
    NotFlipped,
}

/// A vector of small integer components, such as a unit normal along an axis.
#[derive(Clone, Copy, Debug, PartialEq, Eq, Structural)]
pub struct AxisVector {
    pub x: i8,
    pub y: i8,
    pub z: i8,
}

/// How a rectangle of a given orientation is read: the axis it is crossed
/// along, its unit normal, and the axes and signs its texture coordinates
/// follow. Axes are numbered 0 (x), 1 (y), 2 (z).
#[derive(Clone, Copy, Debug, PartialEq, Eq, Structural)]
pub struct RectFrame {
    /// The axis of the constant coordinate: a ray meets the rectangle where its
    /// coordinate along this axis equals the rectangle's offset.
    pub plane_axis: usize,
    /// The axis `u` runs along, and its sign.
    pub u_axis: usize,
    pub u_sign: i8,
    /// The axis `v` runs along, and its sign.
    pub v_axis: usize,
    pub v_sign: i8,
    /// The unit normal.
    pub normal: AxisVector,
}

/// `+1` for a normal along its axis, `-1` for a flipped one.
pub open spec fn normal_sign(flip: NormalType) -> i8 {
    if flip is Flipped { -1i8 } else { 1i8 }
}

/// The component of an integer vector along `axis`.
pub open spec fn component(v: AxisVector, axis: int) -> i8 {
    if axis == 0 { v.x } else if axis == 1 { v.y } else { v.z }
}

pub open spec fn frame_of(rect_type: RectType, flip: NormalType) -> RectFrame {
    let s = normal_sign(flip);
    match rect_type {
        RectType::RectXY => RectFrame {
            plane_axis: 2, u_axis: 0, u_sign: s, v_axis: 1, v_sign: -1i8, normal: AxisVector { x: 0, y: 0, z: s },
        },
        RectType::RectXZ => RectFrame {
            plane_axis: 1, u_axis: 0, u_sign: s, v_axis: 2, v_sign: 1i8, normal: AxisVector { x: 0, y: s, z: 0 },
        },
        RectType::RectYZ => RectFrame {
            plane_axis: 0, u_axis: 2, u_sign: (-s) as i8, v_axis: 1, v_sign: -1i8, normal: AxisVector { x: s, y: 0, z: 0 },
        },
    }
}

/// The frame of a rectangle: its normal is the unit vector along the plane axis
/// (negated when flipped), and the plane axis and the two texture axes are the
/// three distinct coordinate axes.
pub fn rect_frame(rect_type: RectType, flip: NormalType) -> (r: RectFrame)
    ensures
        r == frame_of(rect_type, flip),
        r.plane_axis < 3 && r.u_axis < 3 && r.v_axis < 3,
        r.plane_axis != r.u_axis && r.plane_axis != r.v_axis && r.u_axis != r.v_axis,
        component(r.normal, r.plane_axis as int) == normal_sign(flip),
        component(r.normal, r.u_axis as int) == 0,
        component(r.normal, r.v_axis as int) == 0,
{
    let s: i8 = match flip {
        NormalType::Flipped => -1,
        NormalType::NotFlipped => 1,
    };
    match rect_type {
        RectType::RectXY => RectFrame {
            plane_axis: 2, u_axis: 0, u_sign: s, v_axis: 1, v_sign: -1, normal: AxisVector { x: 0, y: 0, z: s },
        },
        RectType::RectXZ => RectFrame {
            plane_axis: 1, u_axis: 0, u_sign: s, v_axis: 2, v_sign: 1, normal: AxisVector { x: 0, y: s, z: 0 },
        },
        RectType::RectYZ => RectFrame {
            plane_axis: 0, u_axis: 2, u_sign: -s, v_axis: 1, v_sign: -1, normal: AxisVector { x: s, y: 0, z: 0 },
        },
    }
}

/// One face of an axis-aligned box: its orientation, whether it lies on the
/// high or the low side of the box along its plane axis, and its normal.
#[derive(Clone, Copy, Debug, PartialEq, Eq, Structural)]
pub struct CuboidFace {
    pub rect_type: RectType,
    pub at_max: bool,
    pub flip: NormalType,
}

pub open spec fn cuboid_layout() -> Seq<CuboidFace> {
    seq![
        CuboidFace { rect_type: RectType::RectXY, at_max: false, flip: NormalType::Flipped },
        CuboidFace { rect_type: RectType::RectXY, at_max: true, flip: NormalType::NotFlipped },
        CuboidFace { rect_type: RectType::RectXZ, at_max: false, flip: NormalType::Flipped },
        CuboidFace { rect_type: RectType::RectXZ, at_max: true, flip: NormalType::NotFlipped },
        CuboidFace { rect_type: RectType::RectYZ, at_max: false, flip: NormalType::Flipped },
        CuboidFace { rect_type: RectType::RectYZ, at_max: true, flip: NormalType::NotFlipped },
    ]
}

/// The six faces that enclose a box, in the order the box tests them.
pub fn cuboid_faces() -> (r: Vec<CuboidFace>)
    ensures
        r@ == cuboid_layout(),
{
    let r = vec![
        CuboidFace { rect_type: RectType::RectXY, at_max: false, flip: NormalType::Flipped },
        CuboidFace { rect_type: RectType::RectXY, at_max: true, flip: NormalType::NotFlipped },
        CuboidFace { rect_type: RectType::RectXZ, at_max: false, flip: NormalType::Flipped },
        CuboidFace { rect_type: RectType::RectXZ, at_max: true, flip: NormalType::NotFlipped },
        CuboidFace { rect_type: RectType::RectYZ, at_max: false, flip: NormalType::Flipped },
        CuboidFace { rect_type: RectType::RectYZ, at_max: true, flip: NormalType::NotFlipped },
    ];
    assert(r@ =~= cuboid_layout());
    r
}

/// The box's faces enclose it: each of the three orientations occurs exactly
/// twice, once on each side, and every face's normal points out of the box
/// (towards the high side on the high face, the low side on the low face).
pub proof fn lemma_cuboid_encloses()
    ensures
        cuboid_layout().len() == 6,
        forall|i: int| 0 <= i < 6 ==> {
            let f = #[trigger] cuboid_layout()[i];
            let fr = frame_of(f.rect_type, f.flip);
            component(fr.normal, fr.plane_axis as int) == (if f.at_max { 1i8 } else { -1i8 })
        },
        forall|i: int, j: int| 0 <= i < 6 && 0 <= j < 6 && i != j ==>
            !(#[trigger] cuboid_layout()[i].rect_type == #[trigger] cuboid_layout()[j].rect_type
                && cuboid_layout()[i].at_max == cuboid_layout()[j].at_max),
{
}

} // verus!
