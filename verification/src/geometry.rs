//! The cube: 24 vertices, four for each of its six faces, so that each face
//! can carry a colour of its own, and the 36 indices that cut every face into
//! two triangles.

use vstd::prelude::*;
use crate::command::BufferSlot;

verus! {

/// Number of faces of the cube.
pub const FACE_COUNT: usize = 6;

/// Number of vertices, four for each face.
pub const VERTEX_COUNT: usize = 24;

/// Number of indices, six for each face.
pub const INDEX_COUNT: usize = 36;

/// Number of triangles, two for each face.
pub const TRIANGLE_COUNT: usize = 12;

/// The corners of the cube, three coordinates for each vertex, face after
/// face in the order of [`FACES`]. Every coordinate is 1 or -1.
pub const CORNERS: [i8; 72] = [
    -1, -1, 1, 1, -1, 1, 1, 1, 1, -1, 1, 1,
    -1, -1, -1, -1, 1, -1, 1, 1, -1, 1, -1, -1,
    -1, 1, -1, -1, 1, 1, 1, 1, 1, 1, 1, -1,
    -1, -1, -1, 1, -1, -1, 1, -1, 1, -1, -1, 1,
    1, -1, -1, 1, 1, -1, 1, 1, 1, 1, -1, 1,
    -1, -1, -1, -1, -1, 1, -1, 1, 1, -1, 1, -1,
];

/// The faces in the order in which the buffers list them.
pub const FACES: [Face; 6] = [
    Face::Front,
    Face::Back,
    Face::Top,
    Face::Bottom,
    Face::Right,
    Face::Left,
];

/// The order in which the four corners of a face are visited to draw its two
/// triangles: a fan around the first corner.
pub const FAN: [u16; 6] = [0, 1, 2, 0, 2, 3];

/// A face of the cube.
#[derive(Clone, Copy, Debug, PartialEq, Eq, Structural)]
pub enum Face {
    Front,
    Back,
    Top,
    Bottom,
    Right,
    Left,
}

/// The data of one buffer, in the number type that the buffer is made of.
#[derive(Debug)]
pub enum BufferData {
    /// Vertex coordinates, three for each vertex.
    Coordinates(Vec<i8>),
    /// Colour channels, four for each vertex.
    Channels(Vec<u8>),
    /// Vertex indices, three for each triangle.
    Indices(Vec<u16>),
}

impl Face {
    /// The face's colour as red, green, blue and alpha, each 0 or 1.
    pub open spec fn rgba(self) -> Seq<u8> {
        match self {
            Face::Front => seq![1u8, 1u8, 1u8, 1u8],
            Face::Back => seq![1u8, 0u8, 0u8, 1u8],
            Face::Top => seq![0u8, 1u8, 0u8, 1u8],
            Face::Bottom => seq![0u8, 0u8, 1u8, 1u8],
            Face::Right => seq![1u8, 1u8, 0u8, 1u8],
            Face::Left => seq![1u8, 0u8, 1u8, 1u8],
        }
    }

    /// The coordinate axis that the face is perpendicular to: 0 for x, 1 for
    /// y, 2 for z.
    pub open spec fn axis(self) -> int {
        match self {
            Face::Right | Face::Left => 0,
            Face::Top | Face::Bottom => 1,
            Face::Front | Face::Back => 2,
        }
    }

    /// The value that all points of the face have along its axis.
    pub open spec fn side(self) -> int {
        match self {
            Face::Front | Face::Top | Face::Right => 1,
            Face::Back | Face::Bottom | Face::Left => -1,
        }
    }

    /// The face's colour: white in front, red at the back, green on top, blue
    /// at the bottom, yellow to the right, purple to the left, all opaque.
    pub fn color(self) -> (channels: [u8; 4])
        ensures
            channels@ == self.rgba(),
    {
        let channels: [u8; 4] = match self {
            Face::Front => [1, 1, 1, 1],
            Face::Back => [1, 0, 0, 1],
            Face::Top => [0, 1, 0, 1],
            Face::Bottom => [0, 0, 1, 1],
            Face::Right => [1, 1, 0, 1],
            Face::Left => [1, 0, 1, 1],
        };
        assert(channels@ =~= self.rgba());
        channels
    }
}

/// The coordinate at place `i` of the position buffer.
pub open spec fn position_at(i: int) -> i8 {
    CORNERS@[i]
}

/// The colour channel at place `i` of the colour buffer: the channel of the
/// face that the vertex belongs to.
pub open spec fn color_at(i: int) -> u8 {
    FACES@[i / 16].rgba()[i % 4]
}

/// The index at place `i` of the index buffer: the face's first vertex plus
/// the corner that the fan visits.
pub open spec fn index_at(i: int) -> u16 {
    (4 * (i / 6) + FAN@[i % 6]) as u16
}

/// What the position buffer holds.
pub open spec fn position_list() -> Seq<i8> {
    Seq::new(72, |i: int| position_at(i))
}

/// What the colour buffer holds.
pub open spec fn color_list() -> Seq<u8> {
    Seq::new(96, |i: int| color_at(i))
}

/// What the index buffer holds.
pub open spec fn index_list() -> Seq<u16> {
    Seq::new(36, |i: int| index_at(i))
}

/// The coordinate of `vertex` along `axis` (0 for x, 1 for y, 2 for z).
pub open spec fn coordinate(vertex: int, axis: int) -> int {
    position_at(3 * vertex + axis) as int
}

/// The face that `vertex` belongs to.
pub open spec fn face_of(vertex: int) -> Face {
    FACES@[vertex / 4]
}

/// The vertex positions, three coordinates for each of the 24 vertices.
pub fn positions() -> (list: Vec<i8>)
    ensures
        list@ == position_list(),
{
    let mut list: Vec<i8> = Vec::new();
    let mut i: usize = 0;
    while i < 72
        invariant
            i <= 72,
            list@.len() == i,
            forall|k: int| 0 <= k < i ==> list@[k] == position_at(k),
        decreases 72 - i,
    {
        list.push(CORNERS[i]);
        i += 1;
    }
    assert(list@ =~= position_list());
    list
}

/// The vertex colours, four channels for each of the 24 vertices: every
/// vertex has the colour of its face.
pub fn colors() -> (list: Vec<u8>)
    ensures
        list@ == color_list(),
{
    let mut list: Vec<u8> = Vec::new();
    let mut face: usize = 0;
    while face < 6
        invariant
            face <= 6,
            list@.len() == 16 * face,
            forall|k: int| 0 <= k < list@.len() ==> list@[k] == color_at(k),
        decreases 6 - face,
    {
        let channels = FACES[face].color();
        let mut corner: usize = 0;
        while corner < 4
            invariant
                face < 6,
                corner <= 4,
                channels@ == FACES@[face as int].rgba(),
                list@.len() == 16 * face + 4 * corner,
                forall|k: int| 0 <= k < list@.len() ==> list@[k] == color_at(k),
            decreases 4 - corner,
        {
            list.push(channels[0]);
            list.push(channels[1]);
            list.push(channels[2]);
            list.push(channels[3]);
            corner += 1;
        }
        face += 1;
    }
    assert(list@ =~= color_list());
    list
}

/// The triangle indices, six for each face: two triangles that fan out from
/// the face's first vertex.
pub fn indices() -> (list: Vec<u16>)
    ensures
        list@ == index_list(),
{
    let mut list: Vec<u16> = Vec::new();
    let mut face: u16 = 0;
    while face < 6
        invariant
            face <= 6,
            list@.len() == 6 * face,
            forall|k: int| 0 <= k < list@.len() ==> list@[k] == index_at(k),
        decreases 6 - face,
    {
        let first: u16 = 4 * face;
        let mut step: usize = 0;
        while step < 6
            invariant
                face < 6,
                step <= 6,
                first == 4 * face,
                list@.len() == 6 * face + step,
                forall|k: int| 0 <= k < list@.len() ==> list@[k] == index_at(k),
            decreases 6 - step,
        {
            list.push(first + FAN[step]);
            step += 1;
        }
        face += 1;
    }
    assert(list@ =~= index_list());
    list
}

/// The data that fills a buffer: coordinates for the position buffer, colour
/// channels for the colour buffer, indices for the index buffer.
pub fn buffer_data(slot: BufferSlot) -> (data: BufferData)
    ensures
        slot == BufferSlot::Position ==> (data matches BufferData::Coordinates(list) && list@
            == position_list()),
        slot == BufferSlot::Color ==> (data matches BufferData::Channels(list) && list@
            == color_list()),
        slot == BufferSlot::Index ==> (data matches BufferData::Indices(list) && list@
            == index_list()),
{
    match slot {
        BufferSlot::Position => BufferData::Coordinates(positions()),
        BufferSlot::Color => BufferData::Channels(colors()),
        BufferSlot::Index => BufferData::Indices(indices()),
    }
}

/// Every index names one of the 24 vertices.
pub proof fn indices_name_vertices(i: int)
    requires
        0 <= i < INDEX_COUNT,
    ensures
        0 <= index_list()[i] < VERTEX_COUNT,
{
}

/// The 36 indices form 12 triangles. The three indices of a triangle name
/// three different vertices, all of the face that the triangle belongs to.
pub proof fn triangles_stay_on_their_face(triangle: int)
    requires
        0 <= triangle < TRIANGLE_COUNT,
    ensures
        index_list().len() == 3 * TRIANGLE_COUNT,
        forall|k: int| 0 <= k < 3 ==> 0 <= #[trigger] index_list()[3 * triangle + k] < VERTEX_COUNT,
        forall|k: int| 0 <= k < 3 ==> #[trigger] index_list()[3 * triangle + k] / 4 == triangle / 2,
        index_list()[3 * triangle] != index_list()[3 * triangle + 1],
        index_list()[3 * triangle] != index_list()[3 * triangle + 2],
        index_list()[3 * triangle + 1] != index_list()[3 * triangle + 2],
{
}

/// The six indices of a face name exactly the four vertices of that face.
pub proof fn face_indices_cover_the_face(face: int, vertex: int)
    requires
        0 <= face < FACE_COUNT,
    ensures
        (exists|k: int| 0 <= k < 6 && #[trigger] index_list()[6 * face + k] == vertex) <==> 4 * face
            <= vertex < 4 * face + 4,
{
    if 4 * face <= vertex < 4 * face + 4 {
        let k = vertex - 4 * face;
        assert(index_list()[6 * face + (if k == 3 { 5 } else { k })] == vertex);
    }
}

/// The four vertices of a face lie in one plane of the cube: along the
/// face's axis each of them has the coordinate of the face's side, and every
/// coordinate of every vertex is 1 or -1.
pub proof fn face_lies_in_one_plane(vertex: int)
    requires
        0 <= vertex < VERTEX_COUNT,
    ensures
        coordinate(vertex, face_of(vertex).axis()) == face_of(vertex).side(),
        forall|axis: int| 0 <= axis < 3 ==> #[trigger] coordinate(vertex, axis) == 1 || coordinate(vertex, axis) == -1,
{
}

/// Every index of the buffer refers to a vertex in the plane of the face that
/// the index's group of six belongs to.
pub proof fn indexed_vertices_lie_in_their_plane(i: int)
    requires
        0 <= i < INDEX_COUNT,
    ensures
        coordinate(index_list()[i] as int, FACES@[i / 6].axis()) == FACES@[i / 6].side(),
{
    triangles_stay_on_their_face(i / 3);
    assert(index_list()[3 * (i / 3) + i % 3] / 4 == (i / 3) / 2);
    face_lies_in_one_plane(index_list()[i] as int);
}

} // verus!
