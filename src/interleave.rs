use vstd::prelude::*;

use crate::mesh::{Point3, TexCoord};

verus! {

/// Why the per-vertex arrays could not be interleaved.
#[derive(Debug, Clone, Copy, PartialEq, Eq, Structural)]
pub enum ShapeError {
    /// The position, normal and texture coordinate arrays differ in length.
    LengthMismatch,
}

/// One interleaved vertex record: position, then normal, then texture
/// coordinate. The normal is of whatever representation the renderer uses.
#[derive(Debug)]
pub struct Vertex<N> {
    pub position: Point3,
    pub normal: N,
    pub texture: TexCoord,
}

impl<N> Vertex<N> {
    /// A record of the three attributes.
    pub fn new(position: Point3, normal: N, texture: TexCoord) -> (r: Vertex<N>)
        ensures
            r.position == position,
            r.normal == normal,
            r.texture == texture,
    {
        Vertex { position, normal, texture }
    }
}

/// Packs index-aligned positions, normals and texture coordinates into one
/// array of records, keeping the order. Fails, producing nothing, unless the
/// three arrays have the same length.
pub fn initialize_vnts<N: Copy>(vs: &Vec<Point3>, ns: &Vec<N>, ts: &Vec<TexCoord>) -> (r: Result<
    Vec<Vertex<N>>,
    ShapeError,
>)
    ensures
        r is Ok <==> (vs@.len() == ns@.len() && vs@.len() == ts@.len()),
        r is Err ==> r->Err_0 == ShapeError::LengthMismatch,
        r is Ok ==> r->Ok_0@.len() == vs@.len() && forall|i: int|
            0 <= i < vs@.len() ==> {
                &&& (#[trigger] r->Ok_0@[i]).position == vs@[i]
                &&& r->Ok_0@[i].normal == ns@[i]
                &&& r->Ok_0@[i].texture == ts@[i]
            },
{
    if vs.len() != ns.len() || vs.len() != ts.len() {
        return Err(ShapeError::LengthMismatch);
    }
    let mut out: Vec<Vertex<N>> = Vec::new();
    let mut i: usize = 0;
    while i < vs.len()
        invariant
            vs@.len() == ns@.len(),
            vs@.len() == ts@.len(),
            i <= vs@.len(),
            out@.len() == i,
            forall|j: int|
                0 <= j < i ==> {
                    &&& (#[trigger] out@[j]).position == vs@[j]
                    &&& out@[j].normal == ns@[j]
                    &&& out@[j].texture == ts@[j]
                },
        decreases vs@.len() - i,
    {
        out.push(Vertex::new(vs[i], ns[i], ts[i]));
        i = i + 1;
    }
    Ok(out)
}

} // verus!
