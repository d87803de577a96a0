use crate::allocation::AllocatedBuffer;
use crate::allocation::BufferState;
use crate::allocation::MemoryLocation;
use crate::allocation::TeardownStep;
use crate::bytes::append_words;
use crate::bytes::holds_words;
use crate::bytes::in_machine_order;
use crate::bytes::long_bytes;
use crate::bytes::long_little_endian;
use crate::constants::BUFFER_USAGE_INDEX_BUFFER;
use crate::constants::BUFFER_USAGE_SHADER_DEVICE_ADDRESS;
use crate::constants::BUFFER_USAGE_STORAGE_BUFFER;
use crate::constants::BUFFER_USAGE_TRANSFER_DST;
use crate::constants::BUFFER_USAGE_TRANSFER_SRC;
use crate::constants::FILTER_LINEAR;
use crate::constants::FILTER_NEAREST;
use crate::device::BufferCopy;
use crate::device::BufferCreateInfo;
use crate::device::Command;
use crate::device::Device;
use vstd::prelude::*;

verus! {

/// The bit pattern of the single-precision float 0.0.
pub const FLOAT_ZERO: u32 = 0;

/// The bit pattern of the single-precision float 1.0.
pub const FLOAT_ONE: u32 = 0x3F80_0000;

/// The bytes of one vertex in a vertex buffer: twelve floats.
pub const VERTEX_SIZE: usize = 48;

/// The bytes of one index in an index buffer.
pub const INDEX_SIZE: usize = 4;

/// The name of a mesh that the asset does not name.
pub const UNNAMED_MESH: &'static str = "Unnamed Mesh";

/// Two floats, each held as its bit pattern.
#[derive(Clone, Copy, Debug, PartialEq, Eq, Structural)]
pub struct Vec2 {
    pub x: u32,
    pub y: u32,
}

/// Three floats, each held as its bit pattern.
#[derive(Clone, Copy, Debug, PartialEq, Eq, Structural)]
pub struct Vec3 {
    pub x: u32,
    pub y: u32,
    pub z: u32,
}

/// Four floats, each held as its bit pattern.
#[derive(Clone, Copy, Debug, PartialEq, Eq, Structural)]
pub struct Vec4 {
    pub x: u32,
    pub y: u32,
    pub z: u32,
    pub w: u32,
}

/// One vertex as the shader reads it. Every float is held as its bit
/// pattern: the vertex is stored and copied, never computed with.
#[derive(Clone, Copy, Debug, PartialEq, Eq, Structural)]
pub struct Vertex {
    pub position: Vec3,
    pub uv_x: u32,
    pub normal: Vec3,
    pub uv_y: u32,
    pub color: Vec4,
}

impl Vertex {
    pub fn new(position: Vec3, uv_x: u32, normal: Vec3, uv_y: u32, color: Vec4) -> (vertex: Self)
        ensures
            vertex == (Vertex { position, uv_x, normal, uv_y, color }),
    {
        Self { position, uv_x, normal, uv_y, color }
    }
}

/// One drawable range of a mesh's index buffer: where it starts and how
/// many indices it holds.
#[derive(Clone, Copy, Debug, PartialEq, Eq, Structural)]
pub struct GeometricSurface {
    pub start_idx: usize,
    pub count: u32,
}

impl GeometricSurface {
    pub open spec fn spec_start_idx(&self) -> usize {
        self.start_idx
    }

    pub open spec fn spec_count(&self) -> u32 {
        self.count
    }

    pub fn new(start_idx: usize, count: u32) -> (surface: Self)
        ensures
            surface.spec_start_idx() == start_idx,
            surface.spec_count() == count,
    {
        GeometricSurface { start_idx, count }
    }

    #[verifier::when_used_as_spec(spec_start_idx)]
    pub fn start_idx(&self) -> (start: usize)
        ensures
            start == self.spec_start_idx(),
    {
        self.start_idx
    }

    #[verifier::when_used_as_spec(spec_count)]
    pub fn count(&self) -> (count: u32)
        ensures
            count == self.spec_count(),
    {
        self.count
    }
}

/// What an asset file holds of one primitive of a mesh. Only the positions
/// are needed; what else is missing takes its default.
#[derive(Debug)]
pub struct Primitive {
    pub indices: Option<Vec<u32>>,
    pub positions: Option<Vec<Vec3>>,
    pub normals: Option<Vec<Vec3>>,
    pub tex_coords: Option<Vec<Vec2>>,
    pub colors: Option<Vec<Vec4>>,
}

/// What an asset file holds of one mesh.
#[derive(Debug)]
pub struct MeshSource {
    pub name: Option<String>,
    pub primitives: Vec<Primitive>,
}

/// Why a mesh cannot be put together.
#[derive(Clone, Copy, Debug, PartialEq, Eq, Structural)]
pub enum MeshError {
    /// An index, moved behind the vertices of the earlier primitives, or
    /// the number of indices, is beyond thirty-two bits.
    IndexOverflow,
    /// A primitive has no positions.
    MissingPositions,
    /// A primitive has more normals, texture coordinates or colors than
    /// positions.
    AttributeOverflow,
}

/// The geometry of one mesh, put together: one index list and one vertex
/// list for all its primitives, and one surface per primitive.
#[derive(Debug)]
pub struct MeshGeometry {
    pub name: String,
    pub surfaces: Vec<GeometricSurface>,
    pub indices: Vec<u32>,
    pub vertices: Vec<Vertex>,
}

/// The mathematical content of a `Primitive`.
pub struct PrimitiveModel {
    pub indices: Option<Seq<u32>>,
    pub positions: Option<Seq<Vec3>>,
    pub normals: Option<Seq<Vec3>>,
    pub tex_coords: Option<Seq<Vec2>>,
    pub colors: Option<Seq<Vec4>>,
}

impl View for Primitive {
    type V = PrimitiveModel;

    open spec fn view(&self) -> PrimitiveModel {
        PrimitiveModel {
            indices: match self.indices {
                Some(indices) => Some(indices@),
                None => None,
            },
            positions: match self.positions {
                Some(positions) => Some(positions@),
                None => None,
            },
            normals: match self.normals {
                Some(normals) => Some(normals@),
                None => None,
            },
            tex_coords: match self.tex_coords {
                Some(tex_coords) => Some(tex_coords@),
                None => None,
            },
            colors: match self.colors {
                Some(colors) => Some(colors@),
                None => None,
            },
        }
    }
}

/// The vertex at a position before any other attribute is known: no
/// texture coordinate, no normal, white.
pub open spec fn default_vertex(position: Vec3) -> Vertex {
    Vertex {
        position,
        uv_x: FLOAT_ZERO,
        normal: Vec3 { x: FLOAT_ZERO, y: FLOAT_ZERO, z: FLOAT_ZERO },
        uv_y: FLOAT_ZERO,
        color: Vec4 { x: FLOAT_ONE, y: FLOAT_ONE, z: FLOAT_ONE, w: FLOAT_ONE },
    }
}

impl PrimitiveModel {
    /// The number of vertices of the primitive.
    pub open spec fn vertex_count(self) -> nat {
        match self.positions {
            Some(positions) => positions.len(),
            None => 0,
        }
    }

    /// The number of indices of the primitive.
    pub open spec fn index_count(self) -> nat {
        match self.indices {
            Some(indices) => indices.len(),
            None => 0,
        }
    }

    /// Why the primitive cannot follow `initial_vtx` earlier vertices, if
    /// it cannot.
    pub open spec fn error(self, initial_vtx: nat) -> Option<MeshError> {
        if self.indices matches Some(indices) && (indices.len() > u32::MAX || initial_vtx
            > u32::MAX || exists|i: int|
            0 <= i < indices.len() && #[trigger] indices[i] + initial_vtx > u32::MAX) {
            Some(MeshError::IndexOverflow)
        } else if self.positions is None {
            Some(MeshError::MissingPositions)
        } else if (self.normals matches Some(normals) && normals.len() > self.vertex_count()) || (
        self.tex_coords matches Some(tex_coords) && tex_coords.len() > self.vertex_count()) || (
        self.colors matches Some(colors) && colors.len() > self.vertex_count()) {
            Some(MeshError::AttributeOverflow)
        } else {
            None
        }
    }

    /// The indices of the primitive, each moved behind the `initial_vtx`
    /// vertices of the earlier primitives.
    pub open spec fn moved_indices(self, initial_vtx: nat) -> Seq<u32> {
        match self.indices {
            Some(indices) => Seq::new(indices.len(), |i: int| (indices[i] + initial_vtx) as u32),
            None => Seq::empty(),
        }
    }

    /// The vertex of index `i`: its position, and each other attribute
    /// where the asset holds it, else its default.
    pub open spec fn vertex(self, i: int) -> Vertex {
        let placed = default_vertex(self.positions->0[i]);
        let lit = match self.normals {
            Some(normals) => if i < normals.len() {
                Vertex { normal: normals[i], ..placed }
            } else {
                placed
            },
            None => placed,
        };
        let mapped = match self.tex_coords {
            Some(tex_coords) => if i < tex_coords.len() {
                Vertex { uv_x: tex_coords[i].x, uv_y: tex_coords[i].y, ..lit }
            } else {
                lit
            },
            None => lit,
        };
        match self.colors {
            Some(colors) => if i < colors.len() {
                Vertex { color: colors[i], ..mapped }
            } else {
                mapped
            },
            None => mapped,
        }
    }

    pub open spec fn vertices(self) -> Seq<Vertex> {
        Seq::new(self.vertex_count(), |i: int| self.vertex(i))
    }
}

/// The geometry of primitives put together, as mathematics.
pub struct GeometryModel {
    pub surfaces: Seq<GeometricSurface>,
    pub indices: Seq<u32>,
    pub vertices: Seq<Vertex>,
}

impl GeometryModel {
    pub open spec fn empty() -> GeometryModel {
        GeometryModel { surfaces: Seq::empty(), indices: Seq::empty(), vertices: Seq::empty() }
    }

    /// This geometry with one more primitive: its indices moved behind the
    /// vertices so far, a surface for them, and its vertices.
    pub open spec fn with_primitive(self, primitive: PrimitiveModel) -> GeometryModel {
        GeometryModel {
            surfaces: self.surfaces.push(
                GeometricSurface {
                    start_idx: self.indices.len() as usize,
                    count: primitive.index_count() as u32,
                },
            ),
            indices: self.indices + primitive.moved_indices(self.vertices.len()),
            vertices: self.vertices + primitive.vertices(),
        }
    }

    /// This geometry with the color of each vertex replaced by its normal,
    /// opaque.
    pub open spec fn colored_by_normals(self) -> GeometryModel {
        GeometryModel {
            vertices: Seq::new(
                self.vertices.len(),
                |i: int|
                    Vertex {
                        color: Vec4 {
                            x: self.vertices[i].normal.x,
                            y: self.vertices[i].normal.y,
                            z: self.vertices[i].normal.z,
                            w: FLOAT_ONE,
                        },
                        ..self.vertices[i]
                    },
            ),
            ..self
        }
    }
}

/// The geometry of the first `count` of `primitives`, or the first reason
/// why they cannot be put together.
pub open spec fn assembled(primitives: Seq<Primitive>, count: nat) -> Result<
    GeometryModel,
    MeshError,
>
    decreases count,
{
    if count == 0 {
        Ok(GeometryModel::empty())
    } else {
        match assembled(primitives, (count - 1) as nat) {
            Err(error) => Err(error),
            Ok(geometry) => match primitives[count - 1]@.error(geometry.vertices.len()) {
                Some(error) => Err(error),
                None => Ok(geometry.with_primitive(primitives[count - 1]@)),
            },
        }
    }
}

/// The geometry of a whole mesh: of all its primitives, with the colors
/// replaced by the normals where asked for.
pub open spec fn mesh_geometry(primitives: Seq<Primitive>, overwrite_color_with_normals: bool)
    -> Result<GeometryModel, MeshError> {
    match assembled(primitives, primitives.len()) {
        Err(error) => Err(error),
        Ok(geometry) => if overwrite_color_with_normals {
            Ok(geometry.colored_by_normals())
        } else {
            Ok(geometry)
        },
    }
}

/// Why `primitive` cannot follow `initial_vtx` earlier vertices, if it
/// cannot.
fn check_primitive(primitive: &Primitive, initial_vtx: usize) -> (error: Option<MeshError>)
    ensures
        error == primitive@.error(initial_vtx as nat),
{
    match &primitive.indices {
        Some(indices) => {
            if indices.len() > u32::MAX as usize || initial_vtx > u32::MAX as usize {
                return Some(MeshError::IndexOverflow);
            }
            let room: u32 = u32::MAX - initial_vtx as u32;
            let mut i: usize = 0;
            while i < indices.len()
                invariant
                    i <= indices.len(),
                    primitive.indices == Some(*indices),
                    room == u32::MAX - initial_vtx,
                    forall|k: int| 0 <= k < i ==> #[trigger] indices@[k] + initial_vtx <= u32::MAX,
                decreases indices.len() - i,
            {
                if indices[i] > room {
                    assert(primitive@.indices->0[i as int] + initial_vtx > u32::MAX);
                    return Some(MeshError::IndexOverflow);
                }
                i += 1;
            }
        },
        None => {},
    }
    let vertex_count = match &primitive.positions {
        Some(positions) => positions.len(),
        None => {
            return Some(MeshError::MissingPositions);
        },
    };
    let too_many_normals = match &primitive.normals {
        Some(normals) => normals.len() > vertex_count,
        None => false,
    };
    let too_many_tex_coords = match &primitive.tex_coords {
        Some(tex_coords) => tex_coords.len() > vertex_count,
        None => false,
    };
    let too_many_colors = match &primitive.colors {
        Some(colors) => colors.len() > vertex_count,
        None => false,
    };
    if too_many_normals || too_many_tex_coords || too_many_colors {
        Some(MeshError::AttributeOverflow)
    } else {
        None
    }
}

/// Appends `primitive` to the geometry put together so far.
fn append_primitive(
    primitive: &Primitive,
    surfaces: &mut Vec<GeometricSurface>,
    indices: &mut Vec<u32>,
    vertices: &mut Vec<Vertex>,
)
    requires
        primitive@.error(old(vertices)@.len()) is None,
    ensures
        (GeometryModel { surfaces: final(surfaces)@, indices: final(indices)@, vertices: final(vertices)@ })
            == (GeometryModel {
            surfaces: old(surfaces)@,
            indices: old(indices)@,
            vertices: old(vertices)@,
        }).with_primitive(primitive@),
{
    let start_idx = indices.len();
    let initial_vtx = vertices.len();
    let mut count: u32 = 0;
    match &primitive.indices {
        Some(own) => {
            count = own.len() as u32;
            let mut i: usize = 0;
            while i < own.len()
                invariant
                    i <= own.len(),
                    initial_vtx <= u32::MAX,
                    forall|k: int| 0 <= k < own.len() ==> #[trigger] own@[k] + initial_vtx <= u32::MAX,
                    indices@ == old(indices)@ + Seq::new(
                        i as nat,
                        |k: int| (own@[k] + initial_vtx) as u32,
                    ),
                decreases own.len() - i,
            {
                indices.push(own[i] + initial_vtx as u32);
                i += 1;
                assert(indices@ =~= old(indices)@ + Seq::new(
                    i as nat,
                    |k: int| (own@[k] + initial_vtx) as u32,
                ));
            }
        },
        None => {
            assert(indices@ =~= old(indices)@ + Seq::<u32>::empty());
        },
    }
    surfaces.push(GeometricSurface { start_idx, count });
    match &primitive.positions {
        Some(positions) => {
            let mut i: usize = 0;
            while i < positions.len()
                invariant
                    i <= positions.len(),
                    primitive.positions == Some(*positions),
                    primitive@.error(initial_vtx as nat) is None,
                    vertices@ == old(vertices)@ + Seq::new(i as nat, |k: int| primitive@.vertex(k)),
                decreases positions.len() - i,
            {
                let mut vertex = Vertex::new(
                    positions[i],
                    FLOAT_ZERO,
                    Vec3 { x: FLOAT_ZERO, y: FLOAT_ZERO, z: FLOAT_ZERO },
                    FLOAT_ZERO,
                    Vec4 { x: FLOAT_ONE, y: FLOAT_ONE, z: FLOAT_ONE, w: FLOAT_ONE },
                );
                match &primitive.normals {
                    Some(normals) => {
                        if i < normals.len() {
                            vertex.normal = normals[i];
                        }
                    },
                    None => {},
                }
                match &primitive.tex_coords {
                    Some(tex_coords) => {
                        if i < tex_coords.len() {
                            vertex.uv_x = tex_coords[i].x;
                            vertex.uv_y = tex_coords[i].y;
                        }
                    },
                    None => {},
                }
                match &primitive.colors {
                    Some(colors) => {
                        if i < colors.len() {
                            vertex.color = colors[i];
                        }
                    },
                    None => {},
                }
                assert(vertex == primitive@.vertex(i as int));
                vertices.push(vertex);
                i += 1;
                assert(vertices@ =~= old(vertices)@ + Seq::new(
                    i as nat,
                    |k: int| primitive@.vertex(k),
                ));
            }
        },
        None => {},
    }
}

/// One mesh of an asset, with what the device holds of it.
#[derive(Debug)]
pub struct MeshAsset {
    name: String,
    surfaces: Vec<GeometricSurface>,
    buffers: GPUMeshBuffers,
}

impl MeshAsset {
    /// Puts the geometry of a mesh together. The indices of each primitive
    /// are moved behind the vertices of the earlier ones, so that all
    /// primitives share one index buffer and one vertex buffer, and each
    /// primitive gets a surface that names its range of indices. Normals,
    /// texture coordinates and colors that the asset lacks are zero, zero
    /// and white. Where `overwrite_color_with_normals`, each vertex is
    /// colored by its normal in the end.
    pub fn load_gltf(source: &MeshSource, overwrite_color_with_normals: bool) -> (loaded: Result<
        MeshGeometry,
        MeshError,
    >)
        ensures
            match mesh_geometry(source.primitives@, overwrite_color_with_normals) {
                Ok(geometry) => loaded matches Ok(mesh) && mesh.surfaces@ == geometry.surfaces
                    && mesh.indices@ == geometry.indices && mesh.vertices@ == geometry.vertices
                    && mesh.name@ == match source.name {
                    Some(name) => name@,
                    None => UNNAMED_MESH@,
                },
                Err(error) => loaded matches Err(reported) && reported == error,
            },
    {
        let mut surfaces: Vec<GeometricSurface> = Vec::new();
        let mut indices: Vec<u32> = Vec::new();
        let mut vertices: Vec<Vertex> = Vec::new();
        let mut p: usize = 0;
        while p < source.primitives.len()
            invariant
                p <= source.primitives.len(),
                assembled(source.primitives@, p as nat) == Ok::<GeometryModel, MeshError>(
                    GeometryModel {
                        surfaces: surfaces@,
                        indices: indices@,
                        vertices: vertices@,
                    },
                ),
            decreases source.primitives.len() - p,
        {
            let primitive = &source.primitives[p];
            match check_primitive(primitive, vertices.len()) {
                Some(error) => {
                    proof {
                        lemma_error_stays(source.primitives@, (p + 1) as nat, error);
                    }
                    return Err(error);
                },
                None => {},
            }
            append_primitive(primitive, &mut surfaces, &mut indices, &mut vertices);
            p += 1;
        }
        if overwrite_color_with_normals {
            let ghost before = vertices@;
            let mut i: usize = 0;
            while i < vertices.len()
                invariant
                    i <= vertices.len(),
                    vertices.len() == before.len(),
                    forall|k: int|
                        0 <= k < i ==> vertices@[k] == (Vertex {
                            color: Vec4 {
                                x: before[k].normal.x,
                                y: before[k].normal.y,
                                z: before[k].normal.z,
                                w: FLOAT_ONE,
                            },
                            ..before[k]
                        }),
                    forall|k: int| i <= k < vertices.len() ==> vertices@[k] == before[k],
                decreases vertices.len() - i,
            {
                let vertex = vertices[i];
                vertices.set(
                    i,
                    Vertex {
                        color: Vec4 {
                            x: vertex.normal.x,
                            y: vertex.normal.y,
                            z: vertex.normal.z,
                            w: FLOAT_ONE,
                        },
                        ..vertex
                    },
                );
                i += 1;
            }
            assert(vertices@ =~= (GeometryModel {
                surfaces: surfaces@,
                indices: indices@,
                vertices: before,
            }).colored_by_normals().vertices);
        }
        let name = match &source.name {
            Some(name) => name.clone(),
            None => UNNAMED_MESH.to_owned(),
        };
        Ok(MeshGeometry { name, surfaces, indices, vertices })
    }

    /// The mesh of a geometry that was uploaded into `buffers`.
    pub fn new(name: String, surfaces: Vec<GeometricSurface>, buffers: GPUMeshBuffers) -> (mesh:
        Self)
        ensures
            mesh.spec_name() == name@,
            mesh.spec_surfaces() == surfaces@,
            mesh.spec_buffers() == buffers,
    {
        MeshAsset { name, surfaces, buffers }
    }

    pub closed spec fn spec_name(&self) -> Seq<char> {
        self.name@
    }

    pub closed spec fn spec_surfaces(&self) -> Seq<GeometricSurface> {
        self.surfaces@
    }

    pub closed spec fn spec_buffers(&self) -> GPUMeshBuffers {
        self.buffers
    }

    /// Gives the mesh up and names the teardown of its buffers: the index
    /// buffer, then the vertex buffer, each with its memory first.
    pub fn release(self) -> (steps: Vec<TeardownStep>)
        requires
            self.spec_buffers().spec_index_buffer().stage is Ready,
            self.spec_buffers().spec_index_buffer().wf(),
            self.spec_buffers().spec_vertex_buffer().stage is Ready,
            self.spec_buffers().spec_vertex_buffer().wf(),
        ensures
            steps@ == self.spec_buffers().spec_index_buffer().teardown()
                + self.spec_buffers().spec_vertex_buffer().teardown(),
    {
        let mut mesh = self;
        mesh.buffers.release()
    }

    pub fn buffers(&self) -> (buffers: &GPUMeshBuffers)
        ensures
            *buffers == self.spec_buffers(),
    {
        &self.buffers
    }

    pub fn surfaces(&self) -> (surfaces: &Vec<GeometricSurface>)
        ensures
            surfaces@ == self.spec_surfaces(),
    {
        &self.surfaces
    }

    pub fn name(&self) -> (name: &str)
        ensures
            name@ == self.spec_name(),
    {
        self.name.as_str()
    }
}

/// Once putting primitives together has failed, it has failed for every
/// longer run of them too.
proof fn lemma_error_stays(primitives: Seq<Primitive>, count: nat, error: MeshError)
    requires
        count <= primitives.len(),
        assembled(primitives, count) == Err::<GeometryModel, MeshError>(error),
    ensures
        assembled(primitives, primitives.len()) == Err::<GeometryModel, MeshError>(error),
    decreases primitives.len() - count,
{
    if count < primitives.len() {
        assert(assembled(primitives, count + 1) == Err::<GeometryModel, MeshError>(error));
        lemma_error_stays(primitives, count + 1, error);
    }
}

/// In a geometry put together, every surface names a range of the index
/// list, the surfaces follow each other without gap, and every index
/// names a vertex of the primitive it belongs to or of one before.
pub proof fn lemma_surfaces_tile_indices(primitives: Seq<Primitive>, count: nat)
    requires
        count <= primitives.len(),
        assembled(primitives, count) is Ok,
        assembled(primitives, count)->Ok_0.indices.len() <= usize::MAX,
    ensures
        ({
            let geometry = assembled(primitives, count)->Ok_0;
            &&& geometry.surfaces.len() == count
            &&& forall|s: int|
                0 <= s < count ==> (#[trigger] geometry.surfaces[s]).spec_start_idx()
                    + geometry.surfaces[s].spec_count() <= geometry.indices.len()
            &&& forall|s: int|
                0 <= s < count - 1 ==> (#[trigger] geometry.surfaces[s]).spec_start_idx()
                    + geometry.surfaces[s].spec_count() == geometry.surfaces[s
                    + 1].spec_start_idx()
            &&& count > 0 ==> geometry.surfaces[0].spec_start_idx() == 0
            &&& count > 0 ==> geometry.surfaces[count - 1].spec_start_idx()
                + geometry.surfaces[count - 1].spec_count() == geometry.indices.len()
        }),
    decreases count,
{
    if count > 0 {
        let before = assembled(primitives, (count - 1) as nat)->Ok_0;
        let primitive = primitives[count - 1]@;
        let geometry = assembled(primitives, count)->Ok_0;
        assert(geometry == before.with_primitive(primitive));
        assert(before.indices.len() <= geometry.indices.len());
        lemma_surfaces_tile_indices(primitives, (count - 1) as nat);
        assert(primitive.index_count() == primitive.moved_indices(before.vertices.len()).len());
        assert(primitive.index_count() <= u32::MAX);
        assert forall|s: int| 0 <= s < count implies (#[trigger] geometry.surfaces[s]).spec_start_idx()
            + geometry.surfaces[s].spec_count() <= geometry.indices.len() by {
            if s < count - 1 {
                assert(geometry.surfaces[s] == before.surfaces[s]);
            }
        }
        assert forall|s: int| 0 <= s < count - 1 implies (
        #[trigger] geometry.surfaces[s]).spec_start_idx() + geometry.surfaces[s].spec_count()
            == geometry.surfaces[s + 1].spec_start_idx() by {
            assert(geometry.surfaces[s] == before.surfaces[s]);
            if s < count - 2 {
                assert(geometry.surfaces[s + 1] == before.surfaces[s + 1]);
            }
        }
        if count > 1 {
            assert(geometry.surfaces[0] == before.surfaces[0]);
        }
    }
}

/// The three buffers that uploading a mesh starts with, each described and
/// not yet created.
#[derive(Debug)]
pub struct MeshUpload {
    pub vertex: AllocatedBuffer<'static>,
    pub vertex_info: BufferCreateInfo,
    pub index: AllocatedBuffer<'static>,
    pub index_info: BufferCreateInfo,
    pub staging: AllocatedBuffer<'static>,
    pub staging_info: BufferCreateInfo,
    /// Where in the staging buffer the indices go: behind the vertices.
    pub index_offset: usize,
}

/// The copies that move a mesh from the staging buffer to its buffers: the
/// vertices from the start of the staging buffer, the indices from behind
/// them.
pub open spec fn mesh_upload_commands(
    staging_buffer: u64,
    vertex_buffer: u64,
    index_buffer: u64,
    vertex_bytes: u64,
    index_bytes: u64,
) -> Seq<Command> {
    seq![
        Command::CopyBuffer {
            src_buffer: staging_buffer,
            dst_buffer: vertex_buffer,
            range: BufferCopy { src_offset: 0, dst_offset: 0, size: vertex_bytes },
        },
        Command::CopyBuffer {
            src_buffer: staging_buffer,
            dst_buffer: index_buffer,
            range: BufferCopy { src_offset: vertex_bytes, dst_offset: 0, size: index_bytes },
        },
    ]
}

/// The buffers of a mesh on the device, and the address at which shaders
/// pull its vertices.
#[derive(Debug)]
pub struct GPUMeshBuffers {
    index_buffer: AllocatedBuffer<'static>,
    vertex_buffer: AllocatedBuffer<'static>,
    vertex_buffer_address: u64,
}

impl GPUMeshBuffers {
    pub closed spec fn spec_index_buffer(&self) -> BufferState {
        self.index_buffer@
    }

    pub closed spec fn spec_vertex_buffer(&self) -> BufferState {
        self.vertex_buffer@
    }

    pub closed spec fn spec_vertex_buffer_address(&self) -> u64 {
        self.vertex_buffer_address
    }

    /// Describes what uploading a mesh needs: a device-local vertex buffer
    /// that shaders read by address, a device-local index buffer, and a
    /// host-visible staging buffer that holds both, the vertices first.
    /// `None` where the bytes of both do not fit `usize`.
    pub fn upload_mesh(device: &Device, index_count: usize, vertex_count: usize) -> (upload: Option<
        MeshUpload,
    >)
        ensures
            upload is Some <==> vertex_count * VERTEX_SIZE + index_count * INDEX_SIZE
                <= usize::MAX,
            upload matches Some(plan) ==> {
                &&& plan.vertex@ == BufferState::described(
                    "Vertex Buffer"@,
                    BUFFER_USAGE_STORAGE_BUFFER | BUFFER_USAGE_TRANSFER_DST
                        | BUFFER_USAGE_SHADER_DEVICE_ADDRESS,
                    (vertex_count * VERTEX_SIZE) as u64,
                    MemoryLocation::GpuOnly,
                )
                &&& plan.vertex_info == plan.vertex@.create_info()
                &&& plan.index@ == BufferState::described(
                    "Index Buffer"@,
                    BUFFER_USAGE_INDEX_BUFFER | BUFFER_USAGE_TRANSFER_DST,
                    (index_count * INDEX_SIZE) as u64,
                    MemoryLocation::GpuOnly,
                )
                &&& plan.index_info == plan.index@.create_info()
                &&& plan.staging@ == BufferState::described(
                    "Staging Buffer"@,
                    BUFFER_USAGE_TRANSFER_SRC,
                    (vertex_count * VERTEX_SIZE + index_count * INDEX_SIZE) as u64,
                    MemoryLocation::CpuToGpu,
                )
                &&& plan.staging_info == plan.staging@.create_info()
                &&& plan.index_offset == vertex_count * VERTEX_SIZE
            },
    {
        let vertex_buffer_size: usize = match vertex_count.checked_mul(VERTEX_SIZE) {
            Some(size) => size,
            None => {
                return None;
            },
        };
        let index_buffer_size: usize = match index_count.checked_mul(INDEX_SIZE) {
            Some(size) => size,
            None => {
                return None;
            },
        };
        let staging_size: usize = match vertex_buffer_size.checked_add(index_buffer_size) {
            Some(size) => size,
            None => {
                return None;
            },
        };
        let (vertex, vertex_info) = AllocatedBuffer::new(
            device,
            "Vertex Buffer",
            BUFFER_USAGE_STORAGE_BUFFER | BUFFER_USAGE_TRANSFER_DST
                | BUFFER_USAGE_SHADER_DEVICE_ADDRESS,
            vertex_buffer_size as u64,
            MemoryLocation::GpuOnly,
        );
        let (index, index_info) = AllocatedBuffer::new(
            device,
            "Index Buffer",
            BUFFER_USAGE_INDEX_BUFFER | BUFFER_USAGE_TRANSFER_DST,
            index_buffer_size as u64,
            MemoryLocation::GpuOnly,
        );
        let (staging, staging_info) = AllocatedBuffer::new(
            device,
            "Staging Buffer",
            BUFFER_USAGE_TRANSFER_SRC,
            staging_size as u64,
            MemoryLocation::CpuToGpu,
        );
        Some(
            MeshUpload {
                vertex,
                vertex_info,
                index,
                index_info,
                staging,
                staging_info,
                index_offset: vertex_buffer_size,
            },
        )
    }

    /// The copies from the staging buffer into the buffers of the mesh.
    pub fn upload_commands(upload: &MeshUpload) -> (commands: Vec<Command>)
        ensures
            commands@ == mesh_upload_commands(
                upload.staging@.buffer,
                upload.vertex@.buffer,
                upload.index@.buffer,
                upload.vertex@.size,
                upload.index@.size,
            ),
    {
        let mut commands: Vec<Command> = Vec::new();
        commands.push(
            Command::CopyBuffer {
                src_buffer: upload.staging.buffer(),
                dst_buffer: upload.vertex.buffer(),
                range: BufferCopy { src_offset: 0, dst_offset: 0, size: upload.vertex.size() },
            },
        );
        commands.push(
            Command::CopyBuffer {
                src_buffer: upload.staging.buffer(),
                dst_buffer: upload.index.buffer(),
                range: BufferCopy {
                    src_offset: upload.vertex.size(),
                    dst_offset: 0,
                    size: upload.index.size(),
                },
            },
        );
        assert(commands@ =~= mesh_upload_commands(
            upload.staging@.buffer,
            upload.vertex@.buffer,
            upload.index@.buffer,
            upload.vertex@.size,
            upload.index@.size,
        ));
        commands
    }

    /// The buffers of an uploaded mesh.
    pub fn new(
        index_buffer: AllocatedBuffer<'static>,
        vertex_buffer: AllocatedBuffer<'static>,
        vertex_buffer_address: u64,
    ) -> (buffers: Self)
        ensures
            buffers.spec_index_buffer() == index_buffer@,
            buffers.spec_vertex_buffer() == vertex_buffer@,
            buffers.spec_vertex_buffer_address() == vertex_buffer_address,
    {
        GPUMeshBuffers { index_buffer, vertex_buffer, vertex_buffer_address }
    }

    /// Gives the buffers up and names their teardown: the index buffer,
    /// then the vertex buffer, each with its memory first.
    pub fn release(&mut self) -> (steps: Vec<TeardownStep>)
        requires
            old(self).spec_index_buffer().stage is Ready,
            old(self).spec_index_buffer().wf(),
            old(self).spec_vertex_buffer().stage is Ready,
            old(self).spec_vertex_buffer().wf(),
        ensures
            steps@ == old(self).spec_index_buffer().teardown() + old(
                self,
            ).spec_vertex_buffer().teardown(),
            final(self).spec_index_buffer().stage is Released,
            final(self).spec_vertex_buffer().stage is Released,
            final(self).spec_vertex_buffer_address() == old(self).spec_vertex_buffer_address(),
    {
        let mut steps = self.index_buffer.release();
        let mut vertex = self.vertex_buffer.release();
        steps.append(&mut vertex);
        steps
    }

    pub fn vertex_buffer_address(&self) -> (address: u64)
        ensures
            address == self.spec_vertex_buffer_address(),
    {
        self.vertex_buffer_address
    }

    pub fn index_buffer(&self) -> (buffer: u64)
        ensures
            buffer == self.spec_index_buffer().buffer,
    {
        self.index_buffer.buffer()
    }
}

/// The constants pushed to the shaders for one mesh: its world matrix, as
/// the bit patterns of sixteen floats, and the address of its vertices.
#[derive(Clone, Copy, Debug)]
pub struct GPUDrawPushConstants {
    pub world_matrix: [u32; 16],
    pub device_address: u64,
}

impl GPUDrawPushConstants {
    /// The constants as the bytes that are pushed: the matrix word by word,
    /// then the address, each in the byte order of the machine.
    pub fn as_bytes(&self) -> (bytes: Vec<u8>)
        ensures
            bytes@.len() == 72,
            holds_words(bytes@.subrange(0, 64), self.world_matrix@),
            in_machine_order(bytes@.subrange(64, 72), long_little_endian(self.device_address)),
    {
        let mut bytes: Vec<u8> = Vec::new();
        append_words(&mut bytes, self.world_matrix.as_slice());
        let ghost matrix = bytes@;
        let mut address = long_bytes(self.device_address);
        let ghost appended = address@;
        bytes.append(&mut address);
        assert(bytes@.subrange(0, 64) =~= matrix.subrange(0, 64));
        assert(bytes@.subrange(64, 72) =~= appended);
        bytes
    }
}

/// What a texture sampler is created with.
#[derive(Clone, Copy, Debug, PartialEq, Eq, Structural)]
pub struct SamplerCreateInfo {
    pub mag_filter: i32,
    pub min_filter: i32,
}

/// A texture sampler.
#[derive(Clone, Copy, Debug, PartialEq, Eq, Structural)]
pub struct Sampler {
    sampler: u64,
}

impl Sampler {
    pub closed spec fn spec_sampler(&self) -> u64 {
        self.sampler
    }

    pub fn create_info(min_filter: i32, mag_filter: i32) -> (info: SamplerCreateInfo)
        ensures
            info == (SamplerCreateInfo { mag_filter, min_filter }),
    {
        SamplerCreateInfo { mag_filter, min_filter }
    }

    /// The sampler that blends neighbouring texels.
    pub fn linear() -> (info: SamplerCreateInfo)
        ensures
            info == (SamplerCreateInfo { mag_filter: FILTER_LINEAR, min_filter: FILTER_LINEAR }),
    {
        Self::create_info(FILTER_LINEAR, FILTER_LINEAR)
    }

    /// The sampler that takes the nearest texel.
    pub fn nearest() -> (info: SamplerCreateInfo)
        ensures
            info == (SamplerCreateInfo { mag_filter: FILTER_NEAREST, min_filter: FILTER_NEAREST }),
    {
        Self::create_info(FILTER_NEAREST, FILTER_NEAREST)
    }

    pub fn new(sampler: u64) -> (created: Self)
        ensures
            created.spec_sampler() == sampler,
    {
        Sampler { sampler }
    }

    #[verifier::when_used_as_spec(spec_sampler)]
    pub fn sampler(&self) -> (sampler: u64)
        ensures
            sampler == self.spec_sampler(),
    {
        self.sampler
    }
}

} // verus!
