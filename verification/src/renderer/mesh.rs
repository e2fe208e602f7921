//! Vertices, their layout in a vertex buffer, and meshes.
use vstd::prelude::*;
use crate::renderer::allocator::{BufferRequest, BufferUsage, MemoryLocation, RendererAllocator};
use crate::renderer::buffer::{AllocatedBuffer, BufferCleanup};

verus! {

/// How often a vertex binding advances.
#[derive(Clone, Copy, Debug, PartialEq, Eq, Structural)]
pub enum VertexInputRate {
    Vertex,
    Instance,
}

/// The format of one vertex attribute.
#[derive(Clone, Copy, Debug, PartialEq, Eq, Structural)]
pub enum AttributeFormat {
    /// Two 32-bit floats.
    R32G32Sfloat,
    /// Three 32-bit floats.
    R32G32B32Sfloat,
    /// Four 32-bit floats.
    R32G32B32A32Sfloat,
}

#[derive(Clone, Copy, Debug, PartialEq, Eq, Structural)]
pub struct VertexInputBinding {
    pub binding: u32,
    /// Bytes from one vertex to the next.
    pub stride: u32,
    pub input_rate: VertexInputRate,
}

#[derive(Clone, Copy, Debug, PartialEq, Eq, Structural)]
pub struct VertexInputAttribute {
    pub binding: u32,
    pub location: u32,
    pub format: AttributeFormat,
    /// Bytes from the start of the vertex.
    pub offset: u32,
}

/// A block of push-constant data that some shader stages read.
#[derive(Clone, Copy, Debug, PartialEq, Eq, Structural)]
pub struct PushConstantDescription {
    pub offset: u32,
    pub size: u32,
    /// Raw shader-stage flag bits.
    pub stage_flags: u32,
}

pub struct VertexInputDescription {
    pub bindings: Vec<VertexInputBinding>,
    pub attributes: Vec<VertexInputAttribute>,
    /// Raw creation flags; none are defined.
    pub flags: u32,
}

/// Three 32-bit floats, each held as its bit pattern.
#[derive(Clone, Copy, Debug, PartialEq, Eq, Structural)]
pub struct Vector3 {
    pub x: u32,
    pub y: u32,
    pub z: u32,
}

/// One vertex: 36 bytes, position first, then normal, then colour.
#[derive(Clone, Copy, Debug, PartialEq, Eq, Structural)]
pub struct Vertex {
    pub position: Vector3,
    pub normal: Vector3,
    pub color: Vector3,
}

/// Bytes one vertex takes in a vertex buffer.
pub const VERTEX_STRIDE: u32 = 36;

/// Bytes one `Vector3` takes.
pub const VECTOR3_SIZE: u32 = 12;

impl Vertex {
    pub fn with(position: Vector3, normal: Vector3, color: Vector3) -> (vertex: Vertex)
        ensures
            vertex == (Vertex { position, normal, color }),
    {
        Vertex { position, normal, color }
    }

    /// The one binding of the vertex buffer.
    pub open spec fn spec_bindings() -> Seq<VertexInputBinding> {
        seq![VertexInputBinding { binding: 0, stride: 36, input_rate: VertexInputRate::Vertex }]
    }

    /// Position, normal and colour at locations 0, 1 and 2, twelve bytes apart.
    pub open spec fn spec_attributes() -> Seq<VertexInputAttribute> {
        Seq::new(
            3,
            |i: int|
                VertexInputAttribute {
                    binding: 0,
                    location: i as u32,
                    format: AttributeFormat::R32G32B32Sfloat,
                    offset: (12 * i) as u32,
                },
        )
    }

    /// How the pipeline reads a buffer of vertices.
    pub fn input_description() -> (description: VertexInputDescription)
        ensures
            description.bindings@ == Self::spec_bindings(),
            description.attributes@ == Self::spec_attributes(),
            description.flags == 0,
    {
        let mut bindings: Vec<VertexInputBinding> = Vec::new();
        let mut attributes: Vec<VertexInputAttribute> = Vec::new();
        bindings.push(
            VertexInputBinding { binding: 0, stride: VERTEX_STRIDE, input_rate: VertexInputRate::Vertex },
        );
        let mut location: u32 = 0;
        while location < 3
            invariant
                location <= 3,
                attributes@.len() == location,
                forall|i: int| 0 <= i < location ==> attributes@[i] == Self::spec_attributes()[i],
            decreases 3 - location,
        {
            attributes.push(
                VertexInputAttribute {
                    binding: 0,
                    location,
                    format: AttributeFormat::R32G32B32Sfloat,
                    offset: VECTOR3_SIZE * location,
                },
            );
            location += 1;
        }
        assert(bindings@ =~= Self::spec_bindings());
        assert(attributes@ =~= Self::spec_attributes());
        VertexInputDescription { bindings, attributes, flags: 0 }
    }
}

/// The four bytes of a 32-bit word, lowest first.
pub open spec fn word_bytes(word: u32) -> Seq<u8> {
    seq![
        (word % 256) as u8,
        ((word / 256) % 256) as u8,
        ((word / 65536) % 256) as u8,
        (word / 16777216) as u8,
    ]
}

/// The word whose four bytes start at `at`.
pub open spec fn word_at(bytes: Seq<u8>, at: int) -> u32 {
    (bytes[at] + 256 * bytes[at + 1] + 65536 * bytes[at + 2] + 16777216 * bytes[at + 3]) as u32
}

pub open spec fn vector_bytes(v: Vector3) -> Seq<u8> {
    word_bytes(v.x) + word_bytes(v.y) + word_bytes(v.z)
}

pub open spec fn vector_at(bytes: Seq<u8>, at: int) -> Vector3 {
    Vector3 { x: word_at(bytes, at), y: word_at(bytes, at + 4), z: word_at(bytes, at + 8) }
}

/// The 36 bytes of a vertex as they lie in a vertex buffer.
#[verifier::opaque]
pub open spec fn vertex_bytes(v: Vertex) -> Seq<u8> {
    vector_bytes(v.position) + vector_bytes(v.normal) + vector_bytes(v.color)
}

/// The vertex whose 36 bytes start at `at`.
#[verifier::opaque]
pub open spec fn vertex_at(bytes: Seq<u8>, at: int) -> Vertex {
    Vertex {
        position: vector_at(bytes, at),
        normal: vector_at(bytes, at + 12),
        color: vector_at(bytes, at + 24),
    }
}

/// The content of the vertex buffer of a mesh: its vertices one after another.
pub open spec fn mesh_bytes(vertices: Seq<Vertex>) -> Seq<u8>
    decreases vertices.len(),
{
    if vertices.len() == 0 {
        Seq::empty()
    } else {
        mesh_bytes(vertices.drop_last()) + vertex_bytes(vertices.last())
    }
}

/// The vertices that a buffer of whole vertices holds.
pub open spec fn vertices_in(bytes: Seq<u8>) -> Seq<Vertex> {
    Seq::new((bytes.len() / 36) as nat, |k: int| vertex_at(bytes, 36 * k))
}

pub proof fn lemma_word_round_trip(word: u32)
    ensures
        word_bytes(word).len() == 4,
        word_at(word_bytes(word), 0) == word,
{
}

pub proof fn lemma_vertex_round_trip(v: Vertex)
    ensures
        vertex_bytes(v).len() == 36,
        vertex_at(vertex_bytes(v), 0) == v,
{
    reveal(vertex_bytes);
    reveal(vertex_at);
    let b = vertex_bytes(v);
    lemma_word_round_trip(v.position.x);
    lemma_word_round_trip(v.position.y);
    lemma_word_round_trip(v.position.z);
    lemma_word_round_trip(v.normal.x);
    lemma_word_round_trip(v.normal.y);
    lemma_word_round_trip(v.normal.z);
    lemma_word_round_trip(v.color.x);
    lemma_word_round_trip(v.color.y);
    lemma_word_round_trip(v.color.z);
    assert(b.len() == 36);
    assert(word_at(b, 0) == v.position.x);
    assert(word_at(b, 4) == v.position.y);
    assert(word_at(b, 8) == v.position.z);
    assert(word_at(b, 12) == v.normal.x);
    assert(word_at(b, 16) == v.normal.y);
    assert(word_at(b, 20) == v.normal.z);
    assert(word_at(b, 24) == v.color.x);
    assert(word_at(b, 28) == v.color.y);
    assert(word_at(b, 32) == v.color.z);
}

/// A vertex is read from 36 bytes alone: what lies before and after them
/// does not matter.
pub proof fn lemma_vertex_at_is_local(bytes: Seq<u8>, at: int)
    requires
        0 <= at,
        at + 36 <= bytes.len(),
    ensures
        vertex_at(bytes, at) == vertex_at(bytes.subrange(at, at + 36), 0),
{
    reveal(vertex_at);
    let chunk = bytes.subrange(at, at + 36);
    assert(vector_at(bytes, at) == vector_at(chunk, 0));
    assert(vector_at(bytes, at + 12) == vector_at(chunk, 12));
    assert(vector_at(bytes, at + 24) == vector_at(chunk, 24));
}

/// A mesh of `n` vertices takes `36 * n` bytes, and vertex `k` is what
/// lies at byte `36 * k`.
pub proof fn lemma_mesh_bytes(vertices: Seq<Vertex>)
    ensures
        mesh_bytes(vertices).len() == 36 * vertices.len(),
        forall|k: int|
            0 <= k < vertices.len() ==> #[trigger] vertex_at(mesh_bytes(vertices), 36 * k) == vertices[k],
    decreases vertices.len(),
{
    if vertices.len() > 0 {
        let front = vertices.drop_last();
        let last = vertices.last();
        lemma_mesh_bytes(front);
        lemma_vertex_round_trip(last);
        let all = mesh_bytes(vertices);
        assert(all == mesh_bytes(front) + vertex_bytes(last));
        assert forall|k: int| 0 <= k < vertices.len() implies #[trigger] vertex_at(all, 36 * k)
            == vertices[k] by {
            lemma_vertex_at_is_local(all, 36 * k);
            if k < front.len() {
                lemma_vertex_at_is_local(mesh_bytes(front), 36 * k);
                assert(all.subrange(36 * k, 36 * k + 36) =~= mesh_bytes(front).subrange(
                    36 * k,
                    36 * k + 36,
                ));
                assert(front[k] == vertices[k]);
            } else {
                assert(all.subrange(36 * k, 36 * k + 36) =~= vertex_bytes(last));
            }
        }
    }
}

/// Reading back the bytes of a mesh gives its vertices: the same number,
/// each as it was.
pub proof fn lemma_read_back(vertices: Seq<Vertex>)
    ensures
        vertices_in(mesh_bytes(vertices)) == vertices,
{
    lemma_mesh_bytes(vertices);
    assert(vertices_in(mesh_bytes(vertices)) =~= vertices);
}

fn push_word(bytes: &mut Vec<u8>, word: u32)
    ensures
        final(bytes)@ == old(bytes)@ + word_bytes(word),
{
    bytes.push((word % 256) as u8);
    bytes.push(((word / 256) % 256) as u8);
    bytes.push(((word / 65536) % 256) as u8);
    bytes.push((word / 16777216) as u8);
    assert(bytes@ =~= old(bytes)@ + word_bytes(word));
}

fn push_vector(bytes: &mut Vec<u8>, v: &Vector3)
    ensures
        final(bytes)@ == old(bytes)@ + vector_bytes(*v),
{
    push_word(bytes, v.x);
    push_word(bytes, v.y);
    push_word(bytes, v.z);
    assert(bytes@ =~= old(bytes)@ + vector_bytes(*v));
}

fn read_word(bytes: &Vec<u8>, at: usize) -> (word: u32)
    requires
        at + 4 <= bytes@.len(),
    ensures
        word == word_at(bytes@, at as int),
{
    let len = bytes.len();
    let b0: u32 = bytes[at] as u32;
    let b1: u32 = bytes[at + 1] as u32;
    let b2: u32 = bytes[at + 2] as u32;
    let b3: u32 = bytes[at + 3] as u32;
    b0 + 256 * b1 + 65536 * b2 + 16777216 * b3
}

fn read_vector(bytes: &Vec<u8>, at: usize) -> (v: Vector3)
    requires
        at + 12 <= bytes@.len(),
    ensures
        v == vector_at(bytes@, at as int),
{
    let len = bytes.len();
    Vector3 { x: read_word(bytes, at), y: read_word(bytes, at + 4), z: read_word(bytes, at + 8) }
}

/// Why a mesh could not be uploaded.
#[derive(Clone, Copy, Debug, PartialEq, Eq, Structural)]
pub enum MeshError {
    /// The size of the vertices in bytes does not fit in 64 bits.
    TooLarge,
    /// The mesh still has a buffer, which has to be cleaned up first.
    BufferInPlace,
    /// The new buffer has no memory that the host can write to.
    NotMapped,
    /// The new buffer's memory is smaller than the vertices.
    TooSmall,
}

/// Vertices, and the buffer they were uploaded to, if they were. Without a
/// buffer the mesh cannot be drawn.
pub struct Mesh {
    pub vertices: Vec<Vertex>,
    pub vertex_buffer: Option<AllocatedBuffer>,
}

/// What [`Mesh::begin_upload`] and [`Mesh::cleanup`] hand out.
pub struct MeshCleanup {
    /// What became of the buffer that the mesh had, if it had one.
    pub old_buffer: Option<BufferCleanup>,
    /// The buffer to create next, if one is needed.
    pub request: Option<BufferRequest>,
}

impl Mesh {
    pub fn empty() -> (mesh: Mesh)
        ensures
            mesh.vertices@.len() == 0,
            mesh.vertex_buffer is None,
    {
        Mesh { vertices: Vec::new(), vertex_buffer: None }
    }

    /// The size of the vertices in bytes.
    pub open spec fn spec_byte_size(&self) -> int {
        (self.vertices@.len() * 36) as int
    }

    pub fn byte_size(&self) -> (size: Result<u64, MeshError>)
        ensures
            match size {
                Ok(bytes) => bytes == self.spec_byte_size(),
                Err(e) => e == MeshError::TooLarge && self.spec_byte_size() > u64::MAX,
            },
    {
        let count: u64 = self.vertices.len() as u64;
        if count > u64::MAX / 36 {
            Err(MeshError::TooLarge)
        } else {
            Ok(count * 36)
        }
    }

    /// The buffer that holds the vertices: written by the host, read as a
    /// vertex buffer, laid out linearly. A mesh without vertices needs none.
    pub open spec fn spec_request(&self) -> Option<BufferRequest> {
        if self.vertices@.len() == 0 {
            None
        } else {
            Some(
                BufferRequest {
                    size: self.spec_byte_size() as u64,
                    usage: BufferUsage::VertexBuffer,
                    location: MemoryLocation::CpuToGpu,
                    linear: true,
                },
            )
        }
    }

    /// The first half of an upload: gives up the buffer that the mesh has,
    /// and says which buffer to create for the vertices. A mesh whose
    /// vertices are too many to count in bytes is left alone.
    pub fn begin_upload(&mut self, allocator: &mut RendererAllocator) -> (begun: Result<
        MeshCleanup,
        MeshError,
    >)
        requires
            old(allocator).wf(),
        ensures
            final(allocator).wf(),
            final(self).vertices == old(self).vertices,
            old(self).spec_byte_size() > u64::MAX ==> begun == Err::<MeshCleanup, MeshError>(
                MeshError::TooLarge,
            ) && *final(self) == *old(self) && *final(allocator) == *old(allocator),
            old(self).spec_byte_size() <= u64::MAX ==> begun is Ok && final(self).vertex_buffer is None
                && begun->Ok_0.request == old(self).spec_request() && Self::gave_up(
                old(self).vertex_buffer,
                *old(allocator),
                *final(allocator),
                begun->Ok_0.old_buffer,
            ),
    {
        let size = match self.byte_size() {
            Ok(size) => size,
            Err(e) => { return Err(e); },
        };
        let old_buffer = self.give_up(allocator);
        let request = if size == 0 {
            None
        } else {
            Some(
                BufferRequest {
                    size,
                    usage: BufferUsage::VertexBuffer,
                    location: MemoryLocation::CpuToGpu,
                    linear: true,
                },
            )
        };
        Ok(MeshCleanup { old_buffer, request })
    }

    /// What giving up `buffer` does to the allocator and hands out: nothing
    /// where there is no buffer, else what cleaning up the buffer does.
    pub open spec fn gave_up(
        buffer: Option<AllocatedBuffer>,
        before: RendererAllocator,
        after: RendererAllocator,
        cleanup: Option<BufferCleanup>,
    ) -> bool {
        match buffer {
            None => cleanup is None && after.live@ == before.live@ && after.released == before.released,
            Some(b) => cleanup is Some && AllocatedBuffer::cleaned(b, before, after, cleanup->Some_0),
        }
    }

    fn give_up(&mut self, allocator: &mut RendererAllocator) -> (cleanup: Option<BufferCleanup>)
        requires
            old(allocator).wf(),
        ensures
            final(allocator).wf(),
            final(self).vertices == old(self).vertices,
            final(self).vertex_buffer is None,
            Self::gave_up(old(self).vertex_buffer, *old(allocator), *final(allocator), cleanup),
    {
        let taken = self.vertex_buffer;
        self.vertex_buffer = None;
        match taken {
            None => None,
            Some(buffer) => {
                let mut buffer = buffer;
                Some(buffer.cleanup(allocator))
            },
        }
    }

    /// The bytes of the vertices, as they are to lie in the vertex buffer.
    pub fn vertex_bytes(&self) -> (bytes: Vec<u8>)
        ensures
            bytes@ == mesh_bytes(self.vertices@),
    {
        let mut bytes: Vec<u8> = Vec::new();
        let mut i: usize = 0;
        while i < self.vertices.len()
            invariant
                i <= self.vertices.len(),
                bytes@ == mesh_bytes(self.vertices@.take(i as int)),
            decreases self.vertices.len() - i,
        {
            let ghost before = bytes@;
            let vertex = &self.vertices[i];
            push_vector(&mut bytes, &vertex.position);
            push_vector(&mut bytes, &vertex.normal);
            push_vector(&mut bytes, &vertex.color);
            i += 1;
            proof {
                let upto = self.vertices@.take(i as int);
                assert(upto.drop_last() == self.vertices@.take(i - 1));
                assert(upto.last() == self.vertices@[i - 1]);
                reveal(vertex_bytes);
                assert(bytes@ =~= before + vertex_bytes(self.vertices@[i - 1]));
            }
        }
        assert(self.vertices@.take(self.vertices.len() as int) == self.vertices@);
        bytes
    }

    /// The second half of an upload: takes the buffer that was created for
    /// the vertices and hands out the bytes to copy into its memory, all of
    /// them and from its start.
    pub fn upload(&mut self, buffer: AllocatedBuffer) -> (bytes: Result<Vec<u8>, MeshError>)
        ensures
            final(self).vertices == old(self).vertices,
            match Self::spec_upload_error(*old(self), buffer) {
                Some(e) => bytes == Err::<Vec<u8>, MeshError>(e) && *final(self) == *old(self),
                None => bytes is Ok && bytes->Ok_0@ == mesh_bytes(old(self).vertices@)
                    && final(self).vertex_buffer == Some(buffer),
            },
    {
        if self.vertex_buffer.is_some() {
            return Err(MeshError::BufferInPlace);
        }
        let allocation = match buffer.allocation {
            None => { return Err(MeshError::NotMapped); },
            Some(allocation) => allocation,
        };
        if !allocation.mapped {
            return Err(MeshError::NotMapped);
        }
        let size = match self.byte_size() {
            Ok(size) => size,
            Err(e) => { return Err(MeshError::TooSmall); },
        };
        if allocation.size < size {
            return Err(MeshError::TooSmall);
        }
        let bytes = self.vertex_bytes();
        self.vertex_buffer = Some(buffer);
        Ok(bytes)
    }

    /// Why `buffer` cannot take the vertices of `mesh`, if it cannot.
    pub open spec fn spec_upload_error(mesh: Mesh, buffer: AllocatedBuffer) -> Option<MeshError> {
        if mesh.vertex_buffer is Some {
            Some(MeshError::BufferInPlace)
        } else if buffer.allocation is None || !buffer.allocation->Some_0.mapped {
            Some(MeshError::NotMapped)
        } else if buffer.allocation->Some_0.size < mesh.spec_byte_size() {
            Some(MeshError::TooSmall)
        } else {
            None
        }
    }

    /// Gives up the buffer of the mesh, if it has one. The vertices stay.
    pub fn cleanup(&mut self, allocator: &mut RendererAllocator) -> (cleanup: Option<BufferCleanup>)
        requires
            old(allocator).wf(),
        ensures
            final(allocator).wf(),
            final(self).vertices == old(self).vertices,
            final(self).vertex_buffer is None,
            Self::gave_up(old(self).vertex_buffer, *old(allocator), *final(allocator), cleanup),
    {
        self.give_up(allocator)
    }
}

/// The vertices that lie in a buffer of bytes, or nothing where the bytes
/// are not a whole number of vertices.
pub fn read_vertices(bytes: &Vec<u8>) -> (vertices: Option<Vec<Vertex>>)
    ensures
        bytes@.len() % 36 != 0 ==> vertices is None,
        bytes@.len() % 36 == 0 ==> vertices is Some && vertices->Some_0@ == vertices_in(bytes@),
{
    if bytes.len() % 36 != 0 {
        return None;
    }
    let count = bytes.len() / 36;
    let mut vertices: Vec<Vertex> = Vec::new();
    let mut k: usize = 0;
    while k < count
        invariant
            k <= count,
            count == bytes@.len() / 36,
            bytes@.len() % 36 == 0,
            bytes@.len() <= usize::MAX,
            vertices@.len() == k,
            forall|j: int| 0 <= j < k ==> vertices@[j] == vertex_at(bytes@, 36 * j),
        decreases count - k,
    {
        assert(36 * k + 36 <= bytes@.len());
        let at = 36 * k;
        proof {
            reveal(vertex_at);
        }
        vertices.push(
            Vertex {
                position: read_vector(bytes, at),
                normal: read_vector(bytes, at + 12),
                color: read_vector(bytes, at + 24),
            },
        );
        k += 1;
    }
    assert(vertices@ =~= vertices_in(bytes@));
    Some(vertices)
}

} // verus!
