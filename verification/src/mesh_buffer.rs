use vstd::prelude::*;
use crate::buffer::Buffers;
use crate::bytes::u32_le_bytes;
use crate::bytes::u32s_le_bytes;
use crate::bytes::push_u32_le;
use crate::bytes::lemma_u32s_le_bytes_len;
use crate::device::DeviceContext;
use crate::error::BuildError;
use crate::flags::flags_contain;
use crate::flags::lemma_or_contains;
use crate::flags::lemma_contains_trans;
use crate::flags::MEMORY_HOST_COHERENT;
use crate::flags::MEMORY_HOST_VISIBLE;
use crate::flags::USAGE_ACCELERATION_STRUCTURE_BUILD_INPUT_READ_ONLY;
use crate::flags::USAGE_SHADER_DEVICE_ADDRESS;
use crate::flags::USAGE_STORAGE_BUFFER;

verus! {

/// Size in bytes of one packed vertex: two 16-byte lanes (position and
/// normal), each three 32-bit floats and one unused lane stored as zero.
pub const VERTEX_STRIDE: u64 = 32;

/// One mesh sample: position and normal, each element the bit pattern of
/// one 32-bit float.
pub struct Vertex {
    pub position: [u32; 3],
    pub normal: [u32; 3],
}

/// The 32 packed bytes of one vertex: position, a zero pad lane, normal, a
/// zero pad lane, all words little-endian.
pub open spec fn vertex_bytes(v: Vertex) -> Seq<u8> {
    u32_le_bytes(v.position@[0]) + u32_le_bytes(v.position@[1]) + u32_le_bytes(v.position@[2])
        + u32_le_bytes(0) + u32_le_bytes(v.normal@[0]) + u32_le_bytes(v.normal@[1]) + u32_le_bytes(
        v.normal@[2],
    ) + u32_le_bytes(0)
}

/// The packed bytes of a whole vertex list, vertex after vertex.
pub open spec fn vertices_bytes(s: Seq<Vertex>) -> Seq<u8>
    decreases s.len(),
{
    if s.len() == 0 {
        Seq::empty()
    } else {
        vertices_bytes(s.drop_last()) + vertex_bytes(s.last())
    }
}

pub proof fn lemma_vertices_bytes_len(s: Seq<Vertex>)
    ensures
        vertices_bytes(s).len() == VERTEX_STRIDE * s.len(),
    decreases s.len(),
{
    if s.len() > 0 {
        lemma_vertices_bytes_len(s.drop_last());
    }
}

/// Appends the packed encoding of one vertex to `out`.
fn encode_vertex(out: &mut Vec<u8>, v: &Vertex)
    ensures
        final(out)@ == old(out)@ + vertex_bytes(*v),
{
    push_u32_le(out, v.position[0]);
    push_u32_le(out, v.position[1]);
    push_u32_le(out, v.position[2]);
    push_u32_le(out, 0);
    push_u32_le(out, v.normal[0]);
    push_u32_le(out, v.normal[1]);
    push_u32_le(out, v.normal[2]);
    push_u32_le(out, 0);
    assert(final(out)@ =~= old(out)@ + vertex_bytes(*v));
}

/// The two geometry buffers of one mesh, plus the metadata the
/// bottom-level build consumes: the vertex stride, the highest vertex
/// index, and the index count.
pub struct MeshBuffer {
    pub vertex_stride: u64,
    pub max_vertex: u32,
    pub indices_count: u32,
    pub vertex_buffer: Buffers,
    pub index_buffer: Buffers,
}

impl MeshBuffer {
    /// What construction establishes: both buffers are storage- and
    /// build-input-capable with a device address, and their sizes agree
    /// with the metadata.
    pub open spec fn wf(self) -> bool {
        &&& self.vertex_stride == VERTEX_STRIDE
        &&& self.vertex_buffer.wf()
        &&& !self.vertex_buffer.mapped
        &&& flags_contain(self.vertex_buffer.usage, USAGE_STORAGE_BUFFER)
        &&& flags_contain(self.vertex_buffer.usage, USAGE_SHADER_DEVICE_ADDRESS)
        &&& flags_contain(
            self.vertex_buffer.usage,
            USAGE_ACCELERATION_STRUCTURE_BUILD_INPUT_READ_ONLY,
        )
        &&& self.index_buffer.wf()
        &&& !self.index_buffer.mapped
        &&& flags_contain(self.index_buffer.usage, USAGE_STORAGE_BUFFER)
        &&& flags_contain(self.index_buffer.usage, USAGE_SHADER_DEVICE_ADDRESS)
        &&& flags_contain(
            self.index_buffer.usage,
            USAGE_ACCELERATION_STRUCTURE_BUILD_INPUT_READ_ONLY,
        )
        &&& self.vertex_buffer.size == VERTEX_STRIDE * (self.max_vertex + 1)
        &&& self.index_buffer.size == 4 * self.indices_count
        &&& 1 <= self.indices_count
    }

    /// One triangle per three indices.
    pub fn primitive_count(&self) -> (r: u32)
        ensures
            r == self.indices_count / 3,
    {
        self.indices_count / 3
    }

    /// Allocates and populates the vertex and index buffers for one mesh,
    /// both storage- and build-input-capable with a device address, in
    /// host-visible coherent memory.  The index buffer's address range
    /// starts right after the vertex buffer's.
    pub fn new(ctx: &mut DeviceContext, vertices: &Vec<Vertex>, indices: &Vec<u32>) -> (r: Result<
        MeshBuffer,
        BuildError,
    >)
        requires
            old(ctx).wf(),
            1 <= vertices@.len() <= u32::MAX,
            1 <= indices@.len() <= u32::MAX,
        ensures
            final(ctx).wf(),
            final(ctx).memory_types@ == old(ctx).memory_types@,
            final(ctx).buffer_type_bits == old(ctx).buffer_type_bits,
            final(ctx).next_handle == old(ctx).next_handle,
            match r {
                Ok(m) => {
                    &&& m.wf()
                    &&& m.vertex_stride == VERTEX_STRIDE
                    &&& m.max_vertex == vertices@.len() - 1
                    &&& m.indices_count == indices@.len()
                    &&& m.vertex_buffer.size == VERTEX_STRIDE * vertices@.len()
                    &&& m.vertex_buffer.contents@ == vertices_bytes(vertices@)
                    &&& m.index_buffer.size == 4 * indices@.len()
                    &&& m.index_buffer.contents@ == u32s_le_bytes(indices@)
                    &&& m.vertex_buffer.device_address == old(ctx).next_address
                    &&& m.index_buffer.device_address == m.vertex_buffer.device_address
                        + m.vertex_buffer.size
                },
                Err(e) => match e {
                    BuildError::NoSuitableMemoryType => !old(ctx).has_memory_type_for(
                        MEMORY_HOST_VISIBLE | MEMORY_HOST_COHERENT,
                    ),
                    BuildError::DeviceAddressSpaceExhausted => {
                        &&& old(ctx).has_memory_type_for(
                            MEMORY_HOST_VISIBLE | MEMORY_HOST_COHERENT,
                        )
                        &&& old(ctx).next_address + VERTEX_STRIDE * vertices@.len() + 4
                            * indices@.len() > u64::MAX
                    },
                    _ => false,
                },
            },
    {
        let vlen = vertices.len();
        let ilen = indices.len();

        let mut vertex_data: Vec<u8> = Vec::new();
        let mut i: usize = 0;
        while i < vlen
            invariant
                vlen == vertices@.len(),
                0 <= i <= vlen,
                vertex_data@ == vertices_bytes(vertices@.take(i as int)),
            decreases vlen - i,
        {
            encode_vertex(&mut vertex_data, &vertices[i]);
            assert(vertices@.take(i + 1).drop_last() =~= vertices@.take(i as int));
            assert(vertices@.take(i + 1).last() == vertices@[i as int]);
            assert(vertex_data@ =~= vertices_bytes(vertices@.take(i + 1)));
            i = i + 1;
        }
        assert(vertices@.take(vlen as int) =~= vertices@);
        proof {
            lemma_vertices_bytes_len(vertices@);
        }

        let mut index_data: Vec<u8> = Vec::new();
        let mut i: usize = 0;
        while i < ilen
            invariant
                ilen == indices@.len(),
                0 <= i <= ilen,
                index_data@ == u32s_le_bytes(indices@.take(i as int)),
            decreases ilen - i,
        {
            push_u32_le(&mut index_data, indices[i]);
            assert(indices@.take(i + 1).drop_last() =~= indices@.take(i as int));
            assert(indices@.take(i + 1).last() == indices@[i as int]);
            assert(index_data@ =~= u32s_le_bytes(indices@.take(i + 1)));
            i = i + 1;
        }
        assert(indices@.take(ilen as int) =~= indices@);
        proof {
            lemma_u32s_le_bytes_len(indices@);
        }

        proof {
            lemma_or_contains(USAGE_STORAGE_BUFFER, USAGE_SHADER_DEVICE_ADDRESS);
            lemma_or_contains(
                USAGE_STORAGE_BUFFER | USAGE_SHADER_DEVICE_ADDRESS,
                USAGE_ACCELERATION_STRUCTURE_BUILD_INPUT_READ_ONLY,
            );
            lemma_contains_trans(
                USAGE_STORAGE_BUFFER | USAGE_SHADER_DEVICE_ADDRESS
                    | USAGE_ACCELERATION_STRUCTURE_BUILD_INPUT_READ_ONLY,
                USAGE_STORAGE_BUFFER | USAGE_SHADER_DEVICE_ADDRESS,
                USAGE_STORAGE_BUFFER,
            );
            lemma_contains_trans(
                USAGE_STORAGE_BUFFER | USAGE_SHADER_DEVICE_ADDRESS
                    | USAGE_ACCELERATION_STRUCTURE_BUILD_INPUT_READ_ONLY,
                USAGE_STORAGE_BUFFER | USAGE_SHADER_DEVICE_ADDRESS,
                USAGE_SHADER_DEVICE_ADDRESS,
            );
            lemma_or_contains(MEMORY_HOST_VISIBLE, MEMORY_HOST_COHERENT);
        }

        let usage = USAGE_STORAGE_BUFFER | USAGE_SHADER_DEVICE_ADDRESS
            | USAGE_ACCELERATION_STRUCTURE_BUILD_INPUT_READ_ONLY;
        let visibility = MEMORY_HOST_VISIBLE | MEMORY_HOST_COHERENT;

        let vertex_buffer_size: u64 = (vlen as u64) * VERTEX_STRIDE;
        let mut vertex_buffer = match Buffers::new(ctx, vertex_buffer_size, usage, visibility) {
            Ok(b) => b,
            Err(e) => {
                return Err(e);
            },
        };
        let stored_vertices = vertex_buffer.store(&vertex_data);
        proof {
            assert(stored_vertices is Ok);
        }

        let index_buffer_size: u64 = (ilen as u64) * 4;
        let mut index_buffer = match Buffers::new(ctx, index_buffer_size, usage, visibility) {
            Ok(b) => b,
            Err(e) => {
                return Err(e);
            },
        };
        let stored_indices = index_buffer.store(&index_data);
        proof {
            assert(stored_indices is Ok);
        }

        Ok(
            MeshBuffer {
                vertex_stride: VERTEX_STRIDE,
                max_vertex: (vlen - 1) as u32,
                indices_count: ilen as u32,
                vertex_buffer,
                index_buffer,
            },
        )
    }
}

} // verus!
