use vstd::prelude::*;

verus! {

// Buffer-usage flag bits, with the values the Vulkan API assigns them.
pub const USAGE_TRANSFER_SRC: u32 = 0x1;
pub const USAGE_TRANSFER_DST: u32 = 0x2;
pub const USAGE_STORAGE_BUFFER: u32 = 0x20;
pub const USAGE_SHADER_DEVICE_ADDRESS: u32 = 0x20000;
pub const USAGE_ACCELERATION_STRUCTURE_BUILD_INPUT_READ_ONLY: u32 = 0x80000;
pub const USAGE_ACCELERATION_STRUCTURE_STORAGE: u32 = 0x100000;

// Memory-property flag bits.
pub const MEMORY_DEVICE_LOCAL: u32 = 0x1;
pub const MEMORY_HOST_VISIBLE: u32 = 0x2;
pub const MEMORY_HOST_COHERENT: u32 = 0x4;

// Geometry-instance flag bits (the 8-bit flags field of an instance record).
pub const INSTANCE_TRIANGLE_FACING_CULL_DISABLE: u32 = 0x1;
pub const INSTANCE_TRIANGLE_FLIP_FACING: u32 = 0x2;
pub const INSTANCE_FORCE_OPAQUE: u32 = 0x4;
pub const INSTANCE_FORCE_NO_OPAQUE: u32 = 0x8;

// Queue-capability flag bits.
pub const QUEUE_GRAPHICS: u32 = 0x1;

// Shader-stage flag bits.
pub const STAGE_RAYGEN: u32 = 0x100;
pub const STAGE_ANY_HIT: u32 = 0x200;
pub const STAGE_CLOSEST_HIT: u32 = 0x400;
pub const STAGE_MISS: u32 = 0x800;
pub const STAGE_INTERSECTION: u32 = 0x1000;

// Access-mask bits used by the one explicit barrier of the build sequence.
pub const ACCESS_TRANSFER_WRITE: u32 = 0x1000;
pub const ACCESS_ACCELERATION_STRUCTURE_READ: u32 = 0x200000;

// Pipeline-stage bits used by that barrier.
pub const PIPELINE_STAGE_TRANSFER: u32 = 0x1000;
pub const PIPELINE_STAGE_ACCELERATION_STRUCTURE_BUILD: u32 = 0x2000000;

/// A flag word `flags` grants everything in `required` exactly when the
/// required bits are a subset of the set bits.
pub open spec fn flags_contain(flags: u32, required: u32) -> bool {
    flags & required == required
}

/// A flag word contains itself.
pub proof fn lemma_self_contains(a: u32)
    ensures
        flags_contain(a, a),
{
    assert(a & a == a) by (bit_vector);
}

/// A combined flag word contains each of its parts.
pub proof fn lemma_or_contains(a: u32, b: u32)
    ensures
        flags_contain(a | b, a),
        flags_contain(a | b, b),
{
    assert((a | b) & a == a && (a | b) & b == b) by (bit_vector);
}

/// Containment of flag words is transitive.
pub proof fn lemma_contains_trans(x: u32, y: u32, z: u32)
    requires
        flags_contain(x, y),
        flags_contain(y, z),
    ensures
        flags_contain(x, z),
{
    assert(x & z == z) by (bit_vector)
        requires
            x & y == y,
            y & z == z,
    ;
}

/// Executable test for `flags_contain`.
pub fn contains_flags(flags: u32, required: u32) -> (r: bool)
    ensures
        r == flags_contain(flags, required),
{
    flags & required == required
}

} // verus!
