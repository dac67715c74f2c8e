use vstd::prelude::*;
use crate::flags::ACCESS_ACCELERATION_STRUCTURE_READ;
use crate::flags::ACCESS_TRANSFER_WRITE;
use crate::flags::PIPELINE_STAGE_ACCELERATION_STRUCTURE_BUILD;
use crate::flags::PIPELINE_STAGE_TRANSFER;

verus! {

/// The sizes the device's build-size query reports for one acceleration
/// structure: how large its backing buffer must be and how much transient
/// scratch memory the build itself needs.
#[derive(Clone, Copy, PartialEq, Eq, Structural, Debug)]
pub struct BuildSizes {
    pub acceleration_structure_size: u64,
    pub build_scratch_size: u64,
}

/// What one acceleration-structure build reads: either one mesh's
/// triangles, through the two buffer addresses and the layout metadata, or
/// the scene's packed instance table.
#[derive(Clone, Copy, PartialEq, Eq, Structural, Debug)]
pub enum GeometryDescription {
    Triangles {
        vertex_address: u64,
        index_address: u64,
        vertex_stride: u64,
        max_vertex: u32,
        primitive_count: u32,
    },
    Instances { instance_buffer_address: u64, instance_count: u32 },
}

/// One step of a one-shot build submission.  The executor runs the steps
/// in order on a single queue and returns only once the queue is idle, so
/// a device address produced by the recorded build is valid as soon as the
/// step list has been run.
#[derive(Clone, Copy, PartialEq, Eq, Structural, Debug)]
pub enum BuildStep {
    /// Begin a one-time-submit command buffer.
    Begin,
    /// A memory barrier: work of `src_stage` with `src_access` must
    /// complete and become visible before work of `dst_stage` performs
    /// `dst_access`.
    Barrier { src_access: u32, dst_access: u32, src_stage: u32, dst_stage: u32 },
    /// Build the structure `destination_handle` from `geometry`, using the
    /// scratch memory at `scratch_address`.
    BuildStructure { destination_handle: u64, scratch_address: u64, geometry: GeometryDescription },
    /// End the command buffer.
    End,
    /// Submit it on the queue.
    Submit,
    /// Block until the queue is idle.
    WaitIdle,
}

/// The one-shot command sequence that builds a bottom-level structure:
/// record the build, submit, and wait for the queue to drain.
pub open spec fn blas_build_steps(
    destination_handle: u64,
    scratch_address: u64,
    geometry: GeometryDescription,
) -> Seq<BuildStep> {
    seq![
        BuildStep::Begin,
        BuildStep::BuildStructure { destination_handle, scratch_address, geometry },
        BuildStep::End,
        BuildStep::Submit,
        BuildStep::WaitIdle,
    ]
}

/// The one-shot command sequence that builds the top-level structure.  The
/// host wrote the instance buffer by a map-and-copy, so before the build
/// may read it, a barrier must order that upload (tracked as a transfer
/// write) before the build stage's reads.
pub open spec fn tlas_build_steps(
    destination_handle: u64,
    scratch_address: u64,
    geometry: GeometryDescription,
) -> Seq<BuildStep> {
    seq![
        BuildStep::Begin,
        BuildStep::Barrier {
            src_access: ACCESS_TRANSFER_WRITE,
            dst_access: ACCESS_ACCELERATION_STRUCTURE_READ,
            src_stage: PIPELINE_STAGE_TRANSFER,
            dst_stage: PIPELINE_STAGE_ACCELERATION_STRUCTURE_BUILD,
        },
        BuildStep::BuildStructure { destination_handle, scratch_address, geometry },
        BuildStep::End,
        BuildStep::Submit,
        BuildStep::WaitIdle,
    ]
}

/// Records the bottom-level build sequence.
pub fn record_blas_build(
    destination_handle: u64,
    scratch_address: u64,
    geometry: GeometryDescription,
) -> (r: Vec<BuildStep>)
    ensures
        r@ == blas_build_steps(destination_handle, scratch_address, geometry),
{
    let mut steps: Vec<BuildStep> = Vec::new();
    steps.push(BuildStep::Begin);
    steps.push(BuildStep::BuildStructure { destination_handle, scratch_address, geometry });
    steps.push(BuildStep::End);
    steps.push(BuildStep::Submit);
    steps.push(BuildStep::WaitIdle);
    assert(steps@ =~= blas_build_steps(destination_handle, scratch_address, geometry));
    steps
}

/// Records the top-level build sequence, barrier included.
pub fn record_tlas_build(
    destination_handle: u64,
    scratch_address: u64,
    geometry: GeometryDescription,
) -> (r: Vec<BuildStep>)
    ensures
        r@ == tlas_build_steps(destination_handle, scratch_address, geometry),
{
    let mut steps: Vec<BuildStep> = Vec::new();
    steps.push(BuildStep::Begin);
    steps.push(
        BuildStep::Barrier {
            src_access: ACCESS_TRANSFER_WRITE,
            dst_access: ACCESS_ACCELERATION_STRUCTURE_READ,
            src_stage: PIPELINE_STAGE_TRANSFER,
            dst_stage: PIPELINE_STAGE_ACCELERATION_STRUCTURE_BUILD,
        },
    );
    steps.push(BuildStep::BuildStructure { destination_handle, scratch_address, geometry });
    steps.push(BuildStep::End);
    steps.push(BuildStep::Submit);
    steps.push(BuildStep::WaitIdle);
    assert(steps@ =~= tlas_build_steps(destination_handle, scratch_address, geometry));
    steps
}

} // verus!
