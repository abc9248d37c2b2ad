//! Opcode words and operand enumerants of the target instruction set, taken
//! from the `spirv` crate's definitions. Each enum there is `#[repr(u32)]`
//! with explicit discriminants, so a cast yields the word the grammar fixes.

use vstd::prelude::*;

verus! {

/// Relies on `spirv::Op::CompositeConstruct`: as `u32` it is the opcode word 80.
#[verifier::external_body]
pub(crate) fn op_composite_construct() -> (r: u32)
    ensures
        r == 80,
{
    spirv::Op::CompositeConstruct as u32
}

/// Relies on `spirv::Op::CompositeExtract`: as `u32` it is the opcode word 81.
#[verifier::external_body]
pub(crate) fn op_composite_extract() -> (r: u32)
    ensures
        r == 81,
{
    spirv::Op::CompositeExtract as u32
}

/// Relies on `spirv::Op::TypePointer`: as `u32` it is the opcode word 32.
#[verifier::external_body]
pub(crate) fn op_type_pointer() -> (r: u32)
    ensures
        r == 32,
{
    spirv::Op::TypePointer as u32
}

/// Relies on `spirv::Op::Variable`: as `u32` it is the opcode word 59.
#[verifier::external_body]
pub(crate) fn op_variable() -> (r: u32)
    ensures
        r == 59,
{
    spirv::Op::Variable as u32
}

/// Relies on `spirv::Op::Store`: as `u32` it is the opcode word 62.
#[verifier::external_body]
pub(crate) fn op_store() -> (r: u32)
    ensures
        r == 62,
{
    spirv::Op::Store as u32
}

/// Relies on `spirv::Op::CopyMemory`: as `u32` it is the opcode word 63.
#[verifier::external_body]
pub(crate) fn op_copy_memory() -> (r: u32)
    ensures
        r == 63,
{
    spirv::Op::CopyMemory as u32
}

/// Relies on `spirv::Op::TraceRayKHR`: as `u32` it is the opcode word 4445.
#[verifier::external_body]
pub(crate) fn op_trace_ray() -> (r: u32)
    ensures
        r == 4445,
{
    spirv::Op::TraceRayKHR as u32
}

/// Relies on `spirv::Op::RayQueryInitializeKHR`: as `u32` it is the opcode word 4473.
#[verifier::external_body]
pub(crate) fn op_ray_query_initialize() -> (r: u32)
    ensures
        r == 4473,
{
    spirv::Op::RayQueryInitializeKHR as u32
}

/// Relies on `spirv::Op::RayQueryProceedKHR`: as `u32` it is the opcode word 4477.
#[verifier::external_body]
pub(crate) fn op_ray_query_proceed() -> (r: u32)
    ensures
        r == 4477,
{
    spirv::Op::RayQueryProceedKHR as u32
}

/// Relies on `spirv::Op::ReportIntersectionKHR`: as `u32` it is the opcode word 5334.
#[verifier::external_body]
pub(crate) fn op_report_intersection() -> (r: u32)
    ensures
        r == 5334,
{
    spirv::Op::ReportIntersectionKHR as u32
}

/// Relies on `spirv::Op::RayQueryGetIntersectionTypeKHR`: as `u32` it is the opcode word 4479.
#[verifier::external_body]
pub(crate) fn op_get_intersection_type() -> (r: u32)
    ensures
        r == 4479,
{
    spirv::Op::RayQueryGetIntersectionTypeKHR as u32
}

/// Relies on `spirv::Op::RayQueryGetIntersectionTKHR`: as `u32` it is the opcode word 6018.
#[verifier::external_body]
pub(crate) fn op_get_intersection_t() -> (r: u32)
    ensures
        r == 6018,
{
    spirv::Op::RayQueryGetIntersectionTKHR as u32
}

/// Relies on `spirv::Op::RayQueryGetIntersectionInstanceCustomIndexKHR`: as `u32` it is the opcode word 6019.
#[verifier::external_body]
pub(crate) fn op_get_intersection_instance_custom_index() -> (r: u32)
    ensures
        r == 6019,
{
    spirv::Op::RayQueryGetIntersectionInstanceCustomIndexKHR as u32
}

/// Relies on `spirv::Op::RayQueryGetIntersectionInstanceIdKHR`: as `u32` it is the opcode word 6020.
#[verifier::external_body]
pub(crate) fn op_get_intersection_instance_id() -> (r: u32)
    ensures
        r == 6020,
{
    spirv::Op::RayQueryGetIntersectionInstanceIdKHR as u32
}

/// Relies on `spirv::Op::RayQueryGetIntersectionInstanceShaderBindingTableRecordOffsetKHR`: as `u32` it is the opcode word 6021.
#[verifier::external_body]
pub(crate) fn op_get_intersection_sbt_record_offset() -> (r: u32)
    ensures
        r == 6021,
{
    spirv::Op::RayQueryGetIntersectionInstanceShaderBindingTableRecordOffsetKHR as u32
}

/// Relies on `spirv::Op::RayQueryGetIntersectionGeometryIndexKHR`: as `u32` it is the opcode word 6022.
#[verifier::external_body]
pub(crate) fn op_get_intersection_geometry_index() -> (r: u32)
    ensures
        r == 6022,
{
    spirv::Op::RayQueryGetIntersectionGeometryIndexKHR as u32
}

/// Relies on `spirv::Op::RayQueryGetIntersectionPrimitiveIndexKHR`: as `u32` it is the opcode word 6023.
#[verifier::external_body]
pub(crate) fn op_get_intersection_primitive_index() -> (r: u32)
    ensures
        r == 6023,
{
    spirv::Op::RayQueryGetIntersectionPrimitiveIndexKHR as u32
}

/// Relies on `spirv::Op::RayQueryGetIntersectionBarycentricsKHR`: as `u32` it is the opcode word 6024.
#[verifier::external_body]
pub(crate) fn op_get_intersection_barycentrics() -> (r: u32)
    ensures
        r == 6024,
{
    spirv::Op::RayQueryGetIntersectionBarycentricsKHR as u32
}

/// Relies on `spirv::Op::RayQueryGetIntersectionFrontFaceKHR`: as `u32` it is the opcode word 6025.
#[verifier::external_body]
pub(crate) fn op_get_intersection_front_face() -> (r: u32)
    ensures
        r == 6025,
{
    spirv::Op::RayQueryGetIntersectionFrontFaceKHR as u32
}

/// Relies on `spirv::Op::RayQueryGetIntersectionObjectToWorldKHR`: as `u32` it is the opcode word 6031.
#[verifier::external_body]
pub(crate) fn op_get_intersection_object_to_world() -> (r: u32)
    ensures
        r == 6031,
{
    spirv::Op::RayQueryGetIntersectionObjectToWorldKHR as u32
}

/// Relies on `spirv::Op::RayQueryGetIntersectionWorldToObjectKHR`: as `u32` it is the opcode word 6032.
#[verifier::external_body]
pub(crate) fn op_get_intersection_world_to_object() -> (r: u32)
    ensures
        r == 6032,
{
    spirv::Op::RayQueryGetIntersectionWorldToObjectKHR as u32
}

/// Relies on `spirv::StorageClass::RayPayloadKHR` (an alias of the `NV` variant): as `u32` it is the storage-class operand 5338.
#[verifier::external_body]
pub(crate) fn storage_class_ray_payload() -> (r: u32)
    ensures
        r == 5338,
{
    spirv::StorageClass::RayPayloadKHR as u32
}

/// Relies on `spirv::StorageClass::HitAttributeKHR` (an alias of the `NV` variant): as `u32` it is the storage-class operand 5339.
#[verifier::external_body]
pub(crate) fn storage_class_hit_attribute() -> (r: u32)
    ensures
        r == 5339,
{
    spirv::StorageClass::HitAttributeKHR as u32
}

/// Relies on `spirv::RayQueryIntersection::RayQueryCommittedIntersectionKHR`: as `u32` it is the intersection selector operand 1.
#[verifier::external_body]
pub(crate) fn committed_intersection() -> (r: u32)
    ensures
        r == 1,
{
    spirv::RayQueryIntersection::RayQueryCommittedIntersectionKHR as u32
}

} // verus!
