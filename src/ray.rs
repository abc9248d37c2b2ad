//! The ray operations of the IR and the fixed layouts of the ray descriptor
//! and ray intersection composites. Both the code that builds a composite and
//! the code that takes it apart read the layout from here.

use vstd::prelude::*;
use crate::cache::Handle;
use crate::context::{intern, take_ids, type_id, BlockContext, ContextModel};
use crate::instruction::{composite_extract_model, Block, Instruction, InstructionModel};
use crate::types::{find, DeclKey, ScalarKind, TypeKey};

verus! {

/// One step of a ray query object's life.
#[derive(Clone, Copy, Debug, PartialEq, Eq, Structural)]
pub enum RayQueryFunction {
    Initialize { acceleration_structure: Handle, descriptor: Handle },
    Proceed { result: Handle },
    Terminate,
}

/// A ray dispatch, or the report of a procedural hit.
#[derive(Clone, Copy, Debug, PartialEq, Eq, Structural)]
pub enum RayTracingFunction {
    TraceRay { acceleration_structure: Handle, descriptor: Handle, payload: Handle, payload_ty: u32 },
    ReportIntersection {
        hit_t: Handle,
        hit_type: Handle,
        intersection: Handle,
        intersection_ty: TypeKey,
        result: Handle,
    },
}

/// An input that upstream validation should have ruled out. Lowering stops
/// on it and emits nothing.
#[derive(Clone, Copy, Debug, PartialEq, Eq, Structural)]
pub enum LowerError {
    /// An operand's expression has not been lowered.
    MissingOperand(Handle),
    /// A result's expression is outside the arena or already has its value.
    ResultNotVacant(Handle),
    /// The IR module registers no ray intersection type.
    MissingRayIntersectionType,
}

/// Field indices of the ray descriptor composite.
pub const RAY_DESC_FLAGS: u32 = 0;
pub const RAY_DESC_CULL_MASK: u32 = 1;
pub const RAY_DESC_T_MIN: u32 = 2;
pub const RAY_DESC_T_MAX: u32 = 3;
pub const RAY_DESC_ORIGIN: u32 = 4;
pub const RAY_DESC_DIR: u32 = 5;
pub const RAY_DESC_FIELD_COUNT: u32 = 6;

pub open spec fn u32_key() -> DeclKey {
    DeclKey::Type(TypeKey::Scalar(ScalarKind::U32))
}

pub open spec fn f32_key() -> DeclKey {
    DeclKey::Type(TypeKey::Scalar(ScalarKind::F32))
}

pub open spec fn vec3_key() -> DeclKey {
    DeclKey::Type(TypeKey::Vector { size: 3, scalar: ScalarKind::F32 })
}

pub open spec fn bool_key() -> DeclKey {
    DeclKey::Type(TypeKey::Scalar(ScalarKind::Bool))
}

/// The type of field `i` of the ray descriptor: `flags` and `cull_mask` are
/// `u32`, `t_min` and `t_max` are `f32`, `origin` and `dir` are `vec3<f32>`.
pub open spec fn ray_desc_field_key(i: int) -> DeclKey {
    if i < 2 {
        u32_key()
    } else if i < 4 {
        f32_key()
    } else {
        vec3_key()
    }
}

/// The type of field `i` of the ray descriptor.
pub fn ray_desc_field(i: u32) -> (r: DeclKey)
    requires
        i < RAY_DESC_FIELD_COUNT,
    ensures
        r == ray_desc_field_key(i as int),
{
    if i < 2 {
        DeclKey::Type(TypeKey::Scalar(ScalarKind::U32))
    } else if i < 4 {
        DeclKey::Type(TypeKey::Scalar(ScalarKind::F32))
    } else {
        DeclKey::Type(TypeKey::Vector { size: 3, scalar: ScalarKind::F32 })
    }
}

/// The state once the descriptor's field types are declared.
pub open spec fn ray_desc_types(m: ContextModel) -> ContextModel {
    intern(intern(intern(m, u32_key()), f32_key()), vec3_key())
}

/// The six extracts that read a ray descriptor `desc`, field `i` into
/// identifier `m.next_id + i`, where `m` holds the field types.
pub open spec fn ray_desc_extracts(m: ContextModel, desc: u32) -> Seq<InstructionModel> {
    Seq::new(
        RAY_DESC_FIELD_COUNT as nat,
        |i: int| composite_extract_model(
            type_id(m, ray_desc_field_key(i)),
            (m.next_id + i) as u32,
            desc,
            i as u32,
        ),
    )
}

impl BlockContext {
    /// Reads the six fields of the ray descriptor `desc_id`, in field order,
    /// into six fresh consecutive identifiers, the first of which it returns.
    pub fn write_ray_desc_extracts(&mut self, desc_id: u32, block: &mut Block) -> (first: u32)
        requires
            old(self)@.next_id <= u32::MAX - 16,
        ensures
            first == ray_desc_types(old(self)@).next_id,
            first <= old(self)@.next_id + 3,
            final(self)@ == take_ids(ray_desc_types(old(self)@), RAY_DESC_FIELD_COUNT),
            final(block)@ == old(block)@ + ray_desc_extracts(ray_desc_types(old(self)@), desc_id),
    {
        self.get_type_id(DeclKey::Type(TypeKey::Scalar(ScalarKind::U32)));
        self.get_type_id(DeclKey::Type(TypeKey::Scalar(ScalarKind::F32)));
        self.get_type_id(DeclKey::Type(TypeKey::Vector { size: 3, scalar: ScalarKind::F32 }));
        let ghost m1 = self@;
        let ghost b0 = block@;
        assert(m1 == ray_desc_types(old(self)@));
        let first = self.ids.peek();
        let mut i: u32 = 0;
        while i < RAY_DESC_FIELD_COUNT
            invariant
                i <= RAY_DESC_FIELD_COUNT,
                first == m1.next_id,
                m1.next_id <= u32::MAX - 13,
                self@ == take_ids(m1, i),
                find(m1.decls, u32_key()) is Some,
                find(m1.decls, f32_key()) is Some,
                find(m1.decls, vec3_key()) is Some,
                block@ == b0 + ray_desc_extracts(m1, desc_id).take(i as int),
            decreases RAY_DESC_FIELD_COUNT - i,
        {
            let key = ray_desc_field(i);
            let ty = self.get_type_id(key);
            let id = self.gen_id();
            block.push(Instruction::composite_extract(ty, id, desc_id, i));
            proof {
                assert(ray_desc_extracts(m1, desc_id).take(i as int + 1) =~= ray_desc_extracts(
                    m1,
                    desc_id,
                ).take(i as int).push(ray_desc_extracts(m1, desc_id)[i as int]));
                assert(block@ =~= b0 + ray_desc_extracts(m1, desc_id).take(i as int + 1));
            }
            i = i + 1;
        }
        assert(ray_desc_extracts(m1, desc_id).take(6) =~= ray_desc_extracts(m1, desc_id));
        first
    }
}

} // verus!
