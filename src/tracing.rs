//! Lowering of ray dispatch and of procedural hit reports.

use vstd::prelude::*;
use crate::cache::{cached_id, is_vacant};
use crate::context::{has_id_room, intern, take_ids, type_id, BlockContext, ContextModel};
use crate::instruction::{
    copy_memory_model, report_intersection_model, store_model, trace_ray_model,
    type_pointer_model, variable_model, Block, Instruction, InstructionModel,
};
use crate::opcodes::{storage_class_hit_attribute, storage_class_ray_payload};
use crate::ray::{
    bool_key, ray_desc_extracts, ray_desc_types, LowerError, RayTracingFunction,
    RAY_DESC_CULL_MASK, RAY_DESC_DIR, RAY_DESC_FIELD_COUNT, RAY_DESC_FLAGS, RAY_DESC_ORIGIN,
    RAY_DESC_T_MAX, RAY_DESC_T_MIN,
};
use crate::types::{DeclKey, ScalarKind, TypeKey};

verus! {

/// The storage class a ray payload lives in during a dispatch.
pub open spec fn ray_payload_class() -> u32 {
    5338
}

/// The storage class of the attributes of a reported hit.
pub open spec fn hit_attribute_class() -> u32 {
    5339
}

/// The type key of the IR type with handle `ty`.
pub open spec fn handle_key(ty: u32) -> DeclKey {
    DeclKey::Type(TypeKey::Handle(ty))
}

/// A pointer into storage class `class` to the type with identifier `base`.
pub open spec fn pointer_key(base: u32, class: u32) -> DeclKey {
    DeclKey::Type(TypeKey::Pointer { base, class })
}

/// The state once the payload slot for a payload of IR type `payload_ty` is
/// declared: its pointer type interned and a fresh variable of it written to
/// the declaration section.
pub open spec fn payload_slot(m: ContextModel, payload_ty: u32) -> ContextModel {
    let pointee = intern(m, handle_key(payload_ty));
    let p = intern(pointee, pointer_key(type_id(pointee, handle_key(payload_ty)), ray_payload_class()));
    let ptr_ty = type_id(p, pointer_key(type_id(pointee, handle_key(payload_ty)), ray_payload_class()));
    ContextModel {
        next_id: (p.next_id + 1) as u32,
        declarations: p.declarations.push(variable_model(ptr_ty, p.next_id, ray_payload_class())),
        ..p
    }
}

/// In a state `m` that `payload_slot` returned, the identifier of the slot
/// it declared: the last one taken.
pub open spec fn payload_slot_id(m: ContextModel) -> u32 {
    (m.next_id - 1) as u32
}

/// What lowering `function` does from state `m`: the state after it and the
/// instructions it appends to the block, or the error it stops on.
pub open spec fn ray_tracing_lowering(m: ContextModel, function: RayTracingFunction) -> Result<
    (ContextModel, Seq<InstructionModel>),
    LowerError,
> {
    match function {
        RayTracingFunction::TraceRay { acceleration_structure, descriptor, payload, payload_ty } => {
            match (
                cached_id(m.cached, acceleration_structure),
                cached_id(m.cached, payload),
                cached_id(m.cached, descriptor),
            ) {
                (None, _, _) => Err(LowerError::MissingOperand(acceleration_structure)),
                (_, None, _) => Err(LowerError::MissingOperand(payload)),
                (_, _, None) => Err(LowerError::MissingOperand(descriptor)),
                (Some(acc_id), Some(payload_id), Some(desc_id)) => {
                    let s = payload_slot(m, payload_ty);
                    let slot = payload_slot_id(s);
                    let d = ray_desc_types(s);
                    let n = d.next_id;
                    let after = intern(
                        intern(take_ids(d, RAY_DESC_FIELD_COUNT), DeclKey::ConstantU32(0)),
                        DeclKey::ConstantU32(1),
                    );
                    let zero = type_id(after, DeclKey::ConstantU32(0));
                    let one = type_id(after, DeclKey::ConstantU32(1));
                    Ok(
                        (
                            after,
                            ray_desc_extracts(d, desc_id) + seq![
                                copy_memory_model(slot, payload_id),
                                trace_ray_model(
                                    acc_id,
                                    (n + RAY_DESC_FLAGS) as u32,
                                    (n + RAY_DESC_CULL_MASK) as u32,
                                    zero,
                                    one,
                                    zero,
                                    (n + RAY_DESC_ORIGIN) as u32,
                                    (n + RAY_DESC_T_MIN) as u32,
                                    (n + RAY_DESC_DIR) as u32,
                                    (n + RAY_DESC_T_MAX) as u32,
                                    slot,
                                ),
                                copy_memory_model(payload_id, slot),
                            ],
                        ),
                    )
                },
            }
        },
        RayTracingFunction::ReportIntersection {
            hit_t,
            hit_type,
            intersection,
            intersection_ty,
            result,
        } => {
            match (
                cached_id(m.cached, hit_t),
                cached_id(m.cached, hit_type),
                cached_id(m.cached, intersection),
            ) {
                (None, _, _) => Err(LowerError::MissingOperand(hit_t)),
                (_, None, _) => Err(LowerError::MissingOperand(hit_type)),
                (_, _, None) => Err(LowerError::MissingOperand(intersection)),
                (Some(hit_t_id), Some(hit_type_id), Some(intersection_id)) => {
                    if !is_vacant(m.cached, result) {
                        Err(LowerError::ResultNotVacant(result))
                    } else {
                        let a = intern(m, DeclKey::Type(intersection_ty));
                        let t = intern(a, bool_key());
                        let ptr_ty = t.next_id;
                        let var = (ptr_ty + 1) as u32;
                        let result_id = (ptr_ty + 2) as u32;
                        Ok(
                            (
                                ContextModel {
                                    next_id: (ptr_ty + 3) as u32,
                                    declarations: t.declarations.push(
                                        type_pointer_model(
                                            ptr_ty,
                                            hit_attribute_class(),
                                            type_id(a, DeclKey::Type(intersection_ty)),
                                        ),
                                    ).push(variable_model(ptr_ty, var, hit_attribute_class())),
                                    cached: t.cached.update(result.index as int, Some(result_id)),
                                    ..t
                                },
                                seq![
                                    store_model(var, intersection_id),
                                    report_intersection_model(
                                        type_id(t, bool_key()),
                                        result_id,
                                        hit_t_id,
                                        hit_type_id,
                                    ),
                                ],
                            ),
                        )
                    }
                }
            }
        },
    }
}

/// A dispatch emits the six descriptor reads, then exactly one copy of the
/// payload into its slot, the trace that takes the slot as its payload
/// operand, and exactly one copy of the slot back into the payload.
pub proof fn lemma_dispatch_bracketing(m: ContextModel, function: RayTracingFunction)
    requires
        function is TraceRay,
    ensures
        match ray_tracing_lowering(m, function) {
            Ok((_, emitted)) => {
                let payload_id = cached_id(m.cached, function->TraceRay_payload)->0;
                let slot = emitted[7].operands[10];
                &&& emitted.len() == RAY_DESC_FIELD_COUNT + 3
                &&& forall|i: int| 0 <= i < RAY_DESC_FIELD_COUNT ==> (#[trigger] emitted[i]).op == 81
                &&& emitted[6] == copy_memory_model(slot, payload_id)
                &&& emitted[7].op == 4445
                &&& emitted[8] == copy_memory_model(payload_id, slot)
            },
            Err(_) => true,
        },
{
}

/// A hit report's result is a fresh identifier, at or above every identifier
/// allocated before it: it reads the two cached inputs as its value operands
/// in order, is boolean-typed, and is cached for `result`.
pub proof fn lemma_report_result_fresh(m: ContextModel, function: RayTracingFunction)
    requires
        function is ReportIntersection,
        has_id_room(m),
    ensures
        match ray_tracing_lowering(m, function) {
            Ok((after, emitted)) => {
                let r = emitted[1].result_id->0;
                &&& emitted.len() == 2
                &&& emitted[1].op == 5334
                &&& emitted[1].operands == seq![
                    cached_id(m.cached, function->ReportIntersection_hit_t)->0,
                    cached_id(m.cached, function->ReportIntersection_hit_type)->0,
                ]
                &&& emitted[1].type_id == Some(type_id(after, bool_key()))
                &&& emitted[1].result_id is Some
                &&& m.next_id <= r < after.next_id
                &&& cached_id(after.cached, function->ReportIntersection_result) == Some(r)
            },
            Err(_) => true,
        },
{
}

impl BlockContext {
    /// Declares the storage slot for a ray payload of IR type `payload_ty`
    /// and returns its identifier.
    fn write_payload_slot(&mut self, payload_ty: u32) -> (r: u32)
        requires
            has_id_room(old(self)@),
        ensures
            final(self)@ == payload_slot(old(self)@, payload_ty),
            r == payload_slot_id(final(self)@),
            r == final(self)@.next_id - 1,
            final(self)@.next_id <= old(self)@.next_id + 3,
    {
        let pointee = self.get_type_id(DeclKey::Type(TypeKey::Handle(payload_ty)));
        let class = storage_class_ray_payload();
        let pointer_type_id = self.get_type_id(DeclKey::Type(TypeKey::Pointer { base: pointee, class }));
        let id = self.gen_id();
        self.declarations.push(Instruction::variable(pointer_type_id, id, class));
        id
    }

    /// Lowers a ray dispatch or a procedural hit report into `block`.
    ///
    /// A dispatch reads the six descriptor fields, copies the payload into
    /// its storage slot, emits the trace, and copies the slot back into the
    /// payload. A hit report declares a fresh hit-attribute variable, stores
    /// the candidate intersection into it, and emits the report, whose
    /// boolean result it caches for `result`. Every operand must already be
    /// lowered: where one is not, nothing is emitted or changed.
    pub fn write_ray_tracing_function(&mut self, function: &RayTracingFunction, block: &mut Block) -> (r:
        Result<(), LowerError>)
        requires
            has_id_room(old(self)@),
        ensures
            match ray_tracing_lowering(old(self)@, *function) {
                Ok((m, emitted)) => {
                    &&& r is Ok
                    &&& final(self)@ == m
                    &&& final(block)@ == old(block)@ + emitted
                },
                Err(e) => {
                    &&& r == Err::<(), LowerError>(e)
                    &&& final(self)@ == old(self)@
                    &&& final(block)@ == old(block)@
                },
            },
    {
        match *function {
            RayTracingFunction::TraceRay { acceleration_structure, descriptor, payload, payload_ty } => {
                let acc_struct_id = match self.cached.get(acceleration_structure) {
                    Some(id) => id,
                    None => return Err(LowerError::MissingOperand(acceleration_structure)),
                };
                let payload_id = match self.cached.get(payload) {
                    Some(id) => id,
                    None => return Err(LowerError::MissingOperand(payload)),
                };
                let desc_id = match self.cached.get(descriptor) {
                    Some(id) => id,
                    None => return Err(LowerError::MissingOperand(descriptor)),
                };
                let slot = self.write_payload_slot(payload_ty);
                let ghost b0 = block@;
                let first = self.write_ray_desc_extracts(desc_id, block);
                let zero = self.get_type_id(DeclKey::ConstantU32(0));
                let one = self.get_type_id(DeclKey::ConstantU32(1));
                block.push(Instruction::copy(slot, payload_id));
                block.push(
                    Instruction::trace_ray(
                        acc_struct_id,
                        first + RAY_DESC_FLAGS,
                        first + RAY_DESC_CULL_MASK,
                        zero,
                        one,
                        zero,
                        first + RAY_DESC_ORIGIN,
                        first + RAY_DESC_T_MIN,
                        first + RAY_DESC_DIR,
                        first + RAY_DESC_T_MAX,
                        slot,
                    ),
                );
                block.push(Instruction::copy(payload_id, slot));
                proof {
                    let s = payload_slot(old(self)@, payload_ty);
                    let d = ray_desc_types(s);
                    assert(block@ =~= old(block)@ + (ray_desc_extracts(d, desc_id) + seq![
                        copy_memory_model(slot, payload_id),
                        trace_ray_model(
                            acc_struct_id,
                            (first + RAY_DESC_FLAGS) as u32,
                            (first + RAY_DESC_CULL_MASK) as u32,
                            zero,
                            one,
                            zero,
                            (first + RAY_DESC_ORIGIN) as u32,
                            (first + RAY_DESC_T_MIN) as u32,
                            (first + RAY_DESC_DIR) as u32,
                            (first + RAY_DESC_T_MAX) as u32,
                            slot,
                        ),
                        copy_memory_model(payload_id, slot),
                    ]));
                }
            },
            RayTracingFunction::ReportIntersection {
                hit_t,
                hit_type,
                intersection,
                intersection_ty,
                result,
            } => {
                let hit_t_id = match self.cached.get(hit_t) {
                    Some(id) => id,
                    None => return Err(LowerError::MissingOperand(hit_t)),
                };
                let hit_type_id = match self.cached.get(hit_type) {
                    Some(id) => id,
                    None => return Err(LowerError::MissingOperand(hit_type)),
                };
                let intersection_id = match self.cached.get(intersection) {
                    Some(id) => id,
                    None => return Err(LowerError::MissingOperand(intersection)),
                };
                if !self.cached.is_vacant(result) {
                    return Err(LowerError::ResultNotVacant(result));
                }
                let ty_id = self.get_type_id(DeclKey::Type(intersection_ty));
                let result_ty_id = self.get_type_id(DeclKey::Type(TypeKey::Scalar(ScalarKind::Bool)));
                let class = storage_class_hit_attribute();
                let pointer_type_id = self.gen_id();
                let id = self.gen_id();
                self.declarations.push(Instruction::type_pointer(pointer_type_id, class, ty_id));
                self.declarations.push(Instruction::variable(pointer_type_id, id, class));
                block.push(Instruction::store(id, intersection_id));
                let result_id = self.gen_id();
                block.push(Instruction::report_intersection(result_ty_id, result_id, hit_t_id, hit_type_id));
                self.cached.insert(result, result_id);
                assert(block@ =~= old(block)@ + seq![
                    store_model(id, intersection_id),
                    report_intersection_model(result_ty_id, result_id, hit_t_id, hit_type_id),
                ]);
            },
        }
        Ok(())
    }
}

} // verus!
