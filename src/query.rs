//! Lowering of ray query operations.

use vstd::prelude::*;
use crate::cache::{cached_id, is_vacant, Handle};
use crate::context::{has_id_room, intern, type_id, BlockContext, ContextModel};
use crate::instruction::{
    ray_query_initialize_model, ray_query_proceed_model, Block, Instruction, InstructionModel,
};
use crate::ray::{
    bool_key, ray_desc_extracts, ray_desc_types, LowerError, RayQueryFunction, RAY_DESC_CULL_MASK,
    RAY_DESC_DIR, RAY_DESC_FIELD_COUNT, RAY_DESC_FLAGS, RAY_DESC_ORIGIN, RAY_DESC_T_MAX,
    RAY_DESC_T_MIN,
};
use crate::types::{DeclKey, ScalarKind, TypeKey};

verus! {

/// What lowering `function` on the query `query` does from state `m`: the
/// state after it and the instructions it appends to the block, or the error
/// it stops on.
pub open spec fn ray_query_lowering(m: ContextModel, query: Handle, function: RayQueryFunction) -> Result<
    (ContextModel, Seq<InstructionModel>),
    LowerError,
> {
    match cached_id(m.cached, query) {
        None => Err(LowerError::MissingOperand(query)),
        Some(query_id) => match function {
            RayQueryFunction::Initialize { acceleration_structure, descriptor } => {
                match (cached_id(m.cached, descriptor), cached_id(m.cached, acceleration_structure)) {
                    (None, _) => Err(LowerError::MissingOperand(descriptor)),
                    (_, None) => Err(LowerError::MissingOperand(acceleration_structure)),
                    (Some(desc_id), Some(acc_id)) => {
                        let t = ray_desc_types(m);
                        let n = t.next_id;
                        Ok(
                            (
                                ContextModel { next_id: (n + RAY_DESC_FIELD_COUNT) as u32, ..t },
                                ray_desc_extracts(t, desc_id).push(
                                    ray_query_initialize_model(
                                        query_id,
                                        acc_id,
                                        (n + RAY_DESC_FLAGS) as u32,
                                        (n + RAY_DESC_CULL_MASK) as u32,
                                        (n + RAY_DESC_ORIGIN) as u32,
                                        (n + RAY_DESC_T_MIN) as u32,
                                        (n + RAY_DESC_DIR) as u32,
                                        (n + RAY_DESC_T_MAX) as u32,
                                    ),
                                ),
                            ),
                        )
                    },
                }
            },
            RayQueryFunction::Proceed { result } => {
                if !is_vacant(m.cached, result) {
                    Err(LowerError::ResultNotVacant(result))
                } else {
                    let t = intern(m, bool_key());
                    let id = t.next_id;
                    Ok(
                        (
                            ContextModel {
                                next_id: (id + 1) as u32,
                                cached: t.cached.update(result.index as int, Some(id)),
                                ..t
                            },
                            seq![ray_query_proceed_model(type_id(t, bool_key()), id, query_id)],
                        ),
                    )
                }
            },
            RayQueryFunction::Terminate => Ok((m, Seq::empty())),
        },
    }
}

impl BlockContext {
    /// Lowers one step of the ray query `query` into `block`.
    ///
    /// Initialize reads the six descriptor fields and emits one initialize
    /// instruction; Proceed emits one poll whose boolean result it caches
    /// for `result`. Terminate emits nothing here: the query is left to be
    /// abandoned, and no explicit terminate instruction is written, though
    /// the instruction set has one. Every operand must already be lowered:
    /// where one is not, nothing is emitted or changed.
    pub fn write_ray_query_function(
        &mut self,
        query: Handle,
        function: &RayQueryFunction,
        block: &mut Block,
    ) -> (r: Result<(), LowerError>)
        requires
            has_id_room(old(self)@),
        ensures
            match ray_query_lowering(old(self)@, query, *function) {
                Ok((m, emitted)) => {
                    &&& r is Ok
                    &&& final(self)@ == m
                    &&& final(block)@ == old(block)@ + emitted
                },
                Err(e) => {
                    &&& r == Err::<(), LowerError>(e)
                    &&& final(self)@ == old(self)@
                    &&& final(block)@ == old(block)@
                },
            },
    {
        let query_id = match self.cached.get(query) {
            Some(id) => id,
            None => return Err(LowerError::MissingOperand(query)),
        };
        match *function {
            RayQueryFunction::Initialize { acceleration_structure, descriptor } => {
                let desc_id = match self.cached.get(descriptor) {
                    Some(id) => id,
                    None => return Err(LowerError::MissingOperand(descriptor)),
                };
                let acc_struct_id = match self.cached.get(acceleration_structure) {
                    Some(id) => id,
                    None => return Err(LowerError::MissingOperand(acceleration_structure)),
                };
                let first = self.write_ray_desc_extracts(desc_id, block);
                block.push(
                    Instruction::ray_query_initialize(
                        query_id,
                        acc_struct_id,
                        first + RAY_DESC_FLAGS,
                        first + RAY_DESC_CULL_MASK,
                        first + RAY_DESC_ORIGIN,
                        first + RAY_DESC_T_MIN,
                        first + RAY_DESC_DIR,
                        first + RAY_DESC_T_MAX,
                    ),
                );
            },
            RayQueryFunction::Proceed { result } => {
                if !self.cached.is_vacant(result) {
                    return Err(LowerError::ResultNotVacant(result));
                }
                let result_type_id = self.get_type_id(DeclKey::Type(TypeKey::Scalar(ScalarKind::Bool)));
                let id = self.gen_id();
                self.cached.insert(result, id);
                block.push(Instruction::ray_query_proceed(result_type_id, id, query_id));
            },
            RayQueryFunction::Terminate => {},
        }
        Ok(())
    }
}

} // verus!
