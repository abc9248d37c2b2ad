//! Instruction records and the ordered runs of them that make up a function
//! body or a declaration section.

use vstd::prelude::*;
use crate::opcodes::{
    op_composite_construct, op_composite_extract, op_copy_memory, op_ray_query_initialize,
    op_ray_query_proceed, op_report_intersection, op_store, op_trace_ray, op_type_pointer,
    op_variable,
};

verus! {

/// The mathematical content of one instruction record.
pub struct InstructionModel {
    pub op: u32,
    pub type_id: Option<u32>,
    pub result_id: Option<u32>,
    pub operands: Seq<u32>,
}

/// One instruction: its opcode word, optional result type and result
/// identifiers, and its remaining operand words.
pub struct Instruction {
    pub op: u32,
    pub type_id: Option<u32>,
    pub result_id: Option<u32>,
    pub operands: Vec<u32>,
}

impl View for Instruction {
    type V = InstructionModel;

    open spec fn view(&self) -> InstructionModel {
        InstructionModel {
            op: self.op,
            type_id: self.type_id,
            result_id: self.result_id,
            operands: self.operands@,
        }
    }
}

pub open spec fn composite_extract_model(ty: u32, id: u32, composite: u32, index: u32) -> InstructionModel {
    InstructionModel { op: 81, type_id: Some(ty), result_id: Some(id), operands: seq![composite, index] }
}

pub open spec fn composite_construct_model(ty: u32, id: u32, parts: Seq<u32>) -> InstructionModel {
    InstructionModel { op: 80, type_id: Some(ty), result_id: Some(id), operands: parts }
}

pub open spec fn ray_query_initialize_model(
    query: u32,
    acceleration_structure: u32,
    ray_flags: u32,
    cull_mask: u32,
    ray_origin: u32,
    t_min: u32,
    ray_dir: u32,
    t_max: u32,
) -> InstructionModel {
    InstructionModel {
        op: 4473,
        type_id: None,
        result_id: None,
        operands: seq![query, acceleration_structure, ray_flags, cull_mask, ray_origin, t_min, ray_dir, t_max],
    }
}

pub open spec fn ray_query_proceed_model(ty: u32, id: u32, query: u32) -> InstructionModel {
    InstructionModel { op: 4477, type_id: Some(ty), result_id: Some(id), operands: seq![query] }
}

pub open spec fn ray_query_get_intersection_model(
    op: u32,
    ty: u32,
    id: u32,
    query: u32,
    intersection: u32,
) -> InstructionModel {
    InstructionModel { op, type_id: Some(ty), result_id: Some(id), operands: seq![query, intersection] }
}

pub open spec fn trace_ray_model(
    acceleration_structure: u32,
    ray_flags: u32,
    cull_mask: u32,
    sbt_offset: u32,
    sbt_stride: u32,
    miss_index: u32,
    ray_origin: u32,
    t_min: u32,
    ray_dir: u32,
    t_max: u32,
    payload: u32,
) -> InstructionModel {
    InstructionModel {
        op: 4445,
        type_id: None,
        result_id: None,
        operands: seq![
            acceleration_structure, ray_flags, cull_mask, sbt_offset, sbt_stride, miss_index,
            ray_origin, t_min, ray_dir, t_max, payload,
        ],
    }
}

pub open spec fn copy_memory_model(target: u32, source: u32) -> InstructionModel {
    InstructionModel { op: 63, type_id: None, result_id: None, operands: seq![target, source] }
}

pub open spec fn type_pointer_model(id: u32, class: u32, pointee: u32) -> InstructionModel {
    InstructionModel { op: 32, type_id: None, result_id: Some(id), operands: seq![class, pointee] }
}

pub open spec fn variable_model(ty: u32, id: u32, class: u32) -> InstructionModel {
    InstructionModel { op: 59, type_id: Some(ty), result_id: Some(id), operands: seq![class] }
}

pub open spec fn store_model(pointer: u32, value: u32) -> InstructionModel {
    InstructionModel { op: 62, type_id: None, result_id: None, operands: seq![pointer, value] }
}

pub open spec fn report_intersection_model(ty: u32, id: u32, hit: u32, hit_kind: u32) -> InstructionModel {
    InstructionModel { op: 5334, type_id: Some(ty), result_id: Some(id), operands: seq![hit, hit_kind] }
}

impl Instruction {
    pub fn composite_extract(ty: u32, id: u32, composite: u32, index: u32) -> (r: Instruction)
        ensures
            r@ == composite_extract_model(ty, id, composite, index),
    {
        let r = Instruction {
            op: op_composite_extract(),
            type_id: Some(ty),
            result_id: Some(id),
            operands: vec![composite, index],
        };
        assert(r.operands@ =~= seq![composite, index]);
        r
    }

    pub fn composite_construct(ty: u32, id: u32, parts: Vec<u32>) -> (r: Instruction)
        ensures
            r@ == composite_construct_model(ty, id, parts@),
    {
        Instruction { op: op_composite_construct(), type_id: Some(ty), result_id: Some(id), operands: parts }
    }

    pub fn ray_query_initialize(
        query: u32,
        acceleration_structure: u32,
        ray_flags: u32,
        cull_mask: u32,
        ray_origin: u32,
        t_min: u32,
        ray_dir: u32,
        t_max: u32,
    ) -> (r: Instruction)
        ensures
            r@ == ray_query_initialize_model(
                query, acceleration_structure, ray_flags, cull_mask, ray_origin, t_min, ray_dir, t_max,
            ),
    {
        let r = Instruction {
            op: op_ray_query_initialize(),
            type_id: None,
            result_id: None,
            operands: vec![query, acceleration_structure, ray_flags, cull_mask, ray_origin, t_min, ray_dir, t_max],
        };
        assert(r.operands@ =~= seq![query, acceleration_structure, ray_flags, cull_mask, ray_origin, t_min, ray_dir, t_max]);
        r
    }

    pub fn ray_query_proceed(ty: u32, id: u32, query: u32) -> (r: Instruction)
        ensures
            r@ == ray_query_proceed_model(ty, id, query),
    {
        let r = Instruction { op: op_ray_query_proceed(), type_id: Some(ty), result_id: Some(id), operands: vec![query] };
        assert(r.operands@ =~= seq![query]);
        r
    }

    pub fn ray_query_get_intersection(op: u32, ty: u32, id: u32, query: u32, intersection: u32) -> (r: Instruction)
        ensures
            r@ == ray_query_get_intersection_model(op, ty, id, query, intersection),
    {
        let r = Instruction { op, type_id: Some(ty), result_id: Some(id), operands: vec![query, intersection] };
        assert(r.operands@ =~= seq![query, intersection]);
        r
    }

    pub fn trace_ray(
        acceleration_structure: u32,
        ray_flags: u32,
        cull_mask: u32,
        sbt_offset: u32,
        sbt_stride: u32,
        miss_index: u32,
        ray_origin: u32,
        t_min: u32,
        ray_dir: u32,
        t_max: u32,
        payload: u32,
    ) -> (r: Instruction)
        ensures
            r@ == trace_ray_model(
                acceleration_structure, ray_flags, cull_mask, sbt_offset, sbt_stride, miss_index,
                ray_origin, t_min, ray_dir, t_max, payload,
            ),
    {
        let r = Instruction {
            op: op_trace_ray(),
            type_id: None,
            result_id: None,
            operands: vec![
                acceleration_structure, ray_flags, cull_mask, sbt_offset, sbt_stride, miss_index,
                ray_origin, t_min, ray_dir, t_max, payload,
            ],
        };
        assert(r.operands@ =~= seq![
            acceleration_structure, ray_flags, cull_mask, sbt_offset, sbt_stride, miss_index,
            ray_origin, t_min, ray_dir, t_max, payload,
        ]);
        r
    }

    pub fn copy(target: u32, source: u32) -> (r: Instruction)
        ensures
            r@ == copy_memory_model(target, source),
    {
        let r = Instruction { op: op_copy_memory(), type_id: None, result_id: None, operands: vec![target, source] };
        assert(r.operands@ =~= seq![target, source]);
        r
    }

    pub fn type_pointer(id: u32, class: u32, pointee: u32) -> (r: Instruction)
        ensures
            r@ == type_pointer_model(id, class, pointee),
    {
        let r = Instruction { op: op_type_pointer(), type_id: None, result_id: Some(id), operands: vec![class, pointee] };
        assert(r.operands@ =~= seq![class, pointee]);
        r
    }

    pub fn variable(ty: u32, id: u32, class: u32) -> (r: Instruction)
        ensures
            r@ == variable_model(ty, id, class),
    {
        let r = Instruction { op: op_variable(), type_id: Some(ty), result_id: Some(id), operands: vec![class] };
        assert(r.operands@ =~= seq![class]);
        r
    }

    pub fn store(pointer: u32, value: u32) -> (r: Instruction)
        ensures
            r@ == store_model(pointer, value),
    {
        let r = Instruction { op: op_store(), type_id: None, result_id: None, operands: vec![pointer, value] };
        assert(r.operands@ =~= seq![pointer, value]);
        r
    }

    pub fn report_intersection(ty: u32, id: u32, hit: u32, hit_kind: u32) -> (r: Instruction)
        ensures
            r@ == report_intersection_model(ty, id, hit, hit_kind),
    {
        let r = Instruction {
            op: op_report_intersection(),
            type_id: Some(ty),
            result_id: Some(id),
            operands: vec![hit, hit_kind],
        };
        assert(r.operands@ =~= seq![hit, hit_kind]);
        r
    }
}

/// An ordered run of instructions: a function body, or a module's
/// declaration section. Order of appending is program order.
pub struct Block {
    pub body: Vec<Instruction>,
}

impl View for Block {
    type V = Seq<InstructionModel>;

    open spec fn view(&self) -> Seq<InstructionModel> {
        self.body@.map_values(|i: Instruction| i@)
    }
}

impl Block {
    pub fn new() -> (r: Block)
        ensures
            r@ == Seq::<InstructionModel>::empty(),
    {
        let r = Block { body: Vec::new() };
        assert(r@ =~= Seq::<InstructionModel>::empty());
        r
    }

    pub fn len(&self) -> (r: usize)
        ensures
            r == self@.len(),
    {
        self.body.len()
    }

    /// Appends one instruction after all earlier ones.
    pub fn push(&mut self, inst: Instruction)
        ensures
            final(self)@ == old(self)@.push(inst@),
    {
        self.body.push(inst);
        assert(self@ =~= old(self)@.push(inst@));
    }
}

} // verus!
