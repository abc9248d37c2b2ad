use ray_lowering::cache::Handle;
use ray_lowering::context::BlockContext;
use ray_lowering::instruction::{Block, Instruction};
use ray_lowering::ray::{LowerError, RayQueryFunction, RayTracingFunction};
use ray_lowering::types::{DeclKey, ScalarKind, TypeKey};

fn h(index: usize) -> Handle {
    Handle { index }
}

/// A context for eight expressions whose first `lowered` expressions already
/// have identifiers 1, 2, ...; the next free identifier follows them.
fn context_with(lowered: usize, ray_intersection: Option<u32>) -> BlockContext {
    let mut ctx = BlockContext::new(1, 8, ray_intersection);
    for i in 0..lowered {
        let id = ctx.gen_id();
        ctx.cached.insert(h(i), id);
    }
    ctx
}

fn ops(block: &Block) -> Vec<u32> {
    block.body.iter().map(|i| i.op).collect()
}

#[test]
fn trace_ray_scenario_operands() {
    // accel = 1, descriptor = 2, payload = 3; next free id is 4.
    // The descriptor stands for {flags=1, cull_mask=0xFF, t_min=0.001,
    // t_max=1000.0, origin=(0,0,0), direction=(0,0,-1)}.
    let _fields: (u32, u32, f32, f32, [f32; 3], [f32; 3]) = (1, 0xFF, 0.001, 1000.0, [0.0; 3], [0.0, 0.0, -1.0]);
    let mut ctx = context_with(3, None);
    let mut block = Block::new();
    let f = RayTracingFunction::TraceRay {
        acceleration_structure: h(0),
        descriptor: h(1),
        payload: h(2),
        payload_ty: 7,
    };
    assert_eq!(ctx.write_ray_tracing_function(&f, &mut block), Ok(()));
    assert_eq!(ops(&block), vec![81, 81, 81, 81, 81, 81, 63, 4445, 63]);
    let extracts: Vec<Vec<u32>> = block.body[..6].iter().map(|i| i.operands.clone()).collect();
    assert_eq!(
        extracts,
        vec![vec![2, 0], vec![2, 1], vec![2, 2], vec![2, 3], vec![2, 4], vec![2, 5]]
    );
    // payload type 4, pointer type 5, slot 6, u32 7, f32 8, vec3 9,
    // fields 10..=15, constant 0 is 16, constant 1 is 17.
    let slot = 6;
    let ids: Vec<u32> = block.body[..6].iter().map(|i| i.result_id.unwrap()).collect();
    assert_eq!(ids, vec![10, 11, 12, 13, 14, 15]);
    let (flags, mask, tmin, tmax, origin, dir) = (10, 11, 12, 13, 14, 15);
    assert_eq!(
        block.body[7].operands,
        vec![1, flags, mask, 16, 17, 16, origin, tmin, dir, tmax, slot]
    );
    assert_eq!(block.body[6].operands, vec![slot, 3]);
    assert_eq!(block.body[8].operands, vec![3, slot]);
    // the slot is a global variable in the ray payload storage class
    let decl = &ctx.declarations.body[0];
    assert_eq!((decl.op, decl.type_id, decl.result_id), (59, Some(5), Some(slot)));
    assert_eq!(decl.operands, vec![5338]);
}

#[test]
fn trace_ray_brackets_dispatch_with_one_copy_each() {
    let mut ctx = context_with(3, None);
    let mut block = Block::new();
    let f = RayTracingFunction::TraceRay {
        acceleration_structure: h(0),
        descriptor: h(1),
        payload: h(2),
        payload_ty: 0,
    };
    ctx.write_ray_tracing_function(&f, &mut block).unwrap();
    let trace = block.body.iter().position(|i| i.op == 4445).unwrap();
    let copies: Vec<usize> = (0..block.body.len()).filter(|&i| block.body[i].op == 63).collect();
    assert_eq!(copies, vec![trace - 1, trace + 1]);
    assert_eq!(block.body.iter().filter(|i| i.op == 4445).count(), 1);
}

#[test]
fn initialize_reads_descriptor_in_field_order() {
    // query = 1, accel = 2, descriptor = 3
    let mut ctx = context_with(3, None);
    let mut block = Block::new();
    let f = RayQueryFunction::Initialize { acceleration_structure: h(1), descriptor: h(2) };
    assert_eq!(ctx.write_ray_query_function(h(0), &f, &mut block), Ok(()));
    assert_eq!(ops(&block), vec![81, 81, 81, 81, 81, 81, 4473]);
    // u32 4, f32 5, vec3 6; fields 7..=12
    let tys: Vec<Option<u32>> = block.body[..6].iter().map(|i| i.type_id).collect();
    assert_eq!(tys, vec![Some(4), Some(4), Some(5), Some(5), Some(6), Some(6)]);
    let indices: Vec<u32> = block.body[..6].iter().map(|i| i.operands[1]).collect();
    assert_eq!(indices, vec![0, 1, 2, 3, 4, 5]);
    // query, accel, flags, mask, origin, t_min, dir, t_max
    assert_eq!(block.body[6].operands, vec![1, 2, 7, 8, 11, 9, 12, 10]);
    assert_eq!(block.body[6].result_id, None);
    assert_eq!(ctx.ids.peek(), 13);
}

#[test]
fn proceed_caches_boolean_result() {
    let mut ctx = context_with(1, None);
    let mut block = Block::new();
    let f = RayQueryFunction::Proceed { result: h(5) };
    assert_eq!(ctx.write_ray_query_function(h(0), &f, &mut block), Ok(()));
    assert_eq!(block.body.len(), 1);
    let inst = &block.body[0];
    // bool type 2, result 3
    assert_eq!((inst.op, inst.type_id, inst.result_id), (4477, Some(2), Some(3)));
    assert_eq!(inst.operands, vec![1]);
    assert_eq!(ctx.cached.get(h(5)), Some(3));
    assert_eq!(ctx.types.lookup(DeclKey::Type(TypeKey::Scalar(ScalarKind::Bool))), Some(2));
}

#[test]
fn proceed_without_cached_query_aborts_without_output() {
    let mut ctx = context_with(1, None);
    let mut block = Block::new();
    let f = RayQueryFunction::Proceed { result: h(5) };
    let before = ctx.ids.peek();
    assert_eq!(
        ctx.write_ray_query_function(h(3), &f, &mut block),
        Err(LowerError::MissingOperand(h(3)))
    );
    assert_eq!(block.body.len(), 0);
    assert_eq!(ctx.ids.peek(), before);
    assert_eq!(ctx.cached.get(h(5)), None);
    assert_eq!(ctx.types.len(), 0);
    // and again, the same way
    assert_eq!(
        ctx.write_ray_query_function(h(3), &f, &mut block),
        Err(LowerError::MissingOperand(h(3)))
    );
    assert_eq!(block.body.len(), 0);
}

#[test]
fn proceed_into_lowered_result_is_refused() {
    let mut ctx = context_with(2, None);
    let mut block = Block::new();
    let f = RayQueryFunction::Proceed { result: h(1) };
    assert_eq!(
        ctx.write_ray_query_function(h(0), &f, &mut block),
        Err(LowerError::ResultNotVacant(h(1)))
    );
    let out_of_arena = RayQueryFunction::Proceed { result: h(100) };
    assert_eq!(
        ctx.write_ray_query_function(h(0), &out_of_arena, &mut block),
        Err(LowerError::ResultNotVacant(h(100)))
    );
    assert_eq!(block.body.len(), 0);
}

#[test]
fn initialize_with_missing_descriptor_aborts() {
    let mut ctx = context_with(2, None);
    let mut block = Block::new();
    let f = RayQueryFunction::Initialize { acceleration_structure: h(1), descriptor: h(4) };
    assert_eq!(
        ctx.write_ray_query_function(h(0), &f, &mut block),
        Err(LowerError::MissingOperand(h(4)))
    );
    assert_eq!(block.body.len(), 0);
    assert_eq!(ctx.ids.peek(), 3);
}

#[test]
fn terminate_emits_nothing() {
    let mut ctx = context_with(1, None);
    let mut block = Block::new();
    assert_eq!(ctx.write_ray_query_function(h(0), &RayQueryFunction::Terminate, &mut block), Ok(()));
    assert_eq!(block.body.len(), 0);
    assert_eq!(ctx.ids.peek(), 2);
}

#[test]
fn get_intersection_reads_eleven_fields_in_order() {
    let mut ctx = context_with(1, Some(9));
    let mut block = Block::new();
    let id = ctx.write_ray_query_get_intersection(h(0), &mut block).unwrap();
    assert_eq!(
        ops(&block),
        vec![4479, 6018, 6019, 6020, 6021, 6022, 6023, 6024, 6025, 6031, 6032, 80]
    );
    // u32 2, f32 3, vec2 4, bool 5, mat4x3 6, composite 7, committed 8
    let tys: Vec<u32> = block.body[..11].iter().map(|i| i.type_id.unwrap()).collect();
    assert_eq!(tys, vec![2, 3, 2, 2, 2, 2, 2, 4, 5, 6, 6]);
    for inst in &block.body[..11] {
        assert_eq!(inst.operands, vec![1, 8]);
    }
    let results: Vec<u32> = block.body[..11].iter().map(|i| i.result_id.unwrap()).collect();
    assert_eq!(results, (9..20).collect::<Vec<u32>>());
    let construct = &block.body[11];
    assert_eq!(construct.operands, results);
    assert_eq!(construct.type_id, Some(7));
    assert_eq!(construct.result_id, Some(20));
    assert_eq!(id, 20);
    assert_eq!(ctx.types.lookup(DeclKey::ConstantU32(1)), Some(8));
}

#[test]
fn get_intersection_without_registered_type_aborts() {
    let mut ctx = context_with(1, None);
    let mut block = Block::new();
    assert_eq!(
        ctx.write_ray_query_get_intersection(h(0), &mut block),
        Err(LowerError::MissingRayIntersectionType)
    );
    assert_eq!(
        ctx.write_ray_query_get_intersection(h(3), &mut block),
        Err(LowerError::MissingOperand(h(3)))
    );
    assert_eq!(block.body.len(), 0);
}

#[test]
fn report_intersection_scenario() {
    // hit_t (0.5) = 1, hit_kind = 2, candidate intersection = 3
    let mut ctx = context_with(3, None);
    let mut block = Block::new();
    let f = RayTracingFunction::ReportIntersection {
        hit_t: h(0),
        hit_type: h(1),
        intersection: h(2),
        intersection_ty: TypeKey::Scalar(ScalarKind::F32),
        result: h(3),
    };
    let before = ctx.ids.peek();
    assert_eq!(ctx.write_ray_tracing_function(&f, &mut block), Ok(()));
    assert_eq!(ops(&block), vec![62, 5334]);
    // f32 4, bool 5, pointer type 6, variable 7, result 8
    assert_eq!(block.body[0].operands, vec![7, 3]);
    let report = &block.body[1];
    assert_eq!(report.operands, vec![1, 2]);
    assert_eq!(report.type_id, Some(5));
    let result = report.result_id.unwrap();
    assert_eq!(result, 8);
    assert!(result >= before);
    assert_eq!(ctx.cached.get(h(3)), Some(result));
    let decls = &ctx.declarations.body;
    assert_eq!(decls.len(), 2);
    assert_eq!((decls[0].op, decls[0].result_id), (32, Some(6)));
    assert_eq!(decls[0].operands, vec![5339, 4]);
    assert_eq!((decls[1].op, decls[1].type_id, decls[1].result_id), (59, Some(6), Some(7)));
    assert_eq!(decls[1].operands, vec![5339]);
}

#[test]
fn report_intersection_allocates_new_slot_per_call() {
    let mut ctx = context_with(3, None);
    let mut block = Block::new();
    for result in [3, 4] {
        let f = RayTracingFunction::ReportIntersection {
            hit_t: h(0),
            hit_type: h(1),
            intersection: h(2),
            intersection_ty: TypeKey::Scalar(ScalarKind::F32),
            result: h(result),
        };
        ctx.write_ray_tracing_function(&f, &mut block).unwrap();
    }
    assert_eq!(ctx.declarations.body.len(), 4);
    assert_ne!(ctx.declarations.body[1].result_id, ctx.declarations.body[3].result_id);
    assert_ne!(block.body[1].result_id, block.body[3].result_id);
    // types were interned once
    assert_eq!(ctx.types.len(), 2);
}

#[test]
fn report_intersection_missing_input_aborts() {
    let mut ctx = context_with(2, None);
    let mut block = Block::new();
    let f = RayTracingFunction::ReportIntersection {
        hit_t: h(0),
        hit_type: h(1),
        intersection: h(2),
        intersection_ty: TypeKey::Scalar(ScalarKind::F32),
        result: h(3),
    };
    assert_eq!(ctx.write_ray_tracing_function(&f, &mut block), Err(LowerError::MissingOperand(h(2))));
    assert_eq!(block.body.len(), 0);
    assert_eq!(ctx.declarations.body.len(), 0);
}

#[test]
fn interning_same_type_twice_gives_one_id() {
    let mut ctx = BlockContext::new(10, 0, None);
    let key = DeclKey::Type(TypeKey::Vector { size: 3, scalar: ScalarKind::F32 });
    let a = ctx.get_type_id(key);
    let b = ctx.get_type_id(key);
    assert_eq!(a, 10);
    assert_eq!(a, b);
    assert_eq!(ctx.types.len(), 1);
    assert_eq!(ctx.ids.peek(), 11);
    let other = ctx.get_type_id(DeclKey::Type(TypeKey::Vector { size: 2, scalar: ScalarKind::F32 }));
    assert_eq!(other, 11);
    assert_eq!(ctx.types.len(), 2);
}

#[test]
fn lowering_twice_gives_identical_words() {
    let run = || {
        let mut ctx = context_with(4, Some(3));
        let mut block = Block::new();
        let init = RayQueryFunction::Initialize { acceleration_structure: h(1), descriptor: h(2) };
        ctx.write_ray_query_function(h(0), &init, &mut block).unwrap();
        ctx.write_ray_query_function(h(0), &RayQueryFunction::Proceed { result: h(5) }, &mut block).unwrap();
        ctx.write_ray_query_get_intersection(h(0), &mut block).unwrap();
        let mut words = Vec::new();
        block.to_words(&mut words);
        words
    };
    let first = run();
    assert!(!first.is_empty());
    assert_eq!(first, run());
}

#[test]
fn instruction_words_layout() {
    let inst = Instruction::composite_extract(4, 7, 2, 5);
    let mut words = Vec::new();
    inst.to_words(&mut words);
    assert_eq!(words, vec![(5 << 16) | 81, 4, 7, 2, 5]);
    let copy = Instruction::copy(6, 3);
    let mut words = vec![99];
    copy.to_words(&mut words);
    assert_eq!(words, vec![99, (3 << 16) | 63, 6, 3]);
}

#[test]
fn instruction_opcodes() {
    assert_eq!(Instruction::composite_construct(1, 2, vec![3]).op, 80);
    assert_eq!(Instruction::ray_query_initialize(1, 2, 3, 4, 5, 6, 7, 8).op, 4473);
    assert_eq!(Instruction::ray_query_proceed(1, 2, 3).op, 4477);
    assert_eq!(Instruction::trace_ray(1, 2, 3, 4, 5, 6, 7, 8, 9, 10, 11).op, 4445);
    assert_eq!(Instruction::type_pointer(1, 2, 3).op, 32);
    assert_eq!(Instruction::variable(1, 2, 3).op, 59);
    assert_eq!(Instruction::store(1, 2).op, 62);
    assert_eq!(Instruction::report_intersection(1, 2, 3, 4).op, 5334);
}

#[test]
fn value_cache_single_assignment() {
    let mut ctx = BlockContext::new(1, 3, None);
    assert!(ctx.cached.is_vacant(h(2)));
    assert!(!ctx.cached.is_vacant(h(3)));
    ctx.cached.insert(h(2), 1);
    assert!(!ctx.cached.is_vacant(h(2)));
    assert_eq!(ctx.cached.get(h(2)), Some(1));
    assert_eq!(ctx.cached.get(h(0)), None);
    assert_eq!(ctx.cached.len(), 3);
}
