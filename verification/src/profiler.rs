//! Event counters and hot guest page tracing.
//!
//! The counters say what happened - jit compilations, tlb misses, page faults, how often each
//! path ran - but not what it cost. The hot page table says which guest code the time goes into,
//! per 4 KiB page and ring, and whether that code ran compiled or interpreted. Aggregating per page
//! rather than per instruction is what keeps it cheap enough to leave enabled.
//!
//! Everything here does nothing unless the profiler is enabled, which a build decides once.

use vstd::prelude::*;
use std::collections::HashMap;
use vstd::std_specs::hash::spec_hash_map_iter;
use vstd::std_specs::iter::IteratorSpec;

verus! {

broadcast use vstd::std_specs::hash::group_hash_axioms;

/// The events the profiler counts.
#[allow(non_camel_case_types)]
#[derive(Clone, Copy)]
pub enum stat {
    COMPILE,
    COMPILE_SKIPPED_NO_NEW_ENTRY_POINTS,
    COMPILE_WRONG_ADDRESS_SPACE,
    COMPILE_CUT_OFF_AT_END_OF_PAGE,
    COMPILE_WITH_LOOP_SAFETY,
    COMPILE_PAGE,
    COMPILE_BASIC_BLOCK,
    COMPILE_DUPLICATED_BASIC_BLOCK,
    COMPILE_WASM_BLOCK,
    COMPILE_WASM_LOOP,
    COMPILE_DISPATCHER,
    COMPILE_ENTRY_POINT,
    COMPILE_WASM_TOTAL_BYTES,
    RUN_INTERPRETED,
    RUN_INTERPRETED_NEW_PAGE,
    RUN_INTERPRETED_PAGE_HAS_CODE,
    RUN_INTERPRETED_PAGE_HAS_ENTRY_AFTER_PAGE_WALK,
    RUN_INTERPRETED_NEAR_END_OF_PAGE,
    RUN_INTERPRETED_DIFFERENT_STATE,
    RUN_INTERPRETED_DIFFERENT_STATE_CPL3,
    RUN_INTERPRETED_DIFFERENT_STATE_FLAT,
    RUN_INTERPRETED_DIFFERENT_STATE_IS32,
    RUN_INTERPRETED_DIFFERENT_STATE_SS32,
    RUN_INTERPRETED_MISSED_COMPILED_ENTRY_RUN_INTERPRETED,
    RUN_INTERPRETED_STEPS,
    RUN_FROM_CACHE,
    RUN_FROM_CACHE_STEPS,
    DIRECT_EXIT,
    INDIRECT_JUMP,
    INDIRECT_JUMP_NO_ENTRY,
    NORMAL_PAGE_CHANGE,
    NORMAL_FALLTHRU,
    NORMAL_FALLTHRU_WITH_TARGET_BLOCK,
    NORMAL_BRANCH,
    NORMAL_BRANCH_WITH_TARGET_BLOCK,
    CONDITIONAL_JUMP,
    CONDITIONAL_JUMP_PAGE_CHANGE,
    CONDITIONAL_JUMP_EXIT,
    CONDITIONAL_JUMP_FALLTHRU,
    CONDITIONAL_JUMP_FALLTHRU_WITH_TARGET_BLOCK,
    CONDITIONAL_JUMP_BRANCH,
    CONDITIONAL_JUMP_BRANCH_WITH_TARGET_BLOCK,
    DISPATCHER_SMALL,
    DISPATCHER_LARGE,
    LOOP,
    LOOP_SAFETY,
    CONDITION_OPTIMISED,
    CONDITION_UNOPTIMISED,
    CONDITION_UNOPTIMISED_PF,
    CONDITION_UNOPTIMISED_UNHANDLED_L,
    CONDITION_UNOPTIMISED_UNHANDLED_LE,
    FAILED_PAGE_CHANGE,
    SAFE_READ_FAST,
    SAFE_READ_SLOW_PAGE_CROSSED,
    SAFE_READ_SLOW_NOT_VALID,
    SAFE_READ_SLOW_NOT_USER,
    SAFE_READ_SLOW_IN_MAPPED_RANGE,
    SAFE_WRITE_FAST,
    SAFE_WRITE_SLOW_PAGE_CROSSED,
    SAFE_WRITE_SLOW_NOT_VALID,
    SAFE_WRITE_SLOW_NOT_USER,
    SAFE_WRITE_SLOW_IN_MAPPED_RANGE,
    SAFE_WRITE_SLOW_READ_ONLY,
    SAFE_WRITE_SLOW_HAS_CODE,
    SAFE_READ_WRITE_FAST,
    SAFE_READ_WRITE_SLOW_PAGE_CROSSED,
    SAFE_READ_WRITE_SLOW_NOT_VALID,
    SAFE_READ_WRITE_SLOW_NOT_USER,
    SAFE_READ_WRITE_SLOW_IN_MAPPED_RANGE,
    SAFE_READ_WRITE_SLOW_READ_ONLY,
    SAFE_READ_WRITE_SLOW_HAS_CODE,
    PAGE_FAULT,
    TLB_MISS,
    MAIN_LOOP,
    MAIN_LOOP_IDLE,
    DO_MANY_CYCLES,
    CYCLE_INTERNAL,
    INVALIDATE_ALL_MODULES_NO_FREE_WASM_INDICES,
    INVALIDATE_MODULE_WRITTEN_WHILE_COMPILED,
    INVALIDATE_MODULE_UNUSED_AFTER_OVERWRITE,
    INVALIDATE_MODULE_DIRTY_PAGE,
    INVALIDATE_PAGE_HAD_CODE,
    INVALIDATE_PAGE_HAD_ENTRY_POINTS,
    DIRTY_PAGE_DID_NOT_HAVE_CODE,
    RUN_FROM_CACHE_EXIT_SAME_PAGE,
    RUN_FROM_CACHE_EXIT_NEAR_END_OF_PAGE,
    RUN_FROM_CACHE_EXIT_DIFFERENT_PAGE,
    CLEAR_TLB,
    FULL_CLEAR_TLB,
    TLB_FULL,
    TLB_GLOBAL_FULL,
    MODRM_SIMPLE_REG,
    MODRM_SIMPLE_REG_WITH_OFFSET,
    MODRM_SIMPLE_CONST_OFFSET,
    MODRM_COMPLEX,
    SEG_OFFSET_OPTIMISED,
    SEG_OFFSET_NOT_OPTIMISED,
    SEG_OFFSET_NOT_OPTIMISED_ES,
    SEG_OFFSET_NOT_OPTIMISED_FS,
    SEG_OFFSET_NOT_OPTIMISED_GS,
    SEG_OFFSET_NOT_OPTIMISED_NOT_FLAT,
}

/// The number of counter slots.
pub const STAT_ARRAY_LEN: usize = 500;

/// The slot of the counter for an event: its position in the list of events.
pub open spec fn stat_slot(s: stat) -> nat {
    match s {
        stat::COMPILE => 0,
        stat::COMPILE_SKIPPED_NO_NEW_ENTRY_POINTS => 1,
        stat::COMPILE_WRONG_ADDRESS_SPACE => 2,
        stat::COMPILE_CUT_OFF_AT_END_OF_PAGE => 3,
        stat::COMPILE_WITH_LOOP_SAFETY => 4,
        stat::COMPILE_PAGE => 5,
        stat::COMPILE_BASIC_BLOCK => 6,
        stat::COMPILE_DUPLICATED_BASIC_BLOCK => 7,
        stat::COMPILE_WASM_BLOCK => 8,
        stat::COMPILE_WASM_LOOP => 9,
        stat::COMPILE_DISPATCHER => 10,
        stat::COMPILE_ENTRY_POINT => 11,
        stat::COMPILE_WASM_TOTAL_BYTES => 12,
        stat::RUN_INTERPRETED => 13,
        stat::RUN_INTERPRETED_NEW_PAGE => 14,
        stat::RUN_INTERPRETED_PAGE_HAS_CODE => 15,
        stat::RUN_INTERPRETED_PAGE_HAS_ENTRY_AFTER_PAGE_WALK => 16,
        stat::RUN_INTERPRETED_NEAR_END_OF_PAGE => 17,
        stat::RUN_INTERPRETED_DIFFERENT_STATE => 18,
        stat::RUN_INTERPRETED_DIFFERENT_STATE_CPL3 => 19,
        stat::RUN_INTERPRETED_DIFFERENT_STATE_FLAT => 20,
        stat::RUN_INTERPRETED_DIFFERENT_STATE_IS32 => 21,
        stat::RUN_INTERPRETED_DIFFERENT_STATE_SS32 => 22,
        stat::RUN_INTERPRETED_MISSED_COMPILED_ENTRY_RUN_INTERPRETED => 23,
        stat::RUN_INTERPRETED_STEPS => 24,
        stat::RUN_FROM_CACHE => 25,
        stat::RUN_FROM_CACHE_STEPS => 26,
        stat::DIRECT_EXIT => 27,
        stat::INDIRECT_JUMP => 28,
        stat::INDIRECT_JUMP_NO_ENTRY => 29,
        stat::NORMAL_PAGE_CHANGE => 30,
        stat::NORMAL_FALLTHRU => 31,
        stat::NORMAL_FALLTHRU_WITH_TARGET_BLOCK => 32,
        stat::NORMAL_BRANCH => 33,
        stat::NORMAL_BRANCH_WITH_TARGET_BLOCK => 34,
        stat::CONDITIONAL_JUMP => 35,
        stat::CONDITIONAL_JUMP_PAGE_CHANGE => 36,
        stat::CONDITIONAL_JUMP_EXIT => 37,
        stat::CONDITIONAL_JUMP_FALLTHRU => 38,
        stat::CONDITIONAL_JUMP_FALLTHRU_WITH_TARGET_BLOCK => 39,
        stat::CONDITIONAL_JUMP_BRANCH => 40,
        stat::CONDITIONAL_JUMP_BRANCH_WITH_TARGET_BLOCK => 41,
        stat::DISPATCHER_SMALL => 42,
        stat::DISPATCHER_LARGE => 43,
        stat::LOOP => 44,
        stat::LOOP_SAFETY => 45,
        stat::CONDITION_OPTIMISED => 46,
        stat::CONDITION_UNOPTIMISED => 47,
        stat::CONDITION_UNOPTIMISED_PF => 48,
        stat::CONDITION_UNOPTIMISED_UNHANDLED_L => 49,
        stat::CONDITION_UNOPTIMISED_UNHANDLED_LE => 50,
        stat::FAILED_PAGE_CHANGE => 51,
        stat::SAFE_READ_FAST => 52,
        stat::SAFE_READ_SLOW_PAGE_CROSSED => 53,
        stat::SAFE_READ_SLOW_NOT_VALID => 54,
        stat::SAFE_READ_SLOW_NOT_USER => 55,
        stat::SAFE_READ_SLOW_IN_MAPPED_RANGE => 56,
        stat::SAFE_WRITE_FAST => 57,
        stat::SAFE_WRITE_SLOW_PAGE_CROSSED => 58,
        stat::SAFE_WRITE_SLOW_NOT_VALID => 59,
        stat::SAFE_WRITE_SLOW_NOT_USER => 60,
        stat::SAFE_WRITE_SLOW_IN_MAPPED_RANGE => 61,
        stat::SAFE_WRITE_SLOW_READ_ONLY => 62,
        stat::SAFE_WRITE_SLOW_HAS_CODE => 63,
        stat::SAFE_READ_WRITE_FAST => 64,
        stat::SAFE_READ_WRITE_SLOW_PAGE_CROSSED => 65,
        stat::SAFE_READ_WRITE_SLOW_NOT_VALID => 66,
        stat::SAFE_READ_WRITE_SLOW_NOT_USER => 67,
        stat::SAFE_READ_WRITE_SLOW_IN_MAPPED_RANGE => 68,
        stat::SAFE_READ_WRITE_SLOW_READ_ONLY => 69,
        stat::SAFE_READ_WRITE_SLOW_HAS_CODE => 70,
        stat::PAGE_FAULT => 71,
        stat::TLB_MISS => 72,
        stat::MAIN_LOOP => 73,
        stat::MAIN_LOOP_IDLE => 74,
        stat::DO_MANY_CYCLES => 75,
        stat::CYCLE_INTERNAL => 76,
        stat::INVALIDATE_ALL_MODULES_NO_FREE_WASM_INDICES => 77,
        stat::INVALIDATE_MODULE_WRITTEN_WHILE_COMPILED => 78,
        stat::INVALIDATE_MODULE_UNUSED_AFTER_OVERWRITE => 79,
        stat::INVALIDATE_MODULE_DIRTY_PAGE => 80,
        stat::INVALIDATE_PAGE_HAD_CODE => 81,
        stat::INVALIDATE_PAGE_HAD_ENTRY_POINTS => 82,
        stat::DIRTY_PAGE_DID_NOT_HAVE_CODE => 83,
        stat::RUN_FROM_CACHE_EXIT_SAME_PAGE => 84,
        stat::RUN_FROM_CACHE_EXIT_NEAR_END_OF_PAGE => 85,
        stat::RUN_FROM_CACHE_EXIT_DIFFERENT_PAGE => 86,
        stat::CLEAR_TLB => 87,
        stat::FULL_CLEAR_TLB => 88,
        stat::TLB_FULL => 89,
        stat::TLB_GLOBAL_FULL => 90,
        stat::MODRM_SIMPLE_REG => 91,
        stat::MODRM_SIMPLE_REG_WITH_OFFSET => 92,
        stat::MODRM_SIMPLE_CONST_OFFSET => 93,
        stat::MODRM_COMPLEX => 94,
        stat::SEG_OFFSET_OPTIMISED => 95,
        stat::SEG_OFFSET_NOT_OPTIMISED => 96,
        stat::SEG_OFFSET_NOT_OPTIMISED_ES => 97,
        stat::SEG_OFFSET_NOT_OPTIMISED_FS => 98,
        stat::SEG_OFFSET_NOT_OPTIMISED_GS => 99,
        stat::SEG_OFFSET_NOT_OPTIMISED_NOT_FLAT => 100,
    }
}

/// The event whose counter sits in a slot: the inverse of `stat_slot`.
pub open spec fn slot_stat(n: nat) -> stat {
    if n == 0 {
        stat::COMPILE
    } else if n == 1 {
        stat::COMPILE_SKIPPED_NO_NEW_ENTRY_POINTS
    } else if n == 2 {
        stat::COMPILE_WRONG_ADDRESS_SPACE
    } else if n == 3 {
        stat::COMPILE_CUT_OFF_AT_END_OF_PAGE
    } else if n == 4 {
        stat::COMPILE_WITH_LOOP_SAFETY
    } else if n == 5 {
        stat::COMPILE_PAGE
    } else if n == 6 {
        stat::COMPILE_BASIC_BLOCK
    } else if n == 7 {
        stat::COMPILE_DUPLICATED_BASIC_BLOCK
    } else if n == 8 {
        stat::COMPILE_WASM_BLOCK
    } else if n == 9 {
        stat::COMPILE_WASM_LOOP
    } else if n == 10 {
        stat::COMPILE_DISPATCHER
    } else if n == 11 {
        stat::COMPILE_ENTRY_POINT
    } else if n == 12 {
        stat::COMPILE_WASM_TOTAL_BYTES
    } else if n == 13 {
        stat::RUN_INTERPRETED
    } else if n == 14 {
        stat::RUN_INTERPRETED_NEW_PAGE
    } else if n == 15 {
        stat::RUN_INTERPRETED_PAGE_HAS_CODE
    } else if n == 16 {
        stat::RUN_INTERPRETED_PAGE_HAS_ENTRY_AFTER_PAGE_WALK
    } else if n == 17 {
        stat::RUN_INTERPRETED_NEAR_END_OF_PAGE
    } else if n == 18 {
        stat::RUN_INTERPRETED_DIFFERENT_STATE
    } else if n == 19 {
        stat::RUN_INTERPRETED_DIFFERENT_STATE_CPL3
    } else if n == 20 {
        stat::RUN_INTERPRETED_DIFFERENT_STATE_FLAT
    } else if n == 21 {
        stat::RUN_INTERPRETED_DIFFERENT_STATE_IS32
    } else if n == 22 {
        stat::RUN_INTERPRETED_DIFFERENT_STATE_SS32
    } else if n == 23 {
        stat::RUN_INTERPRETED_MISSED_COMPILED_ENTRY_RUN_INTERPRETED
    } else if n == 24 {
        stat::RUN_INTERPRETED_STEPS
    } else if n == 25 {
        stat::RUN_FROM_CACHE
    } else if n == 26 {
        stat::RUN_FROM_CACHE_STEPS
    } else if n == 27 {
        stat::DIRECT_EXIT
    } else if n == 28 {
        stat::INDIRECT_JUMP
    } else if n == 29 {
        stat::INDIRECT_JUMP_NO_ENTRY
    } else if n == 30 {
        stat::NORMAL_PAGE_CHANGE
    } else if n == 31 {
        stat::NORMAL_FALLTHRU
    } else if n == 32 {
        stat::NORMAL_FALLTHRU_WITH_TARGET_BLOCK
    } else if n == 33 {
        stat::NORMAL_BRANCH
    } else if n == 34 {
        stat::NORMAL_BRANCH_WITH_TARGET_BLOCK
    } else if n == 35 {
        stat::CONDITIONAL_JUMP
    } else if n == 36 {
        stat::CONDITIONAL_JUMP_PAGE_CHANGE
    } else if n == 37 {
        stat::CONDITIONAL_JUMP_EXIT
    } else if n == 38 {
        stat::CONDITIONAL_JUMP_FALLTHRU
    } else if n == 39 {
        stat::CONDITIONAL_JUMP_FALLTHRU_WITH_TARGET_BLOCK
    } else if n == 40 {
        stat::CONDITIONAL_JUMP_BRANCH
    } else if n == 41 {
        stat::CONDITIONAL_JUMP_BRANCH_WITH_TARGET_BLOCK
    } else if n == 42 {
        stat::DISPATCHER_SMALL
    } else if n == 43 {
        stat::DISPATCHER_LARGE
    } else if n == 44 {
        stat::LOOP
    } else if n == 45 {
        stat::LOOP_SAFETY
    } else if n == 46 {
        stat::CONDITION_OPTIMISED
    } else if n == 47 {
        stat::CONDITION_UNOPTIMISED
    } else if n == 48 {
        stat::CONDITION_UNOPTIMISED_PF
    } else if n == 49 {
        stat::CONDITION_UNOPTIMISED_UNHANDLED_L
    } else if n == 50 {
        stat::CONDITION_UNOPTIMISED_UNHANDLED_LE
    } else if n == 51 {
        stat::FAILED_PAGE_CHANGE
    } else if n == 52 {
        stat::SAFE_READ_FAST
    } else if n == 53 {
        stat::SAFE_READ_SLOW_PAGE_CROSSED
    } else if n == 54 {
        stat::SAFE_READ_SLOW_NOT_VALID
    } else if n == 55 {
        stat::SAFE_READ_SLOW_NOT_USER
    } else if n == 56 {
        stat::SAFE_READ_SLOW_IN_MAPPED_RANGE
    } else if n == 57 {
        stat::SAFE_WRITE_FAST
    } else if n == 58 {
        stat::SAFE_WRITE_SLOW_PAGE_CROSSED
    } else if n == 59 {
        stat::SAFE_WRITE_SLOW_NOT_VALID
    } else if n == 60 {
        stat::SAFE_WRITE_SLOW_NOT_USER
    } else if n == 61 {
        stat::SAFE_WRITE_SLOW_IN_MAPPED_RANGE
    } else if n == 62 {
        stat::SAFE_WRITE_SLOW_READ_ONLY
    } else if n == 63 {
        stat::SAFE_WRITE_SLOW_HAS_CODE
    } else if n == 64 {
        stat::SAFE_READ_WRITE_FAST
    } else if n == 65 {
        stat::SAFE_READ_WRITE_SLOW_PAGE_CROSSED
    } else if n == 66 {
        stat::SAFE_READ_WRITE_SLOW_NOT_VALID
    } else if n == 67 {
        stat::SAFE_READ_WRITE_SLOW_NOT_USER
    } else if n == 68 {
        stat::SAFE_READ_WRITE_SLOW_IN_MAPPED_RANGE
    } else if n == 69 {
        stat::SAFE_READ_WRITE_SLOW_READ_ONLY
    } else if n == 70 {
        stat::SAFE_READ_WRITE_SLOW_HAS_CODE
    } else if n == 71 {
        stat::PAGE_FAULT
    } else if n == 72 {
        stat::TLB_MISS
    } else if n == 73 {
        stat::MAIN_LOOP
    } else if n == 74 {
        stat::MAIN_LOOP_IDLE
    } else if n == 75 {
        stat::DO_MANY_CYCLES
    } else if n == 76 {
        stat::CYCLE_INTERNAL
    } else if n == 77 {
        stat::INVALIDATE_ALL_MODULES_NO_FREE_WASM_INDICES
    } else if n == 78 {
        stat::INVALIDATE_MODULE_WRITTEN_WHILE_COMPILED
    } else if n == 79 {
        stat::INVALIDATE_MODULE_UNUSED_AFTER_OVERWRITE
    } else if n == 80 {
        stat::INVALIDATE_MODULE_DIRTY_PAGE
    } else if n == 81 {
        stat::INVALIDATE_PAGE_HAD_CODE
    } else if n == 82 {
        stat::INVALIDATE_PAGE_HAD_ENTRY_POINTS
    } else if n == 83 {
        stat::DIRTY_PAGE_DID_NOT_HAVE_CODE
    } else if n == 84 {
        stat::RUN_FROM_CACHE_EXIT_SAME_PAGE
    } else if n == 85 {
        stat::RUN_FROM_CACHE_EXIT_NEAR_END_OF_PAGE
    } else if n == 86 {
        stat::RUN_FROM_CACHE_EXIT_DIFFERENT_PAGE
    } else if n == 87 {
        stat::CLEAR_TLB
    } else if n == 88 {
        stat::FULL_CLEAR_TLB
    } else if n == 89 {
        stat::TLB_FULL
    } else if n == 90 {
        stat::TLB_GLOBAL_FULL
    } else if n == 91 {
        stat::MODRM_SIMPLE_REG
    } else if n == 92 {
        stat::MODRM_SIMPLE_REG_WITH_OFFSET
    } else if n == 93 {
        stat::MODRM_SIMPLE_CONST_OFFSET
    } else if n == 94 {
        stat::MODRM_COMPLEX
    } else if n == 95 {
        stat::SEG_OFFSET_OPTIMISED
    } else if n == 96 {
        stat::SEG_OFFSET_NOT_OPTIMISED
    } else if n == 97 {
        stat::SEG_OFFSET_NOT_OPTIMISED_ES
    } else if n == 98 {
        stat::SEG_OFFSET_NOT_OPTIMISED_FS
    } else if n == 99 {
        stat::SEG_OFFSET_NOT_OPTIMISED_GS
    } else if n == 100 {
        stat::SEG_OFFSET_NOT_OPTIMISED_NOT_FLAT
    } else {
        stat::COMPILE
    }
}

/// Every event has a slot of its own.
pub proof fn lemma_stat_slot_injective(s: stat)
    ensures
        slot_stat(stat_slot(s)) == s,
        stat_slot(s) < STAT_ARRAY_LEN,
{
}


/// The slot of the counter for an event.
pub fn stat_index(s: stat) -> (r: usize)
    ensures
        r == stat_slot(s),
        r < STAT_ARRAY_LEN,
{
    match s {
        stat::COMPILE => 0,
        stat::COMPILE_SKIPPED_NO_NEW_ENTRY_POINTS => 1,
        stat::COMPILE_WRONG_ADDRESS_SPACE => 2,
        stat::COMPILE_CUT_OFF_AT_END_OF_PAGE => 3,
        stat::COMPILE_WITH_LOOP_SAFETY => 4,
        stat::COMPILE_PAGE => 5,
        stat::COMPILE_BASIC_BLOCK => 6,
        stat::COMPILE_DUPLICATED_BASIC_BLOCK => 7,
        stat::COMPILE_WASM_BLOCK => 8,
        stat::COMPILE_WASM_LOOP => 9,
        stat::COMPILE_DISPATCHER => 10,
        stat::COMPILE_ENTRY_POINT => 11,
        stat::COMPILE_WASM_TOTAL_BYTES => 12,
        stat::RUN_INTERPRETED => 13,
        stat::RUN_INTERPRETED_NEW_PAGE => 14,
        stat::RUN_INTERPRETED_PAGE_HAS_CODE => 15,
        stat::RUN_INTERPRETED_PAGE_HAS_ENTRY_AFTER_PAGE_WALK => 16,
        stat::RUN_INTERPRETED_NEAR_END_OF_PAGE => 17,
        stat::RUN_INTERPRETED_DIFFERENT_STATE => 18,
        stat::RUN_INTERPRETED_DIFFERENT_STATE_CPL3 => 19,
        stat::RUN_INTERPRETED_DIFFERENT_STATE_FLAT => 20,
        stat::RUN_INTERPRETED_DIFFERENT_STATE_IS32 => 21,
        stat::RUN_INTERPRETED_DIFFERENT_STATE_SS32 => 22,
        stat::RUN_INTERPRETED_MISSED_COMPILED_ENTRY_RUN_INTERPRETED => 23,
        stat::RUN_INTERPRETED_STEPS => 24,
        stat::RUN_FROM_CACHE => 25,
        stat::RUN_FROM_CACHE_STEPS => 26,
        stat::DIRECT_EXIT => 27,
        stat::INDIRECT_JUMP => 28,
        stat::INDIRECT_JUMP_NO_ENTRY => 29,
        stat::NORMAL_PAGE_CHANGE => 30,
        stat::NORMAL_FALLTHRU => 31,
        stat::NORMAL_FALLTHRU_WITH_TARGET_BLOCK => 32,
        stat::NORMAL_BRANCH => 33,
        stat::NORMAL_BRANCH_WITH_TARGET_BLOCK => 34,
        stat::CONDITIONAL_JUMP => 35,
        stat::CONDITIONAL_JUMP_PAGE_CHANGE => 36,
        stat::CONDITIONAL_JUMP_EXIT => 37,
        stat::CONDITIONAL_JUMP_FALLTHRU => 38,
        stat::CONDITIONAL_JUMP_FALLTHRU_WITH_TARGET_BLOCK => 39,
        stat::CONDITIONAL_JUMP_BRANCH => 40,
        stat::CONDITIONAL_JUMP_BRANCH_WITH_TARGET_BLOCK => 41,
        stat::DISPATCHER_SMALL => 42,
        stat::DISPATCHER_LARGE => 43,
        stat::LOOP => 44,
        stat::LOOP_SAFETY => 45,
        stat::CONDITION_OPTIMISED => 46,
        stat::CONDITION_UNOPTIMISED => 47,
        stat::CONDITION_UNOPTIMISED_PF => 48,
        stat::CONDITION_UNOPTIMISED_UNHANDLED_L => 49,
        stat::CONDITION_UNOPTIMISED_UNHANDLED_LE => 50,
        stat::FAILED_PAGE_CHANGE => 51,
        stat::SAFE_READ_FAST => 52,
        stat::SAFE_READ_SLOW_PAGE_CROSSED => 53,
        stat::SAFE_READ_SLOW_NOT_VALID => 54,
        stat::SAFE_READ_SLOW_NOT_USER => 55,
        stat::SAFE_READ_SLOW_IN_MAPPED_RANGE => 56,
        stat::SAFE_WRITE_FAST => 57,
        stat::SAFE_WRITE_SLOW_PAGE_CROSSED => 58,
        stat::SAFE_WRITE_SLOW_NOT_VALID => 59,
        stat::SAFE_WRITE_SLOW_NOT_USER => 60,
        stat::SAFE_WRITE_SLOW_IN_MAPPED_RANGE => 61,
        stat::SAFE_WRITE_SLOW_READ_ONLY => 62,
        stat::SAFE_WRITE_SLOW_HAS_CODE => 63,
        stat::SAFE_READ_WRITE_FAST => 64,
        stat::SAFE_READ_WRITE_SLOW_PAGE_CROSSED => 65,
        stat::SAFE_READ_WRITE_SLOW_NOT_VALID => 66,
        stat::SAFE_READ_WRITE_SLOW_NOT_USER => 67,
        stat::SAFE_READ_WRITE_SLOW_IN_MAPPED_RANGE => 68,
        stat::SAFE_READ_WRITE_SLOW_READ_ONLY => 69,
        stat::SAFE_READ_WRITE_SLOW_HAS_CODE => 70,
        stat::PAGE_FAULT => 71,
        stat::TLB_MISS => 72,
        stat::MAIN_LOOP => 73,
        stat::MAIN_LOOP_IDLE => 74,
        stat::DO_MANY_CYCLES => 75,
        stat::CYCLE_INTERNAL => 76,
        stat::INVALIDATE_ALL_MODULES_NO_FREE_WASM_INDICES => 77,
        stat::INVALIDATE_MODULE_WRITTEN_WHILE_COMPILED => 78,
        stat::INVALIDATE_MODULE_UNUSED_AFTER_OVERWRITE => 79,
        stat::INVALIDATE_MODULE_DIRTY_PAGE => 80,
        stat::INVALIDATE_PAGE_HAD_CODE => 81,
        stat::INVALIDATE_PAGE_HAD_ENTRY_POINTS => 82,
        stat::DIRTY_PAGE_DID_NOT_HAVE_CODE => 83,
        stat::RUN_FROM_CACHE_EXIT_SAME_PAGE => 84,
        stat::RUN_FROM_CACHE_EXIT_NEAR_END_OF_PAGE => 85,
        stat::RUN_FROM_CACHE_EXIT_DIFFERENT_PAGE => 86,
        stat::CLEAR_TLB => 87,
        stat::FULL_CLEAR_TLB => 88,
        stat::TLB_FULL => 89,
        stat::TLB_GLOBAL_FULL => 90,
        stat::MODRM_SIMPLE_REG => 91,
        stat::MODRM_SIMPLE_REG_WITH_OFFSET => 92,
        stat::MODRM_SIMPLE_CONST_OFFSET => 93,
        stat::MODRM_COMPLEX => 94,
        stat::SEG_OFFSET_OPTIMISED => 95,
        stat::SEG_OFFSET_NOT_OPTIMISED => 96,
        stat::SEG_OFFSET_NOT_OPTIMISED_ES => 97,
        stat::SEG_OFFSET_NOT_OPTIMISED_FS => 98,
        stat::SEG_OFFSET_NOT_OPTIMISED_GS => 99,
        stat::SEG_OFFSET_NOT_OPTIMISED_NOT_FLAT => 100,
    }
}

/// The timers the profiler keeps. `LAST` is their number rather than a timer.
#[allow(non_camel_case_types)]
#[derive(Clone, Copy)]
pub enum timer {
    MAIN_LOOP,
    IDLE,
    COMPILE,
    LAST,
}

/// The slot of a timer.
pub open spec fn timer_slot(t: timer) -> nat {
    match t {
        timer::MAIN_LOOP => 0,
        timer::IDLE => 1,
        timer::COMPILE => 2,
        timer::LAST => 3,
    }
}

/// The number of timers.
pub const TIMER_COUNT: u32 = 3;

/// The slot of a timer.
pub fn timer_index(t: timer) -> (r: usize)
    ensures
        r == timer_slot(t),
{
    match t {
        timer::MAIN_LOOP => 0,
        timer::IDLE => 1,
        timer::COMPILE => 2,
        timer::LAST => 3,
    }
}

/// How much of the guest's time is spent in one page of its code, and whether that time is spent
/// in compiled code or in the interpreter.
#[derive(Clone)]
pub struct HotPage {
    pub entries: u64,
    pub compiled_steps: u64,
    pub interpreted_steps: u64,
}

impl Default for HotPage {
    fn default() -> (r: Self)
        ensures
            r.entries == 0,
            r.compiled_steps == 0,
            r.interpreted_steps == 0,
    {
        HotPage { entries: 0, compiled_steps: 0, interpreted_steps: 0 }
    }
}

/// The steps a page has run, compiled and interpreted together.
pub open spec fn total_steps(p: HotPage) -> int {
    p.compiled_steps + p.interpreted_steps
}

/// The key a page is recorded under: the guest virtual page number shifted up by one, with bit 0
/// holding cpl3, so that kernel and user code at the same address stay distinguishable.
pub open spec fn page_key(page: u32, cpl3: bool) -> u32 {
    (page << 1u32) | (if cpl3 {
        1u32
    } else {
        0u32
    })
}

/// A page's counters after one more block has run in it.
pub open spec fn page_after_block(old: Option<HotPage>, steps: u64, compiled: bool) -> HotPage {
    let p = match old {
        Some(p) => p,
        None => HotPage { entries: 0, compiled_steps: 0, interpreted_steps: 0 },
    };
    HotPage {
        entries: (p.entries + 1) as u64,
        compiled_steps: if compiled {
            (p.compiled_steps + steps) as u64
        } else {
            p.compiled_steps
        },
        interpreted_steps: if compiled {
            p.interpreted_steps
        } else {
            (p.interpreted_steps + steps) as u64
        },
    }
}

/// A listing of the pages in `m`: each entry once, nothing else.
pub open spec fn lists_pages(m: Map<u32, HotPage>, s: Seq<(u32, HotPage)>) -> bool {
    &&& s.no_duplicates()
    &&& s.to_set() == m.kv_pairs()
    &&& s.len() == m.dom().len()
}

/// Pages in order of the steps run in them, the hottest first.
pub open spec fn hottest_first(s: Seq<(u32, HotPage)>) -> bool {
    forall|i: int, j: int| 0 <= i <= j < s.len() ==> total_steps(#[trigger] s[i].1) >= total_steps(
        #[trigger] s[j].1,
    )
}

/// The state of the profiler: whether it is enabled, the event counters, the hot page table, and
/// the sorted snapshot of that table which is read out one field at a time.
pub struct Profiler {
    pub enabled: bool,
    pub stat_array: Vec<u64>,
    pub hot_pages: HashMap<u32, HotPage>,
    pub hot_pages_sorted: Vec<(u32, HotPage)>,
}

impl Profiler {
    /// There is a counter for every slot.
    pub open spec fn wf(&self) -> bool {
        self.stat_array@.len() == STAT_ARRAY_LEN
    }

    /// A profiler with every counter at zero and no pages recorded.
    pub fn new(enabled: bool) -> (r: Self)
        ensures
            r.wf(),
            r.enabled == enabled,
            forall|i: int| 0 <= i < STAT_ARRAY_LEN ==> r.stat_array@[i] == 0,
            r.hot_pages@ == Map::<u32, HotPage>::empty(),
            r.hot_pages_sorted@.len() == 0,
    {
        let mut stat_array: Vec<u64> = Vec::new();
        while stat_array.len() < STAT_ARRAY_LEN
            invariant
                stat_array@.len() <= STAT_ARRAY_LEN,
                forall|i: int| 0 <= i < stat_array@.len() ==> stat_array@[i] == 0,
            decreases STAT_ARRAY_LEN - stat_array@.len(),
        {
            stat_array.push(0);
        }
        Profiler { enabled, stat_array, hot_pages: HashMap::new(), hot_pages_sorted: Vec::new() }
    }
}

/// Count one occurrence of an event.
pub fn stat_increment(prof: &mut Profiler, stat: stat)
    requires
        old(prof).wf(),
        old(prof).enabled ==> old(prof).stat_array@[stat_slot(stat) as int] < u64::MAX,
    ensures
        final(prof).wf(),
        final(prof).enabled == old(prof).enabled,
        final(prof).stat_array@ == if old(prof).enabled {
            old(prof).stat_array@.update(
                stat_slot(stat) as int,
                (old(prof).stat_array@[stat_slot(stat) as int] + 1) as u64,
            )
        } else {
            old(prof).stat_array@
        },
        final(prof).hot_pages@ == old(prof).hot_pages@,
        final(prof).hot_pages_sorted@ == old(prof).hot_pages_sorted@,
{
    stat_increment_by(prof, stat, 1);
}

/// Count `by` occurrences of an event.
pub fn stat_increment_by(prof: &mut Profiler, stat: stat, by: u64)
    requires
        old(prof).wf(),
        old(prof).enabled ==> old(prof).stat_array@[stat_slot(stat) as int] + by <= u64::MAX,
    ensures
        final(prof).wf(),
        final(prof).enabled == old(prof).enabled,
        final(prof).stat_array@ == if old(prof).enabled {
            old(prof).stat_array@.update(
                stat_slot(stat) as int,
                (old(prof).stat_array@[stat_slot(stat) as int] + by) as u64,
            )
        } else {
            old(prof).stat_array@
        },
        final(prof).hot_pages@ == old(prof).hot_pages@,
        final(prof).hot_pages_sorted@ == old(prof).hot_pages_sorted@,
{
    if prof.enabled {
        let i = stat_index(stat);
        let v = prof.stat_array[i] + by;
        prof.stat_array.set(i, v);
    }
}

/// Reset every counter to zero and forget every recorded page.
pub fn profiler_init(prof: &mut Profiler)
    requires
        old(prof).wf(),
    ensures
        final(prof).wf(),
        final(prof).enabled == old(prof).enabled,
        forall|i: int| 0 <= i < STAT_ARRAY_LEN ==> final(prof).stat_array@[i] == 0,
        final(prof).hot_pages@ == Map::<u32, HotPage>::empty(),
        final(prof).hot_pages_sorted@.len() == 0,
{
    let mut i: usize = 0;
    while i < prof.stat_array.len()
        invariant
            prof.wf(),
            prof.enabled == old(prof).enabled,
            i <= STAT_ARRAY_LEN,
            forall|j: int| 0 <= j < i ==> prof.stat_array@[j] == 0,
        decreases STAT_ARRAY_LEN - i,
    {
        prof.stat_array.set(i, 0);
        i = i + 1;
    }
    profiler_hot_pages_clear(prof);
}

/// The count an event reads as: its counter, or 0 when the profiler is disabled.
pub open spec fn stat_value(prof: Profiler, s: stat) -> u64 {
    if prof.enabled {
        prof.stat_array@[stat_slot(s) as int]
    } else {
        0
    }
}

/// The count of an event, or 0 when the profiler is disabled.
pub fn profiler_stat_get(prof: &Profiler, stat: stat) -> (r: u64)
    requires
        prof.wf(),
    ensures
        r == stat_value(*prof, stat),
{
    if prof.enabled {
        prof.stat_array[stat_index(stat)]
    } else {
        0
    }
}

/// Whether the profiler is enabled.
pub fn profiler_is_enabled(prof: &Profiler) -> (r: bool)
    ensures
        r == prof.enabled,
{
    prof.enabled
}

/// The timer slot `t` names, or `None` when the profiler is disabled or there is no such timer.
pub fn profiler_timer_slot(prof: &Profiler, t: u32) -> (r: Option<usize>)
    ensures
        r == if prof.enabled && t < TIMER_COUNT {
            Some(t as usize)
        } else {
            None::<usize>
        },
{
    if prof.enabled && t < TIMER_COUNT {
        Some(t as usize)
    } else {
        None
    }
}

/// Whether recording a block leaves every counter of its page within 64 bits, which
/// `record_block` needs.
pub fn record_block_fits(prof: &Profiler, page: u32, cpl3: bool, steps: u64, compiled: bool) -> (r: bool)
    ensures
        r == (prof.enabled && prof.hot_pages@.contains_key(page_key(page, cpl3)) ==> {
            let p = prof.hot_pages@[page_key(page, cpl3)];
            &&& p.entries < u64::MAX
            &&& compiled ==> p.compiled_steps + steps <= u64::MAX
            &&& !compiled ==> p.interpreted_steps + steps <= u64::MAX
        }),
{
    if !prof.enabled {
        return true;
    }
    let key = page << 1u32 | if cpl3 {
        1u32
    } else {
        0u32
    };
    match prof.hot_pages.get(&key) {
        None => true,
        Some(p) => p.entries < u64::MAX && if compiled {
            p.compiled_steps <= u64::MAX - steps
        } else {
            p.interpreted_steps <= u64::MAX - steps
        },
    }
}

/// Record that a block of `steps` instructions ran in guest virtual page `page`, at cpl3 or not,
/// and whether compiled or in the interpreter.
pub fn record_block(prof: &mut Profiler, page: u32, cpl3: bool, steps: u64, compiled: bool)
    requires
        old(prof).enabled && old(prof).hot_pages@.contains_key(page_key(page, cpl3)) ==> {
            let p = old(prof).hot_pages@[page_key(page, cpl3)];
            &&& p.entries < u64::MAX
            &&& compiled ==> p.compiled_steps + steps <= u64::MAX
            &&& !compiled ==> p.interpreted_steps + steps <= u64::MAX
        },
    ensures
        final(prof).enabled == old(prof).enabled,
        final(prof).stat_array@ == old(prof).stat_array@,
        final(prof).hot_pages_sorted@ == old(prof).hot_pages_sorted@,
        final(prof).hot_pages@ == if old(prof).enabled {
            old(prof).hot_pages@.insert(
                page_key(page, cpl3),
                page_after_block(
                    if old(prof).hot_pages@.contains_key(page_key(page, cpl3)) {
                        Some(old(prof).hot_pages@[page_key(page, cpl3)])
                    } else {
                        None
                    },
                    steps,
                    compiled,
                ),
            )
        } else {
            old(prof).hot_pages@
        },
{
    if !prof.enabled {
        return;
    }
    let key = page << 1u32 | if cpl3 {
        1u32
    } else {
        0u32
    };
    let current = match prof.hot_pages.get(&key) {
        Some(p) => HotPage {
            entries: p.entries,
            compiled_steps: p.compiled_steps,
            interpreted_steps: p.interpreted_steps,
        },
        None => HotPage::default(),
    };
    let mut entry = current;
    entry.entries = entry.entries + 1;
    if compiled {
        entry.compiled_steps = entry.compiled_steps + steps;
    } else {
        entry.interpreted_steps = entry.interpreted_steps + steps;
    }
    prof.hot_pages.insert(key, entry);
}

/// Sort pages by the steps run in them, the hottest first. Pages with equal totals come in no
/// particular order.
pub fn sort_hottest_first(items: Vec<(u32, HotPage)>) -> (r: Vec<(u32, HotPage)>)
    requires
        forall|i: int| 0 <= i < items@.len() ==> total_steps(#[trigger] items@[i].1) <= u64::MAX,
    ensures
        r@.to_multiset() == items@.to_multiset(),
        hottest_first(r@),
{
    let mut sorted: Vec<(u32, HotPage)> = Vec::new();
    let mut i: usize = 0;
    proof {
        broadcast use vstd::seq_lib::group_to_multiset_ensures;

        assert(items@.take(0) =~= Seq::<(u32, HotPage)>::empty());
        assert(sorted@ =~= Seq::<(u32, HotPage)>::empty());
    }
    while i < items.len()
        invariant
            i <= items@.len(),
            forall|j: int| 0 <= j < items@.len() ==> total_steps(#[trigger] items@[j].1) <= u64::MAX,
            sorted@.to_multiset() == items@.take(i as int).to_multiset(),
            hottest_first(sorted@),
            forall|j: int| 0 <= j < sorted@.len() ==> total_steps(#[trigger] sorted@[j].1) <= u64::MAX,
        decreases items@.len() - i,
    {
        let (key, page) = &items[i];
        let item = (*key, HotPage {
            entries: page.entries,
            compiled_steps: page.compiled_steps,
            interpreted_steps: page.interpreted_steps,
        });
        assert(item == items@[i as int]);
        let total = page.compiled_steps + page.interpreted_steps;
        // the first position whose page is colder than this one
        let mut pos: usize = 0;
        while pos < sorted.len() && sorted[pos].1.compiled_steps + sorted[pos].1.interpreted_steps >= total
            invariant
                pos <= sorted@.len(),
                forall|j: int| 0 <= j < sorted@.len() ==> total_steps(#[trigger] sorted@[j].1) <= u64::MAX,
                forall|j: int| 0 <= j < pos ==> total_steps(#[trigger] sorted@[j].1) >= total,
            decreases sorted@.len() - pos,
        {
            pos = pos + 1;
        }
        proof {
            assert(items@.take(i + 1) == items@.take(i as int).push(item));
            vstd::seq_lib::to_multiset_build(items@.take(i as int), item);
            vstd::seq_lib::to_multiset_insert(sorted@, pos as int, item);
        }
        let ghost before = sorted@;
        sorted.insert(pos, item);
        proof {
            assert(sorted@ == before.insert(pos as int, item));
            assert forall|a: int, b: int| 0 <= a <= b < sorted@.len() implies total_steps(
                #[trigger] sorted@[a].1,
            ) >= total_steps(#[trigger] sorted@[b].1) by {
                if a < pos {
                    if b < pos {
                        assert(sorted@[a] == before[a] && sorted@[b] == before[b]);
                    } else if b == pos {
                    } else {
                        assert(sorted@[b] == before[b - 1]);
                        assert(total_steps(before[a].1) >= total_steps(before[b - 1].1));
                    }
                } else if a == pos {
                    if b > pos {
                        assert(sorted@[b] == before[b - 1]);
                        assert(pos < before.len());
                        assert(total_steps(before[pos as int].1) < total);
                        assert(total_steps(before[pos as int].1) >= total_steps(before[b - 1].1));
                    }
                } else {
                    assert(sorted@[a] == before[a - 1] && sorted@[b] == before[b - 1]);
                }
            }
        }
        i = i + 1;
    }
    proof {
        assert(items@.take(items@.len() as int) == items@);
    }
    sorted
}

/// Take a snapshot of the hot page table, sorted with the hottest page first, and return how
/// many pages it holds. Does nothing and returns 0 when the profiler is disabled.
pub fn profiler_hot_pages_sort(prof: &mut Profiler) -> (r: u32)
    requires
        old(prof).enabled ==> forall|k: u32| #[trigger] old(prof).hot_pages@.contains_key(k)
            ==> total_steps(old(prof).hot_pages@[k]) <= u64::MAX,
    ensures
        final(prof).enabled == old(prof).enabled,
        final(prof).stat_array@ == old(prof).stat_array@,
        final(prof).hot_pages@ == old(prof).hot_pages@,
        !old(prof).enabled ==> r == 0 && final(prof).hot_pages_sorted@ == old(prof).hot_pages_sorted@,
        old(prof).enabled ==> {
            &&& lists_pages(final(prof).hot_pages@, final(prof).hot_pages_sorted@)
            &&& hottest_first(final(prof).hot_pages_sorted@)
            &&& r == final(prof).hot_pages@.dom().len() as u32
        },
{
    if !prof.enabled {
        return 0;
    }
    let ghost m = prof.hot_pages@;
    let ghost entries = spec_hash_map_iter(&prof.hot_pages).remaining();
    let mut items: Vec<(u32, HotPage)> = Vec::new();
    for (k, v) in it: prof.hot_pages.iter()
        invariant
            it.seq() == entries,
            items@.len() == it.index(),
            forall|j: int| 0 <= j < it.index() ==> #[trigger] items@[j] == (*entries[j].0, *entries[j].1),
    {
        items.push((*k, HotPage {
            entries: v.entries,
            compiled_steps: v.compiled_steps,
            interpreted_steps: v.interpreted_steps,
        }));
    }
    proof {
        assert(items@ =~= entries.unref());
        assert(entries.unref().len() == m.dom().len());
        assert(entries.unref().to_set() == m.kv_pairs());
        assert forall|i: int| 0 <= i < items@.len() implies total_steps(#[trigger] items@[i].1)
            <= u64::MAX by {
            assert(m.contains_key(*entries[i].0) && m[*entries[i].0] == *entries[i].1);
        }
        assert(items@.no_duplicates()) by {
            assert forall|i: int, j: int| 0 <= i < items@.len() && 0 <= j < items@.len() && i != j
                implies items@[i] != items@[j] by {
                assert(entries.no_duplicates());
                assert(entries[i] != entries[j]);
            }
        }
    }
    let sorted = sort_hottest_first(items);
    proof {
        broadcast use vstd::seq_lib::group_to_multiset_ensures;

        items@.lemma_multiset_has_no_duplicates();
        sorted@.lemma_multiset_has_no_duplicates_conv();
        assert(sorted@.to_set() =~= items@.to_set()) by {
            assert forall|x: (u32, HotPage)| sorted@.contains(x) <==> items@.contains(x) by {
                assert(sorted@.to_multiset().count(x) == items@.to_multiset().count(x));
            }
        }
        vstd::seq_lib::to_multiset_len(sorted@);
        vstd::seq_lib::to_multiset_len(items@);
        assert(sorted@.len() == items@.len());
    }
    prof.hot_pages_sorted = sorted;
    prof.hot_pages_sorted.len() as u32
}

/// One field of one entry of the sorted snapshot: 0 the page's address, 1 whether it was cpl3,
/// 2 how many times execution entered it, 3 its compiled steps and 4 its interpreted steps. An
/// index past the snapshot, an unknown field, or a disabled profiler reads as 0.
pub fn profiler_hot_pages_get(prof: &Profiler, index: u32, field: u32) -> (r: u64)
    ensures
        r == if !prof.enabled || index >= prof.hot_pages_sorted@.len() {
            0
        } else {
            let (key, v) = prof.hot_pages_sorted@[index as int];
            if field == 0 {
                ((key >> 1u32) << 12u32) as u64
            } else if field == 1 {
                (key & 1) as u64
            } else if field == 2 {
                v.entries
            } else if field == 3 {
                v.compiled_steps
            } else if field == 4 {
                v.interpreted_steps
            } else {
                0
            }
        },
{
    if !prof.enabled {
        return 0;
    }
    if index as usize >= prof.hot_pages_sorted.len() {
        return 0;
    }
    let (key, v) = &prof.hot_pages_sorted[index as usize];
    match field {
        0 => ((*key >> 1u32) << 12u32) as u64,
        1 => (*key & 1) as u64,
        2 => v.entries,
        3 => v.compiled_steps,
        4 => v.interpreted_steps,
        _ => 0,
    }
}

/// Forget every recorded page and the sorted snapshot.
pub fn profiler_hot_pages_clear(prof: &mut Profiler)
    ensures
        final(prof).enabled == old(prof).enabled,
        final(prof).stat_array@ == old(prof).stat_array@,
        final(prof).hot_pages@ == Map::<u32, HotPage>::empty(),
        final(prof).hot_pages_sorted@.len() == 0,
{
    prof.hot_pages = HashMap::new();
    prof.hot_pages_sorted.clear();
}

} // verus!
