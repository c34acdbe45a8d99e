use v86::profiler::{
    profiler_hot_pages_clear, profiler_hot_pages_get, profiler_hot_pages_sort, profiler_init,
    profiler_is_enabled, profiler_stat_get, profiler_timer_slot, record_block, stat,
    stat_increment, stat_increment_by, stat_index, timer, timer_index, HotPage, Profiler,
    STAT_ARRAY_LEN, TIMER_COUNT,
};

#[test]
fn counters_count_when_enabled() {
    let mut p = Profiler::new(true);
    assert!(profiler_is_enabled(&p));
    stat_increment(&mut p, stat::COMPILE);
    stat_increment(&mut p, stat::COMPILE);
    stat_increment_by(&mut p, stat::RUN_INTERPRETED_STEPS, 40);
    assert_eq!(profiler_stat_get(&p, stat::COMPILE), 2);
    assert_eq!(profiler_stat_get(&p, stat::RUN_INTERPRETED_STEPS), 40);
    assert_eq!(profiler_stat_get(&p, stat::RUN_FROM_CACHE), 0);
}

#[test]
fn counters_stay_zero_when_disabled() {
    let mut p = Profiler::new(false);
    assert!(!profiler_is_enabled(&p));
    stat_increment(&mut p, stat::COMPILE);
    stat_increment_by(&mut p, stat::COMPILE, 7);
    assert_eq!(profiler_stat_get(&p, stat::COMPILE), 0);
    assert_eq!(p.stat_array[stat_index(stat::COMPILE)], 0);
}

#[test]
fn init_resets_every_counter_and_page() {
    let mut p = Profiler::new(true);
    stat_increment_by(&mut p, stat::SEG_OFFSET_NOT_OPTIMISED_NOT_FLAT, 3);
    record_block(&mut p, 0x10, false, 5, true);
    profiler_init(&mut p);
    assert_eq!(profiler_stat_get(&p, stat::SEG_OFFSET_NOT_OPTIMISED_NOT_FLAT), 0);
    assert_eq!(profiler_hot_pages_sort(&mut p), 0);
    assert_eq!(p.stat_array.len(), STAT_ARRAY_LEN);
}

#[test]
fn stat_slots_are_the_declaration_order() {
    assert_eq!(stat_index(stat::COMPILE), 0);
    assert_eq!(stat_index(stat::COMPILE_SKIPPED_NO_NEW_ENTRY_POINTS), 1);
    assert_eq!(stat_index(stat::SEG_OFFSET_NOT_OPTIMISED_NOT_FLAT), 100);
    assert_eq!(timer_index(timer::MAIN_LOOP), 0);
    assert_eq!(timer_index(timer::COMPILE), 2);
    assert_eq!(timer_index(timer::LAST), TIMER_COUNT as usize);
}

#[test]
fn timer_slots() {
    let p = Profiler::new(true);
    assert_eq!(profiler_timer_slot(&p, 0), Some(0));
    assert_eq!(profiler_timer_slot(&p, 2), Some(2));
    assert_eq!(profiler_timer_slot(&p, 3), None);
    let q = Profiler::new(false);
    assert_eq!(profiler_timer_slot(&q, 0), None);
}

#[test]
fn hot_pages_hottest_first() {
    let mut p = Profiler::new(true);
    record_block(&mut p, 0x314, false, 100, true);
    record_block(&mut p, 0x314, false, 50, false);
    record_block(&mut p, 0xc019d, true, 1000, false);
    assert_eq!(profiler_hot_pages_sort(&mut p), 2);

    assert_eq!(profiler_hot_pages_get(&p, 0, 0), 0xc019d000);
    assert_eq!(profiler_hot_pages_get(&p, 0, 1), 1);
    assert_eq!(profiler_hot_pages_get(&p, 0, 2), 1);
    assert_eq!(profiler_hot_pages_get(&p, 0, 3), 0);
    assert_eq!(profiler_hot_pages_get(&p, 0, 4), 1000);

    assert_eq!(profiler_hot_pages_get(&p, 1, 0), 0x314000);
    assert_eq!(profiler_hot_pages_get(&p, 1, 1), 0);
    assert_eq!(profiler_hot_pages_get(&p, 1, 2), 2);
    assert_eq!(profiler_hot_pages_get(&p, 1, 3), 100);
    assert_eq!(profiler_hot_pages_get(&p, 1, 4), 50);

    assert_eq!(profiler_hot_pages_get(&p, 2, 0), 0);
    assert_eq!(profiler_hot_pages_get(&p, 0, 5), 0);
}

#[test]
fn kernel_and_user_code_at_one_address_stay_apart() {
    let mut p = Profiler::new(true);
    record_block(&mut p, 0x400, false, 1, true);
    record_block(&mut p, 0x400, true, 2, true);
    assert_eq!(profiler_hot_pages_sort(&mut p), 2);
    assert_eq!(profiler_hot_pages_get(&p, 0, 1), 1);
    assert_eq!(profiler_hot_pages_get(&p, 1, 1), 0);
    assert_eq!(profiler_hot_pages_get(&p, 0, 0), profiler_hot_pages_get(&p, 1, 0));
}

#[test]
fn hot_pages_off_when_disabled() {
    let mut p = Profiler::new(false);
    record_block(&mut p, 0x314, false, 100, true);
    assert_eq!(profiler_hot_pages_sort(&mut p), 0);
    assert_eq!(profiler_hot_pages_get(&p, 0, 2), 0);
}

#[test]
fn clearing_forgets_pages() {
    let mut p = Profiler::new(true);
    record_block(&mut p, 1, false, 1, false);
    assert_eq!(profiler_hot_pages_sort(&mut p), 1);
    profiler_hot_pages_clear(&mut p);
    assert_eq!(profiler_hot_pages_get(&p, 0, 2), 0);
    assert_eq!(profiler_hot_pages_sort(&mut p), 0);
}

#[test]
fn default_hot_page_is_empty() {
    let h = HotPage::default();
    assert_eq!(h.entries, 0);
    assert_eq!(h.compiled_steps, 0);
    assert_eq!(h.interpreted_steps, 0);
}
