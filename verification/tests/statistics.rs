use wasm_executor::config::MAX_MEMORY_PAGES;
use wasm_executor::{CommonConfigOptions, Config, ConfigBuilder, Statistics};

#[test]
fn fresh_statistics_hold_nothing() {
    let stat = Statistics::new().unwrap();
    assert_eq!(stat.cost(), 0);
    assert_eq!(stat.time(), 0);
}

#[test]
fn statistics_add_up() {
    let mut stat = Statistics::new().unwrap();
    stat.record_cost(5);
    stat.record_cost(0);
    stat.record_cost(7);
    assert_eq!(stat.cost(), 12);
    assert_eq!(stat.time(), 0);
    stat.record_time(1_000);
    stat.record_time(500);
    assert_eq!(stat.time(), 1_500);
    assert_eq!(stat.cost(), 12);
}

#[test]
fn statistics_stop_at_the_largest_count() {
    let mut stat = Statistics::new().unwrap();
    stat.record_cost(u64::MAX - 1);
    stat.record_cost(1);
    assert_eq!(stat.cost(), u64::MAX);
    stat.record_cost(1);
    assert_eq!(stat.cost(), u64::MAX);
    stat.record_cost(u64::MAX);
    assert_eq!(stat.cost(), u64::MAX);

    stat.record_time(u64::MAX);
    stat.record_time(3);
    assert_eq!(stat.time(), u64::MAX);
}

#[test]
fn reset_forgets_cost_and_time() {
    let mut stat = Statistics::new().unwrap();
    stat.record_cost(5);
    stat.record_time(9);
    stat.reset();
    assert_eq!(stat.cost(), 0);
    assert_eq!(stat.time(), 0);
    assert_eq!(stat, Statistics::new().unwrap());
    stat.record_cost(2);
    assert_eq!(stat.cost(), 2);
}

#[test]
fn default_options_enable_bulk_memory_operations() {
    assert!(CommonConfigOptions::default().bulk_memory_operations);
}

#[test]
fn builder_starts_without_lowered_limits() {
    let config = ConfigBuilder::new(CommonConfigOptions::default()).build().unwrap();
    assert!(config.bulk_memory_operations_enabled());
    assert_eq!(MAX_MEMORY_PAGES, 65536);
    assert_eq!(config.max_memory_pages(), 65536);
    assert_eq!(config.cost_limit(), None);
    assert_eq!(config.effective_cost_limit(), u64::MAX);
    assert!(config.is_valid());
    assert_eq!(config, Config::default());
}

#[test]
fn builder_sets_each_setting_and_keeps_the_others() {
    let off = CommonConfigOptions { bulk_memory_operations: false };
    let config = ConfigBuilder::new(off).with_max_memory_pages(10).build().unwrap();
    assert!(!config.bulk_memory_operations_enabled());
    assert_eq!(config.max_memory_pages(), 10);
    assert_eq!(config.cost_limit(), None);

    let config = ConfigBuilder::new(off).with_cost_limit(0).build().unwrap();
    assert_eq!(config.max_memory_pages(), 65536);
    assert_eq!(config.cost_limit(), Some(0));
    assert_eq!(config.effective_cost_limit(), 0);

    let config = ConfigBuilder::new(CommonConfigOptions::default())
        .with_cost_limit(7)
        .with_max_memory_pages(1)
        .with_cost_limit(8)
        .build()
        .unwrap();
    assert!(config.bulk_memory_operations_enabled());
    assert_eq!(config.max_memory_pages(), 1);
    assert_eq!(config.cost_limit(), Some(8));
}

#[test]
fn configuration_is_valid_up_to_the_widest_memory() {
    let at = |pages: u32| {
        ConfigBuilder::new(CommonConfigOptions::default())
            .with_max_memory_pages(pages)
            .build()
            .unwrap()
            .is_valid()
    };
    assert!(at(0));
    assert!(at(1));
    assert!(at(65536));
    assert!(!at(65537));
    assert!(!at(u32::MAX));
}
