use dynamo_serving::compute::config::{ComputeConfig, ConfigError, PoolError};
use dynamo_serving::compute::context::{
    assert_compute_context, block_permit, check_compute_context, get_pool, has_compute_context,
    initialize_context, try_acquire_block_permit, with_context, ContextSlot,
};
use dynamo_serving::compute::metrics::ComputeMetrics;
use dynamo_serving::compute::pool::{
    parallel_join, parallel_map, ComputePool, ComputePoolExt, ScopeExecutor,
};
use dynamo_serving::compute::strategy::{
    large_strategy, medium_strategy, small_strategy, Strategy,
};
use dynamo_serving::compute::validation::{
    get_misclassification_metrics, reset_misclassification_metrics, validate_large,
    validate_medium, validate_small, Advice, MisclassificationMetrics,
};
use dynamo_serving::time::Duration;
use std::sync::{mpsc, Arc};

fn config(num_threads: Option<usize>, stack_size: Option<usize>) -> ComputeConfig {
    ComputeConfig {
        num_threads,
        stack_size,
        ..Default::default()
    }
}

#[test]
fn test_metrics_recording() {
    let mut metrics = ComputeMetrics::new();

    assert_eq!(metrics.tasks_total(), 0);
    assert_eq!(metrics.tasks_active(), 0);

    metrics.record_task_start();
    assert_eq!(metrics.tasks_active(), 1);

    metrics.record_task_completion(Duration::from_millis(50));
    assert_eq!(metrics.tasks_active(), 0);
    assert_eq!(metrics.tasks_total(), 1);
    assert_eq!(metrics.slow_tasks(), 0);

    metrics.record_task_start();
    metrics.record_task_completion(Duration::from_millis(150));
    assert_eq!(metrics.tasks_total(), 2);
    assert_eq!(metrics.slow_tasks(), 1);
}

#[test]
fn test_metrics_reset() {
    let mut metrics = ComputeMetrics::new();

    metrics.record_task_start();
    metrics.record_task_completion(Duration::from_millis(50));
    assert_eq!(metrics.tasks_total(), 1);

    metrics.reset();
    assert_eq!(metrics.tasks_total(), 0);
    assert_eq!(metrics.tasks_active(), 0);
}

#[test]
fn test_compute_config_default() {
    let config = ComputeConfig::default();
    assert_eq!(config.thread_prefix, "compute");
    assert_eq!(config.stack_size, Some(2 * 1024 * 1024));
    assert!(!config.pin_threads);
}

#[test]
fn test_build_pool() {
    let config = ComputeConfig {
        num_threads: Some(2),
        ..Default::default()
    };

    let pool = config.build_pool(None).unwrap();
    assert_eq!(pool.current_num_threads(), 2);
}

#[test]
fn test_compute_pool_execute() {
    let mut pool = ComputePool::with_defaults(Some(8)).unwrap();

    let result = pool
        .execute(|| {
            let mut sum = 0u64;
            for i in 0..1000 {
                sum += i;
            }
            sum
        })
        .unwrap();

    assert_eq!(result, 499500);
    assert_eq!(pool.metrics().tasks_total(), 1);
    assert_eq!(pool.metrics().tasks_active(), 0);
}

#[test]
fn test_compute_pool_join() {
    let mut pool = ComputePool::with_defaults(Some(8)).unwrap();

    let (a, b) = pool.join(|| 2 + 2, || 3 * 3).unwrap();

    assert_eq!(a, 4);
    assert_eq!(b, 9);
}

#[test]
fn test_compute_pool_execute_sync() {
    let pool = ComputePool::with_defaults(Some(8)).unwrap();

    let result = pool.execute_sync(|| {
        let mut sum = 0u64;
        for i in 0..1000 {
            sum += i;
        }
        sum
    });

    assert_eq!(result, 499500);
    assert_eq!(pool.metrics().tasks_total(), 0);
}

#[test]
fn test_compute_pool_scoped() {
    let mut pool = ComputePool::with_defaults(Some(8)).unwrap();

    let mut result = pool
        .execute_scoped(|scope| {
            let (tx, rx) = mpsc::channel();

            for i in 0..4 {
                let tx = tx.clone();
                scope.spawn(move |_| {
                    tx.send((i, i * 2)).unwrap();
                });
            }

            drop(tx);

            let mut results = vec![0; 4];
            for (i, val) in rx {
                results[i] = val;
            }
            results
        })
        .unwrap();

    result.sort();
    assert_eq!(result, vec![0, 2, 4, 6]);
}

#[test]
fn test_uninitialized_context() {
    let slot: ContextSlot<ComputePool> = ContextSlot::new();
    assert!(get_pool(&slot).is_none());
    assert!(try_acquire_block_permit(&slot).is_err());
    assert!(!has_compute_context(&slot));
}

#[test]
fn default_metrics_are_empty() {
    let metrics = ComputeMetrics::default();
    assert_eq!(metrics.tasks_total(), 0);
    assert_eq!(metrics.tasks_active(), 0);
    assert_eq!(metrics.total_compute_time_us(), 0);
    assert_eq!(metrics.max_task_duration_us(), 0);
    assert_eq!(metrics.slow_tasks(), 0);
}

#[test]
fn metrics_follow_the_tasks() {
    let mut metrics = ComputeMetrics::new();
    for micros in [1500, 250, 40_000] {
        metrics.record_task_start();
        metrics.record_task_completion(Duration::from_micros(micros));
    }
    assert_eq!(metrics.tasks_total(), 3);
    assert_eq!(metrics.tasks_active(), 0);
    assert_eq!(metrics.total_compute_time_us(), 41_750);
    assert_eq!(metrics.max_task_duration_us(), 40_000);
    assert_eq!(metrics.slow_tasks(), 0);
}

#[test]
fn metrics_do_not_depend_on_the_order() {
    let mut a = ComputeMetrics::new();
    a.record_task_start();
    a.record_task_start();
    a.record_task_completion(Duration::from_millis(3));
    a.record_task_completion(Duration::from_millis(200));
    let mut b = ComputeMetrics::new();
    b.record_task_start();
    b.record_task_completion(Duration::from_millis(200));
    b.record_task_start();
    b.record_task_completion(Duration::from_millis(3));
    assert_eq!(a.tasks_active(), b.tasks_active());
    assert_eq!(a.tasks_total(), b.tasks_total());
    assert_eq!(a.total_compute_time_us(), b.total_compute_time_us());
    assert_eq!(a.max_task_duration_us(), b.max_task_duration_us());
    assert_eq!(a.slow_tasks(), b.slow_tasks());
}

#[test]
fn completions_come_in_any_order() {
    let orders = [[7, 150, 30], [30, 7, 150], [150, 30, 7]];
    for order in orders {
        let mut metrics = ComputeMetrics::new();
        for _ in order {
            metrics.record_task_start();
        }
        for millis in order {
            metrics.record_task_completion(Duration::from_millis(millis));
        }
        assert_eq!(metrics.tasks_total(), 3);
        assert_eq!(metrics.tasks_active(), 0);
        assert_eq!(metrics.total_compute_time_us(), 187_000);
        assert_eq!(metrics.max_task_duration_us(), 150_000);
        assert_eq!(metrics.slow_tasks(), 1);
    }
}

#[test]
fn running_tasks_are_starts_less_completions() {
    let mut metrics = ComputeMetrics::new();
    let (mut starts, mut completions) = (0, 0);
    for event in [None, None, Some(200), None, Some(1), Some(300), None] {
        match event {
            None => {
                metrics.record_task_start();
                starts += 1;
            }
            Some(millis) => {
                metrics.record_task_completion(Duration::from_millis(millis));
                completions += 1;
            }
        }
        assert_eq!(metrics.tasks_active(), starts - completions);
        assert_eq!(metrics.tasks_total(), completions as u64);
        assert!(metrics.slow_tasks() <= metrics.tasks_total());
    }
    assert_eq!(metrics.slow_tasks(), 2);
}

#[test]
fn a_task_is_slow_beyond_a_tenth_of_a_second() {
    let mut metrics = ComputeMetrics::new();
    metrics.record_task_start();
    metrics.record_task_completion(Duration::from_millis(100));
    assert_eq!(metrics.slow_tasks(), 0);
    metrics.record_task_start();
    metrics.record_task_completion(Duration::from_nanos(100_000_001));
    assert_eq!(metrics.slow_tasks(), 1);
}

#[test]
fn no_threads_are_refused() {
    let config = config(Some(0), None);
    assert_eq!(config.validate(), Err(ConfigError::NoThreads));
    assert_eq!(
        ConfigError::NoThreads.message(),
        "Number of compute threads cannot be 0. Use None to disable compute pool entirely."
    );
    assert!(matches!(
        config.build_pool(Some(4)),
        Err(PoolError::Config(ConfigError::NoThreads))
    ));
    assert!(matches!(
        ComputePool::new(config, Some(4)),
        Err(PoolError::Config(ConfigError::NoThreads))
    ));
}

#[test]
fn small_stacks_are_refused() {
    let error = ConfigError::StackTooSmall { kilobytes: 127 };
    assert_eq!(config(None, Some(128 * 1024 - 1)).validate(), Err(error));
    assert_eq!(
        error.message(),
        "Stack size too small: 127KB. Minimum recommended: 128KB"
    );
    assert_eq!(
        ConfigError::StackTooSmall { kilobytes: 0 }.message(),
        "Stack size too small: 0KB. Minimum recommended: 128KB"
    );
    assert_eq!(config(None, Some(128 * 1024)).validate(), Ok(()));
    assert_eq!(config(None, None).validate(), Ok(()));
}

#[test]
fn the_number_of_threads_is_checked_first() {
    assert_eq!(
        config(Some(0), Some(1)).validate(),
        Err(ConfigError::NoThreads)
    );
}

#[test]
fn threads_follow_the_cores() {
    let config = ComputeConfig::default();
    let expected = [
        (None, 2),
        (Some(1), 2),
        (Some(4), 2),
        (Some(6), 3),
        (Some(7), 3),
        (Some(32), 16),
        (Some(64), 32),
        (Some(128), 64),
    ];
    for (cores, threads) in expected {
        assert_eq!(config.thread_count(cores), threads);
    }
}

#[test]
fn asked_threads_are_taken_as_they_are() {
    assert_eq!(config(Some(1), None).thread_count(Some(64)), 1);
    assert_eq!(config(Some(40), None).thread_count(None), 40);
}

#[test]
fn the_default_pool_has_half_the_cores() {
    let pool = ComputePool::with_defaults(Some(10)).unwrap();
    assert_eq!(pool.num_threads(), 5);
    assert_eq!(pool.config().thread_prefix, "compute");
    assert_eq!(pool.metrics().tasks_total(), 0);
}

#[test]
fn the_default_pool_is_not_capped() {
    let pool = ComputeConfig::default().build_pool(Some(64)).unwrap();
    assert_eq!(pool.current_num_threads(), 32);
}

#[test]
fn pool_without_stack_size_starts() {
    let pool = ComputePool::new(config(Some(3), None), None).unwrap();
    assert_eq!(pool.num_threads(), 3);
    assert_eq!(pool.execute_sync(rayon::current_num_threads), 3);
}

#[test]
fn work_runs_on_the_pool() {
    let mut pool = ComputePool::new(config(Some(3), Some(256 * 1024)), None).unwrap();
    assert_eq!(pool.install(rayon::current_num_threads).unwrap(), 3);
    assert_eq!(pool.execute(rayon::current_num_threads).unwrap(), 3);
    assert!(pool.execute(|| rayon::current_thread_index().is_some()).unwrap());
    assert_eq!(pool.metrics().tasks_total(), 3);
}

#[test]
fn first_in_first_out_scope_returns_what_was_made() {
    let mut pool = ComputePool::new(config(Some(2), None), None).unwrap();
    let result = pool
        .execute_scoped_fifo(|scope| {
            let (tx, rx) = mpsc::channel();
            for i in 0..3u32 {
                let tx = tx.clone();
                scope.spawn_fifo(move |_| {
                    tx.send(i + 10).unwrap();
                });
            }
            drop(tx);
            rx.iter().sum::<u32>()
        })
        .unwrap();
    assert_eq!(result, 33);
    assert_eq!(pool.metrics().tasks_total(), 1);
    assert_eq!(pool.metrics().tasks_active(), 0);
}

#[test]
fn a_task_can_be_taken_in_steps() {
    let mut pool = ComputePool::new(config(Some(2), None), None).unwrap();
    let task = pool.begin_task();
    assert_eq!(pool.metrics().tasks_active(), 1);
    let handle = pool.handle();
    assert_eq!(handle.run(|| 7 * 6), 42);
    assert_eq!(handle.execute_in_scope(|_| 5), 5);
    assert_eq!(handle.run_scoped_fifo(|_| 6), 6);
    assert_eq!(handle.run_both(|| 1, || 2), (1, 2));
    assert_eq!(handle.run_map(vec![1, 2], |i| i + 1), vec![2, 3]);
    assert_eq!(
        handle.run_batches(vec![1, 2, 3], 2, |part: &[i32]| vec![part.len()]),
        vec![2, 1]
    );
    pool.finish_task(task);
    assert_eq!(pool.metrics().tasks_active(), 0);
    assert_eq!(pool.metrics().tasks_total(), 1);
}

#[test]
fn maps_keep_the_order() {
    let mut pool = ComputePool::new(config(Some(4), None), None).unwrap();
    let expected: Vec<u64> = (0..500).map(|i| i * i).collect();
    let items: Vec<u64> = (0..500).collect();
    assert_eq!(
        ComputePoolExt::parallel_map(&mut pool, items.clone(), |i| i * i).unwrap(),
        expected
    );
    assert_eq!(parallel_map(&mut pool, items, |i| i * i).unwrap(), expected);
    assert_eq!(pool.metrics().tasks_total(), 2);
}

#[test]
fn batches_keep_the_order_and_cover_the_items() {
    let mut pool = ComputePool::new(config(Some(4), None), None).unwrap();
    let items: Vec<u32> = (0..10).collect();
    let sizes = pool
        .parallel_batch(items.clone(), 4, |part| vec![part.len()])
        .unwrap();
    assert_eq!(sizes, vec![4, 4, 2]);
    let same = pool
        .parallel_batch(items.clone(), 3, |part| part.to_vec())
        .unwrap();
    assert_eq!(same, items);
    let none = pool
        .parallel_batch(Vec::<u32>::new(), 3, |part| part.to_vec())
        .unwrap();
    assert!(none.is_empty());
}

#[test]
fn the_size_of_batches_does_not_show() {
    let mut pool = ComputePool::new(config(Some(4), None), None).unwrap();
    let items: Vec<u32> = (0..23).collect();
    let expected: Vec<u32> = items.iter().map(|i| i * 3).collect();
    for size in [1, 2, 7, 23, 100] {
        let tripled = pool
            .parallel_batch(items.clone(), size, |part| {
                part.iter().map(|i| i * 3).collect()
            })
            .unwrap();
        assert_eq!(tripled, expected);
    }
}

#[test]
fn joined_work_returns_both_results() {
    let mut pool = ComputePool::new(config(Some(2), None), None).unwrap();
    let (a, b) = parallel_join(&mut pool, || "left", || vec![1, 2]).unwrap();
    assert_eq!(a, "left");
    assert_eq!(b, vec![1, 2]);
    assert_eq!(pool.metrics().tasks_total(), 1);
}

#[test]
fn context_hands_out_pool_and_permits() {
    let mut slot: ContextSlot<ComputePool> = ContextSlot::new();
    assert_eq!(
        check_compute_context(&slot),
        Err("Thread-local compute context not initialized! Compute macros will fall back to inline execution. Call Runtime::initialize_thread_local() on worker threads.")
    );
    assert!(with_context(&slot, |_| 1).is_none());
    let pool = Arc::new(ComputePool::new(config(Some(2), None), None).unwrap());
    let permits = Arc::new(tokio::sync::Semaphore::new(1));
    initialize_context(&mut slot, pool.clone(), permits.clone());
    assert!(has_compute_context(&slot));
    assert_eq!(check_compute_context(&slot), Ok(()));
    assert_eq!(with_context(&slot, |c| c.pool.num_threads()), Some(2));
    assert!(Arc::ptr_eq(&get_pool(&slot).unwrap(), &pool));
    assert!(Arc::ptr_eq(
        &assert_compute_context(&slot).block_in_place_permits,
        &permits
    ));
    let copy = assert_compute_context(&slot).clone();
    assert!(Arc::ptr_eq(&copy.pool, &pool));
    assert!(Arc::ptr_eq(&copy.block_in_place_permits, &permits));
    let permit = try_acquire_block_permit(&slot).unwrap();
    assert_eq!(permits.available_permits(), 0);
    assert_eq!(
        try_acquire_block_permit(&slot).err(),
        Some("No permits available")
    );
    drop(permit);
    assert!(try_acquire_block_permit(&slot).is_ok());
}

#[test]
fn permit_answers() {
    assert_eq!(block_permit::<u8, u8>(Some(Ok(3))), Ok(3));
    assert_eq!(
        block_permit::<u8, u8>(Some(Err(3))),
        Err("No permits available")
    );
    assert_eq!(
        block_permit::<u8, u8>(None),
        Err("No compute context on this thread")
    );
}

#[test]
fn strategies_by_size() {
    assert_eq!(small_strategy(), Strategy::Inline);
    assert_eq!(medium_strategy(true, true), Strategy::BlockInPlace);
    assert_eq!(medium_strategy(true, false), Strategy::BlockInPlace);
    assert_eq!(medium_strategy(false, true), Strategy::Offload);
    assert_eq!(medium_strategy(false, false), Strategy::InlineBlocking);
    assert_eq!(large_strategy(true), Strategy::Offload);
    assert_eq!(large_strategy(false), Strategy::InlineBlocking);
}

#[test]
fn misclassified_tasks_are_counted() {
    let mut metrics = MisclassificationMetrics {
        small: 0,
        medium: 0,
        large: 0,
    };
    assert_eq!(
        validate_small(&mut metrics, Duration::from_micros(100)),
        None
    );
    assert_eq!(
        validate_small(&mut metrics, Duration::from_micros(101)),
        Some(Advice::SmallExceeded)
    );
    assert_eq!(
        validate_medium(&mut metrics, Duration::from_micros(99)),
        Some(Advice::MediumBelow)
    );
    assert_eq!(
        validate_medium(&mut metrics, Duration::from_micros(100)),
        None
    );
    assert_eq!(
        validate_medium(&mut metrics, Duration::from_micros(1000)),
        None
    );
    assert_eq!(
        validate_medium(&mut metrics, Duration::from_micros(1001)),
        Some(Advice::MediumExceeded)
    );
    assert_eq!(
        validate_large(&mut metrics, Duration::from_micros(999)),
        Some(Advice::LargeBelow)
    );
    assert_eq!(
        validate_large(&mut metrics, Duration::from_micros(1000)),
        None
    );
    assert_eq!(get_misclassification_metrics(&metrics), (1, 2, 1));
    reset_misclassification_metrics(&mut metrics);
    assert_eq!(get_misclassification_metrics(&metrics), (0, 0, 0));
}

#[test]
fn a_task_is_not_small_beyond_the_threshold() {
    let mut metrics = MisclassificationMetrics {
        small: u64::MAX,
        medium: 7,
        large: 8,
    };
    assert_eq!(
        validate_small(&mut metrics, Duration::from_nanos(100_001)),
        Some(Advice::SmallExceeded)
    );
    assert_eq!(get_misclassification_metrics(&metrics), (0, 7, 8));
}

#[test]
fn advice_names_its_threshold() {
    assert_eq!(Advice::SmallExceeded.threshold_us(), 100);
    assert_eq!(Advice::MediumBelow.threshold_us(), 100);
    assert_eq!(Advice::MediumExceeded.threshold_us(), 1000);
    assert_eq!(Advice::LargeBelow.threshold_us(), 1000);
    assert_eq!(
        Advice::SmallExceeded.message(),
        "compute_small! task exceeded threshold. Consider using compute_medium!"
    );
    assert_eq!(
        Advice::MediumBelow.message(),
        "compute_medium! task below small threshold. Consider using compute_small!"
    );
    assert_eq!(
        Advice::MediumExceeded.message(),
        "compute_medium! task exceeded threshold. Consider using compute_large!"
    );
    assert_eq!(
        Advice::LargeBelow.message(),
        "compute_large! task below medium threshold. Consider using compute_medium! or compute_small!"
    );
}
