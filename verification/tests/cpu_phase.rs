use rnb_runtime::cpu_phase::{
    attempt_full_prefill, build_full_prefill_pool, configure_full_prefill_pool,
    install_full_prefill, pin_worker, prefill_thread_name, without_pool,
};
use std::sync::{Arc, Mutex};

fn pin_nothing(_cores: &[usize], _worker: usize) {}

#[test]
fn dedicated_pool_runs_nested_rayon_work_on_requested_workers() {
    let ran = build_full_prefill_pool(2, None, pin_nothing, rayon::current_num_threads);
    assert_eq!(ran.ok(), Some((2, 2)));
}

#[test]
fn dedicated_pool_rejects_zero_workers() {
    assert!(build_full_prefill_pool(0, None, pin_nothing, || ()).is_err());
    let (message, kept) =
        build_full_prefill_pool(0, Some(&[1]), pin_nothing, || 7).err().unwrap();
    assert_eq!(message, "full-core prefill pool requires at least one worker");
    assert_eq!(kept(), 7);
}

#[test]
fn the_mask_is_set_once() {
    let mut configured = None;
    assert_eq!(
        configure_full_prefill_pool(&mut configured, vec![]).unwrap_err(),
        "full-core prefill affinity mask is empty"
    );
    assert_eq!(configured, None);
    assert_eq!(configure_full_prefill_pool(&mut configured, vec![0, 1]), Ok(()));
    assert_eq!(configure_full_prefill_pool(&mut configured, vec![0, 1]), Ok(()));
    assert_eq!(
        configure_full_prefill_pool(&mut configured, vec![1, 0]).unwrap_err(),
        "full-core prefill affinity mask changed after configuration"
    );
    assert_eq!(configured, Some(vec![0, 1]));
}

#[test]
fn a_prefill_needs_a_configured_pool() {
    assert_eq!(
        install_full_prefill(&None, || 1, pin_nothing).unwrap_err(),
        "full-core prefill pool was not configured"
    );
    assert_eq!(
        install_full_prefill(&Some(vec![]), || 1, pin_nothing).unwrap_err(),
        "full-core prefill pool requires at least one worker"
    );
}

#[test]
fn a_prefill_runs_on_named_workers_that_are_pinned_to_the_mask() {
    let pinned: Arc<Mutex<Vec<(Vec<usize>, usize)>>> = Arc::new(Mutex::new(Vec::new()));
    let seen = pinned.clone();
    let ran = install_full_prefill(
        &Some(vec![4, 5, 6]),
        || (rayon::current_num_threads(), rayon::current_thread_index().map(prefill_thread_name)),
        move |cores: &[usize], worker: usize| {
            seen.lock().unwrap().push((cores.to_vec(), worker));
        },
    )
    .unwrap();
    assert_eq!(ran.0, 3);
    assert!(ran.1.unwrap().starts_with("rnb-prefill-"));
    let pinned = pinned.lock().unwrap();
    assert!(!pinned.is_empty());
    assert!(pinned.iter().all(|(cores, worker)| cores == &vec![4, 5, 6] && *worker < 3));
}

#[test]
fn worker_names_end_in_their_number() {
    assert_eq!(prefill_thread_name(0), "rnb-prefill-0");
    assert_eq!(prefill_thread_name(17), "rnb-prefill-17");
}

#[test]
fn a_worker_is_pinned_to_all_cores_by_its_number() {
    let seen = Mutex::new(Vec::new());
    let pin = |cores: &[usize], worker: usize| {
        seen.lock().unwrap().push((cores.to_vec(), worker));
    };
    pin_worker(&pin, &[4, 5, 6], 2);
    assert_eq!(*seen.lock().unwrap(), vec![(vec![4, 5, 6], 2)]);
}

#[test]
fn an_operation_without_a_pool_comes_back_uncalled() {
    let mut calls = 0;
    let Err((message, kept)) = attempt_full_prefill(
        &None,
        || {
            calls += 1;
            calls
        },
        pin_nothing,
    ) else {
        panic!("there is no pool");
    };
    assert_eq!(message, "full-core prefill pool was not configured");
    assert_eq!(kept(), 1);

    let refused = without_pool(("no threads".to_string(), 7));
    assert_eq!(refused, ("failed to build full-core prefill pool: no threads".to_string(), 7));
}

#[test]
fn an_operation_is_called_once_beside_a_worker_for_each_core() {
    let mut calls = 0;
    let ran = attempt_full_prefill(
        &Some(vec![4, 5]),
        || {
            calls += 1;
            "done"
        },
        pin_nothing,
    );
    assert_eq!(ran.ok(), Some((2, "done")));
    assert_eq!(calls, 1);
}

#[test]
fn the_worker_that_runs_is_pinned_before() {
    let pinned: Arc<Mutex<Vec<usize>>> = Arc::new(Mutex::new(Vec::new()));
    let (seen, read) = (pinned.clone(), pinned);
    let before = install_full_prefill(
        &Some(vec![3, 1, 2]),
        move || {
            let worker = rayon::current_thread_index().unwrap();
            read.lock().unwrap().contains(&worker)
        },
        move |_: &[usize], worker: usize| seen.lock().unwrap().push(worker),
    );
    assert_eq!(before, Ok(true));
}
