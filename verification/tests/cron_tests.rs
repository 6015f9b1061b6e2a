use domains::cron::{cron_registry, new_cron_runs, one_day, one_hour, tick, CronRegistry};
use domains::store::{JobStatus, JobStore};

#[test]
fn intervals_are_in_seconds() {
    assert_eq!(one_hour(), 3600);
    assert_eq!(one_day(), 86400);
}

#[test]
fn registry_holds_the_two_recurring_jobs() {
    let registry = cron_registry();
    assert_eq!(registry.len(), 2);
}

fn count_named(store: &JobStore, name: &str) -> usize {
    let mut n: usize = 0;
    for i in 0..store.len() {
        if store.job(i).name == name {
            n += 1;
        }
    }
    n
}

#[test]
fn first_tick_enqueues_every_entry() {
    let registry = cron_registry();
    let mut runs = new_cron_runs(registry.len());
    let mut store = JobStore::new(3, 60);
    tick(&registry, &mut runs, &mut store, 0);
    assert_eq!(store.len(), 2);
    assert_eq!(count_named(&store, "RefreshDomains"), 1);
    assert_eq!(count_named(&store, "RefreshDomainsNameservers"), 1);
    assert_eq!(store.job(0).status, JobStatus::Pending);
    assert_eq!(store.job(0).context, "cron");
}

#[test]
fn tick_before_interval_enqueues_nothing() {
    let registry = cron_registry();
    let mut runs = new_cron_runs(registry.len());
    let mut store = JobStore::new(3, 60);
    tick(&registry, &mut runs, &mut store, 0);
    tick(&registry, &mut runs, &mut store, 1800);
    assert_eq!(store.len(), 2);
}

#[test]
fn five_hour_pause_catches_up_with_exactly_one_enqueue() {
    // The hourly entry last ran at t = 0; the driver pauses five hours.
    // The tick on resumption enqueues one catch-up run, not five.
    let registry = cron_registry();
    let mut runs = new_cron_runs(registry.len());
    let mut store = JobStore::new(3, 60);
    tick(&registry, &mut runs, &mut store, 0);
    assert_eq!(count_named(&store, "RefreshDomains"), 1);
    let five_hours = 5 * 3600;
    tick(&registry, &mut runs, &mut store, five_hours);
    assert_eq!(count_named(&store, "RefreshDomains"), 2);
    // Immediately after the catch-up the entry is no longer due.
    tick(&registry, &mut runs, &mut store, five_hours + 1);
    assert_eq!(count_named(&store, "RefreshDomains"), 2);
}

#[test]
fn entries_are_evaluated_independently() {
    let registry = cron_registry();
    let mut runs = new_cron_runs(registry.len());
    let mut store = JobStore::new(3, 60);
    tick(&registry, &mut runs, &mut store, 0);
    // One hour later only the hourly entry is due, not the daily one.
    tick(&registry, &mut runs, &mut store, 3600);
    assert_eq!(count_named(&store, "RefreshDomains"), 2);
    assert_eq!(count_named(&store, "RefreshDomainsNameservers"), 1);
}

#[test]
fn custom_registry_respects_registration_order() {
    let mut registry = CronRegistry::new();
    registry.register_job(domains::registry::JobKind::RefreshDomains, 10);
    assert_eq!(registry.len(), 1);
    let mut runs = new_cron_runs(1);
    let mut store = JobStore::new(3, 60);
    tick(&registry, &mut runs, &mut store, 100);
    tick(&registry, &mut runs, &mut store, 109);
    assert_eq!(store.len(), 1);
    tick(&registry, &mut runs, &mut store, 110);
    assert_eq!(store.len(), 2);
}
