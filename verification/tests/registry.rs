use backend::job::{create_job, Job, JobStatus, RecorderSettings, RecordingType};
use backend::registry::JobRegistry;
use std::cell::RefCell;
use std::rc::Rc;

fn settings() -> RecorderSettings {
    RecorderSettings::new(RecordingType::IQ, 7_000_000, 3, 0, None)
}

fn registry_with(ids: &[u32]) -> JobRegistry<u8> {
    let mut registry = JobRegistry::new();
    for id in ids {
        registry.insert(*id, 0u8);
    }
    registry
}

#[test]
fn next_free_id_after_a_full_prefix() {
    assert_eq!(registry_with(&[0, 1, 2]).next_free_id(), 3);
    assert_eq!(registry_with(&[0, 1, 2]).try_next_free_id(), Some(3));
}

#[test]
fn next_free_id_of_an_empty_registry() {
    assert_eq!(registry_with(&[]).next_free_id(), 0);
    assert_eq!(registry_with(&[]).try_next_free_id(), Some(0));
}

#[test]
fn next_free_id_fills_the_first_gap() {
    assert_eq!(registry_with(&[1]).next_free_id(), 0);
    assert_eq!(registry_with(&[0, 1, 3, 4]).next_free_id(), 2);
    assert_eq!(registry_with(&[0, 2, 1, u32::MAX]).next_free_id(), 3);
    assert_eq!(registry_with(&[1]).try_next_free_id(), Some(0));
}

#[test]
fn insert_get_remove() {
    let mut registry: JobRegistry<&str> = JobRegistry::new();
    assert_eq!(registry.len(), 0);
    assert_eq!(registry.insert(5, "a"), None);
    assert_eq!(registry.insert(5, "b"), Some("a"));
    assert_eq!(registry.insert(6, "c"), None);
    assert_eq!(registry.len(), 2);
    assert!(registry.contains(5));
    assert!(!registry.contains(4));
    assert_eq!(registry.get(5), Some(&"b"));
    assert_eq!(registry.get(4), None);
    assert_eq!(registry.remove(4), None);
    assert_eq!(registry.remove(5), Some("b"));
    assert_eq!(registry.remove(5), None);
    assert_eq!(registry.len(), 1);
    assert!(!registry.contains(5));
    assert!(registry.contains(6));
}

#[test]
fn ids_lists_every_job_once() {
    let registry = registry_with(&[4, 0, 9, 2]);
    let mut ids = registry.ids();
    ids.sort();
    assert_eq!(ids, vec![0, 2, 4, 9]);
    assert!(registry_with(&[]).ids().is_empty());
}

#[test]
fn create_job_allocates_the_smallest_free_id() {
    let mut registry: JobRegistry<Rc<RefCell<Job<u32>>>> = JobRegistry::new();
    let a = create_job(settings(), &mut registry, |job| Rc::new(RefCell::new(job)));
    let b = create_job(settings(), &mut registry, |job| Rc::new(RefCell::new(job)));
    let c = create_job(settings(), &mut registry, |job| Rc::new(RefCell::new(job)));
    assert_eq!((a, b, c), (0, 1, 2));
    assert_eq!(registry.len(), 3);
    registry.remove(1).unwrap();
    let d = create_job(settings(), &mut registry, |job| Rc::new(RefCell::new(job)));
    assert_eq!(d, 1);
    let handle = registry.get(1).unwrap().clone();
    let job = handle.borrow();
    assert_eq!(job.id(), 1);
    assert_eq!(job.status(), JobStatus::Idle);
    assert!(!job.has_process());
    assert_eq!(job.logs().len(), 0);
    assert_eq!(job.settings().frequency(), 7_000_000);
    assert_eq!(job.uid().len(), 9);
}

#[test]
fn removed_job_stays_alive_for_its_holder() {
    let mut registry: JobRegistry<Rc<RefCell<Job<u32>>>> = JobRegistry::new();
    let id = create_job(settings(), &mut registry, |job| Rc::new(RefCell::new(job)));
    let held = registry.get(id).unwrap().clone();
    let removed = registry.remove(id).unwrap();
    assert!(Rc::ptr_eq(&held, &removed));
    assert!(!registry.contains(id));
    held.borrow_mut().mark_starting().unwrap();
    assert_eq!(removed.borrow().status(), JobStatus::Starting);
}

#[test]
fn registry_can_hold_the_jobs_themselves() {
    let mut registry: JobRegistry<Job<u32>> = JobRegistry::new();
    let id = create_job(settings(), &mut registry, |job| job);
    assert_eq!(id, 0);
    assert_eq!(registry.get(0).unwrap().id(), 0);
    let mut due = Vec::new();
    for id in registry.ids() {
        if registry.get(id).unwrap().is_waiting_to_start_at(1) {
            due.push(id);
        }
    }
    assert_eq!(due, vec![0]);
}
