use memmap2::{MmapMut, MmapRaw};
use mmap_region::{Mmap, Unmap};
use std::sync::Arc;

fn pass_on(area: Mmap) -> Mmap {
    area
}

fn sendable_and_shareable<T: Send + Sync>() {}

#[test]
fn adopted_region_owes_one_unmap_with_what_it_was_given() {
    let area = Mmap::from_raw_parts(0x7000_0000, 32);
    assert_eq!(area.addr(), 0x7000_0000);
    assert_eq!(area.len(), 32);
    assert_eq!(area.release(), Some(Unmap { addr: 0x7000_0000, len: 32 }));
}

#[test]
fn adopted_region_of_a_live_mapping_is_released_by_its_owner() {
    let keeper = MmapRaw::from(MmapMut::map_anon(32).unwrap());
    let start = keeper.as_mut_ptr() as usize;
    let area = Mmap::from_raw_parts(start, keeper.len());
    let mut calls = Vec::new();
    if let Some(owed) = area.release() {
        calls.push(owed);
    }
    assert_eq!(calls, vec![Unmap { addr: start, len: 32 }]);
    drop(keeper);
}

#[test]
fn moved_handle_owes_the_same_unmap() {
    let area = Mmap::from_raw_parts(4096, 8192);
    let boxed = Box::new(pass_on(area));
    let mut held = vec![pass_on(*boxed)];
    let area = held.pop().unwrap();
    assert!(held.is_empty());
    assert_eq!(area.release(), Some(Unmap { addr: 4096, len: 8192 }));
}

#[test]
fn created_handle_owes_nothing() {
    let area = Mmap::new(32, 0, None).unwrap();
    assert_eq!(pass_on(area).release(), None);
}

#[test]
fn shared_mapping_is_taken_with_its_address_and_length() {
    let existing = Arc::new(MmapRaw::from(MmapMut::map_anon(4096).unwrap()));
    let area = Mmap::convert(existing.clone());
    assert_eq!(area.addr(), existing.as_mut_ptr() as usize);
    assert_eq!(area.len(), existing.len());
    assert_eq!(area.len(), 4096);
    assert!(area.as_slice().is_none());
}

#[test]
fn shared_mapping_is_held_until_the_handle_goes() {
    let existing = Arc::new(MmapRaw::from(MmapMut::map_anon(4096).unwrap()));
    assert_eq!(Arc::strong_count(&existing), 1);
    let area = pass_on(Mmap::convert(existing.clone()));
    assert_eq!(Arc::strong_count(&existing), 2);
    drop(area);
    assert_eq!(Arc::strong_count(&existing), 1);
}

#[test]
fn shared_mapping_outlives_its_first_owner() {
    let existing = Arc::new(MmapRaw::from(MmapMut::map_anon(4096).unwrap()));
    let watcher = Arc::downgrade(&existing);
    let area = Mmap::convert(existing);
    assert_eq!(watcher.strong_count(), 1);
    assert_eq!(area.release(), None);
    assert_eq!(watcher.strong_count(), 0);
}

#[test]
fn checked_conversion_takes_a_live_mapping() {
    let existing = Arc::new(MmapRaw::from(MmapMut::map_anon(64).unwrap()));
    let area = Mmap::try_convert(existing.clone()).unwrap();
    assert_eq!(area.addr(), existing.as_mut_ptr() as usize);
    assert_eq!(area.len(), 64);
    assert_eq!(Arc::strong_count(&existing), 2);
}

#[test]
fn handle_can_move_and_be_shared_between_threads() {
    sendable_and_shareable::<Mmap>();
}
