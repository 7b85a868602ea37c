use ssc::c::{code_result, error_result};
use ssc::mmap::{flag, init_code, init_flag};
use ssc::mmap::{InitEvent, InitStep, MemMap, NewEvent, NewStep, NullifyEvent, NullifyStep};

fn mapped(flags: u8) -> MemMap {
    MemMap::from_parts(0x1000, 4096, 3, flags)
}

fn is_null(m: &MemMap) -> bool {
    m.get_ptr() == 0 && m.get_size() == 0 && m.get_file() == ssc::mmap::file::NULL && m.get_flags() == 0
}

#[test]
fn null_map_maps_nothing() {
    let m = MemMap::new_null();
    assert!(!m.is_initialized());
    assert!(!m.is_readonly());
    assert!(!m.is_secret());
    assert_eq!(m.get_size(), 0);
    assert_eq!(m.get_ptr(), 0);
    assert_eq!(m.get_file(), -1);
    assert_eq!(m.get_flags(), 0);
    assert!(is_null(&MemMap::default()));
}

#[test]
fn flags_are_read_back() {
    let m = mapped(flag::READ_ONLY | flag::SECRET);
    assert!(m.is_initialized());
    assert!(m.is_readonly());
    assert!(m.is_secret());
    let w = mapped(0);
    assert!(!w.is_readonly());
    assert!(!w.is_secret());
    assert_eq!(w.get_size(), 4096);
    assert_eq!(w.get_ptr(), 0x1000);
    assert_eq!(w.get_file(), 3);
}

#[test]
fn nullify_null_map_finishes_at_once() {
    let mut m = MemMap::new_null();
    assert!(matches!(m.nullify(NullifyEvent::Start), NullifyStep::Finished(Ok(()))));
    assert!(is_null(&m));
}

#[test]
fn nullify_not_initialized_resets_flags() {
    let mut m = MemMap::from_parts(0, 10, 4, flag::SECRET);
    assert!(matches!(m.nullify(NullifyEvent::Start), NullifyStep::Finished(Ok(()))));
    assert!(is_null(&m));
}

#[test]
fn nullify_writable_syncs_then_deletes() {
    let mut m = mapped(0);
    assert!(matches!(m.nullify(NullifyEvent::Start), NullifyStep::Sync));
    assert!(matches!(m.nullify(NullifyEvent::Synced(0)), NullifyStep::Delete));
    assert!(m.is_initialized());
    assert!(matches!(m.nullify(NullifyEvent::Deleted), NullifyStep::Finished(Ok(()))));
    assert!(is_null(&m));
}

#[test]
fn nullify_failed_sync_keeps_map() {
    let mut m = mapped(0);
    assert!(matches!(m.nullify(NullifyEvent::Start), NullifyStep::Sync));
    assert!(matches!(m.nullify(NullifyEvent::Synced(-1)), NullifyStep::Finished(Err(()))));
    assert_eq!(m.get_ptr(), 0x1000);
    assert_eq!(m.get_size(), 4096);
}

#[test]
fn nullify_readonly_never_syncs() {
    let mut m = mapped(flag::READ_ONLY);
    assert!(matches!(m.nullify(NullifyEvent::Start), NullifyStep::Delete));
    assert!(matches!(m.nullify(NullifyEvent::Deleted), NullifyStep::Finished(Ok(()))));
    assert!(is_null(&m));
}

#[test]
fn init_on_null_map_maps_at_once() {
    let mut m = MemMap::new_null();
    assert!(matches!(m.init(InitEvent::Start), InitStep::MapFile));
    let step = m.init(InitEvent::Mapped(init_code::OK, mapped(0)));
    assert!(matches!(step, InitStep::Finished(Ok(()))));
    assert_eq!(m.get_ptr(), 0x1000);
}

#[test]
fn init_reports_mapping_error() {
    let mut m = MemMap::new_null();
    assert!(matches!(m.init(InitEvent::Start), InitStep::MapFile));
    let step = m.init(InitEvent::Mapped(init_code::ERR_OPEN_FILEPATH, MemMap::new_null()));
    assert!(matches!(step, InitStep::Finished(Err(init_code::ERR_OPEN_FILEPATH))));
    assert!(!m.is_initialized());
}

#[test]
fn init_releases_old_mapping_first() {
    let mut m = mapped(0);
    assert!(matches!(m.init(InitEvent::Start), InitStep::Sync));
    assert!(matches!(m.init(InitEvent::Synced(0)), InitStep::Delete));
    assert!(matches!(m.init(InitEvent::Deleted), InitStep::MapFile));
    assert!(is_null(&m));
    let step = m.init(InitEvent::Mapped(init_code::OK, MemMap::from_parts(0x2000, 8, 5, 0)));
    assert!(matches!(step, InitStep::Finished(Ok(()))));
    assert_eq!(m.get_ptr(), 0x2000);
}

#[test]
fn init_failed_release_is_err_nullify() {
    let mut m = mapped(0);
    assert!(matches!(m.init(InitEvent::Start), InitStep::Sync));
    let step = m.init(InitEvent::Synced(3));
    assert!(matches!(step, InitStep::Finished(Err(init_code::ERR_NULLIFY))));
    assert_eq!(init_code::ERR_NULLIFY, -12);
    assert_eq!(m.get_ptr(), 0x1000);
}

#[test]
fn init_readonly_old_mapping_is_deleted_without_sync() {
    let mut m = mapped(flag::READ_ONLY);
    assert!(matches!(m.init(InitEvent::Start), InitStep::Delete));
}

#[test]
fn new_with_readonly_option_is_readonly() {
    let mut m = mapped(flag::SECRET);
    assert!(matches!(m.new(NewEvent::Start, init_flag::READ_ONLY | init_flag::FORCE_EXIST), NewStep::MapFile));
    assert!(is_null(&m));
    let step = m.new(NewEvent::Mapped(init_code::OK, mapped(0)), init_flag::READ_ONLY | init_flag::FORCE_EXIST);
    assert!(matches!(step, NewStep::Finished(Ok(()))));
    assert!(m.is_readonly());
    assert_eq!(m.get_flags(), flag::READ_ONLY);
    assert_eq!(m.get_size(), 4096);
}

#[test]
fn new_without_readonly_option_keeps_flags() {
    let mut m = MemMap::new_null();
    assert!(matches!(m.new(NewEvent::Start, init_flag::ALLOW_SHRINK), NewStep::MapFile));
    let step = m.new(NewEvent::Mapped(init_code::OK, mapped(flag::SECRET)), init_flag::ALLOW_SHRINK);
    assert!(matches!(step, NewStep::Finished(Ok(()))));
    assert!(!m.is_readonly());
    assert!(m.is_secret());
    assert_eq!(m.get_flags(), flag::SECRET);
}

#[test]
fn new_failed_mapping_of_nothing_passes_error_on() {
    let mut m = MemMap::new_null();
    assert!(matches!(m.new(NewEvent::Start, init_flag::READ_ONLY), NewStep::MapFile));
    let step = m.new(NewEvent::Mapped(init_code::ERR_MAP, MemMap::new_null()), init_flag::READ_ONLY);
    assert!(matches!(step, NewStep::Finished(Err(init_code::ERR_MAP))));
    assert!(is_null(&m));
}

#[test]
fn new_failed_mapping_leftovers_are_released() {
    let mut m = MemMap::new_null();
    assert!(matches!(m.new(NewEvent::Start, 0), NewStep::MapFile));
    let step = m.new(NewEvent::Mapped(init_code::ERR_SET_FILE_SIZE, mapped(0)), 0);
    assert!(matches!(step, NewStep::Sync(init_code::ERR_SET_FILE_SIZE)));
    let step = m.new(NewEvent::Synced(init_code::ERR_SET_FILE_SIZE, 0), 0);
    assert!(matches!(step, NewStep::Delete(init_code::ERR_SET_FILE_SIZE)));
    let step = m.new(NewEvent::Deleted(init_code::ERR_SET_FILE_SIZE), 0);
    assert!(matches!(step, NewStep::Finished(Err(init_code::ERR_SET_FILE_SIZE))));
    assert!(is_null(&m));
}

#[test]
fn new_failed_mapping_readonly_leftovers_are_deleted() {
    let mut m = MemMap::new_null();
    assert!(matches!(m.new(NewEvent::Start, 0), NewStep::MapFile));
    let step = m.new(NewEvent::Mapped(init_code::ERR_READ_ONLY, mapped(flag::READ_ONLY)), 0);
    assert!(matches!(step, NewStep::Delete(init_code::ERR_READ_ONLY)));
}

#[test]
fn new_failed_release_is_reported() {
    let mut m = MemMap::new_null();
    assert!(matches!(m.new(NewEvent::Start, 0), NewStep::MapFile));
    let step = m.new(NewEvent::Mapped(init_code::ERR_MAP, mapped(0)), 0);
    assert!(matches!(step, NewStep::Sync(init_code::ERR_MAP)));
    let step = m.new(NewEvent::Synced(init_code::ERR_MAP, -1), 0);
    assert!(matches!(step, NewStep::ReleaseFailed(init_code::ERR_MAP)));
    assert_eq!(m.get_ptr(), 0x1000);
}

#[test]
fn new_secret_keeps_map_or_passes_error() {
    let mut m = MemMap::new_null();
    assert!(matches!(m.new_secret(NewEvent::Start), NewStep::MapFile));
    let step = m.new_secret(NewEvent::Mapped(init_code::OK, mapped(flag::SECRET)));
    assert!(matches!(step, NewStep::Finished(Ok(()))));
    assert!(m.is_secret());
    assert!(!m.is_readonly());
    let mut n = MemMap::new_null();
    assert!(matches!(n.new_secret(NewEvent::Start), NewStep::MapFile));
    let step = n.new_secret(NewEvent::Mapped(init_code::ERR_SECRET, MemMap::new_null()));
    assert!(matches!(step, NewStep::Finished(Err(init_code::ERR_SECRET))));
}

#[test]
fn status_conversions() {
    assert_eq!(error_result(0), Ok(()));
    assert_eq!(error_result(-1), Err(()));
    assert_eq!(error_result(7), Err(()));
    assert_eq!(code_result(init_code::OK), Ok(()));
    assert_eq!(code_result(init_code::ERR_SHRINK), Err(-4));
}

#[test]
fn nullify_twice_stays_null() {
    let mut m = mapped(flag::READ_ONLY | flag::SECRET);
    assert!(matches!(m.nullify(NullifyEvent::Start), NullifyStep::Delete));
    assert!(matches!(m.nullify(NullifyEvent::Deleted), NullifyStep::Finished(Ok(()))));
    assert!(is_null(&m));
    assert!(matches!(m.nullify(NullifyEvent::Start), NullifyStep::Finished(Ok(()))));
    assert!(is_null(&m));
    assert_eq!(m.get_flags(), 0);
    assert_eq!(m.get_file(), ssc::mmap::file::NULL);
}
