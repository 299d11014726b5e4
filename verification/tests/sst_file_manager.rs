use rocksdb::sst_file_manager::{SstCall, SstRequest};
use rocksdb::SstFileManager;

#[test]
fn null_env_is_an_error() {
    let e = SstFileManager::new(0).err().unwrap();
    assert_eq!(e.as_str(), "Failed to create default Env");
}

#[test]
fn null_manager_hands_the_env_back() {
    let pending = SstFileManager::new(0x10).ok().unwrap();
    assert_eq!(pending.env(), 0x10);
    let failure = pending.manager_created(0).err().unwrap();
    assert_eq!(failure.error.as_str(), "Failed to create SstFileManager");
    assert_eq!(failure.release_env, 0x10);
}

#[test]
fn created_manager_addresses_its_handle() {
    let m = SstFileManager::new(0x10).ok().unwrap().manager_created(0x20).ok().unwrap();
    assert_eq!(m.inner_ptr(), 0x20);
    assert_eq!(m.env_ptr(), 0x10);
    assert_eq!(m.get_total_size(), SstRequest { manager: 0x20, call: SstCall::GetTotalSize });
    assert_eq!(
        m.set_max_allowed_space_usage(1 << 30),
        SstRequest { manager: 0x20, call: SstCall::SetMaxAllowedSpaceUsage(1 << 30) }
    );
    assert_eq!(m.set_max_allowed_space_usage(0).call, SstCall::SetMaxAllowedSpaceUsage(0));
    assert_eq!(m.is_max_allowed_space_reached().call, SstCall::IsMaxAllowedSpaceReached);
}
