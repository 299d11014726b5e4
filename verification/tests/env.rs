use rocksdb::env::{EnvCall, EnvRequest};
use rocksdb::Env;

#[test]
fn null_default_env_is_an_error() {
    let e = Env::new(0).unwrap_err();
    assert_eq!(e.as_str(), "Could not create mem env");
}

#[test]
fn null_mem_env_is_an_error() {
    let e = Env::mem_env(0).unwrap_err();
    assert_eq!(e.into_string(), "Could not create mem env");
}

#[test]
fn created_env_keeps_its_handle() {
    assert_eq!(Env::new(0x40).unwrap().as_raw(), 0x40);
    assert_eq!(Env::mem_env(0x80).unwrap().as_raw(), 0x80);
    assert_eq!(Env::from_raw(0x90).as_raw(), 0x90);
}

#[test]
fn thread_pool_settings_address_the_env() {
    let mut env = Env::from_raw(7);
    assert_eq!(
        env.set_background_threads(4),
        EnvRequest { env: 7, call: EnvCall::SetBackgroundThreads(4) }
    );
    assert_eq!(
        env.set_high_priority_background_threads(2),
        EnvRequest { env: 7, call: EnvCall::SetHighPriorityBackgroundThreads(2) }
    );
    assert_eq!(
        env.set_low_priority_background_threads(3),
        EnvRequest { env: 7, call: EnvCall::SetLowPriorityBackgroundThreads(3) }
    );
    assert_eq!(
        env.set_bottom_priority_background_threads(1),
        EnvRequest { env: 7, call: EnvCall::SetBottomPriorityBackgroundThreads(1) }
    );
    assert_eq!(env.join_all_threads().call, EnvCall::JoinAllThreads);
    assert_eq!(env.lower_thread_pool_io_priority().call, EnvCall::LowerThreadPoolIoPriority);
    assert_eq!(
        env.lower_high_priority_thread_pool_io_priority().call,
        EnvCall::LowerHighPriorityThreadPoolIoPriority
    );
    assert_eq!(env.lower_thread_pool_cpu_priority().call, EnvCall::LowerThreadPoolCpuPriority);
    assert_eq!(
        env.lower_high_priority_thread_pool_cpu_priority().call,
        EnvCall::LowerHighPriorityThreadPoolCpuPriority
    );
    assert_eq!(env.as_raw(), 7);
}
