use vstd::prelude::*;

use crate::decimal::{decimal, push_decimal};
use crate::error::Error;

verus! {

/// The length in bytes of an AES-256 key.
pub const KEY_LEN: usize = 32;

/// A call on the engine's environment with handle `env`.
#[derive(PartialEq, Eq, Structural, Debug, Clone, Copy)]
pub enum EnvCall {
    SetBackgroundThreads(i32),
    SetHighPriorityBackgroundThreads(i32),
    SetLowPriorityBackgroundThreads(i32),
    SetBottomPriorityBackgroundThreads(i32),
    JoinAllThreads,
    LowerThreadPoolIoPriority,
    LowerHighPriorityThreadPoolIoPriority,
    LowerThreadPoolCpuPriority,
    LowerHighPriorityThreadPoolCpuPriority,
}

/// A call addressed to the environment with handle `env`.
#[derive(PartialEq, Eq, Structural, Debug, Clone, Copy)]
pub struct EnvRequest {
    pub env: usize,
    pub call: EnvCall,
}

/// An environment of the engine (file system, thread pools), named by the
/// engine's handle for it.
#[derive(PartialEq, Eq, Structural, Debug, Clone, Copy)]
pub struct Env {
    inner: usize,
}

/// The message for a failed creation of a default or in-memory environment.
pub open spec fn env_creation_failed() -> Seq<char> {
    "Could not create mem env"@
}

impl Env {
    /// The engine's handle for this environment.
    pub closed spec fn handle(&self) -> usize {
        self.inner
    }

    fn created(env: usize) -> (r: Result<Env, Error>)
        ensures
            env == 0 <==> r is Err,
            r matches Ok(e) ==> e.handle() == env,
            r matches Err(e) ==> e@ == env_creation_failed(),
    {
        if env == 0 {
            Err(Error::new(String::from_str("Could not create mem env")))
        } else {
            Ok(Env { inner: env })
        }
    }

    /// The default environment, given the handle that the engine returned
    /// for it (0 when the engine could not create one).
    pub fn new(env: usize) -> (r: Result<Env, Error>)
        ensures
            env == 0 <==> r is Err,
            r matches Ok(e) ==> e.handle() == env,
            r matches Err(e) ==> e@ == env_creation_failed(),
    {
        Self::created(env)
    }

    /// An environment that keeps its files in memory, given the handle that
    /// the engine returned for it (0 when the engine could not create one).
    pub fn mem_env(env: usize) -> (r: Result<Env, Error>)
        ensures
            env == 0 <==> r is Err,
            r matches Ok(e) ==> e.handle() == env,
            r matches Err(e) ==> e@ == env_creation_failed(),
    {
        Self::created(env)
    }

    /// Takes over the environment with handle `env`.
    pub fn from_raw(env: usize) -> (e: Env)
        ensures
            e.handle() == env,
    {
        Env { inner: env }
    }

    /// The engine's handle for this environment.
    pub fn as_raw(&self) -> (h: usize)
        ensures
            h == self.handle(),
    {
        self.inner
    }

    fn request(&self, call: EnvCall) -> (r: EnvRequest)
        ensures
            r == (EnvRequest { env: self.handle(), call }),
    {
        EnvRequest { env: self.inner, call }
    }

    /// Sets the number of background threads of the low-priority (default) pool.
    pub fn set_background_threads(&mut self, num_threads: i32) -> (r: EnvRequest)
        ensures
            *final(self) == *old(self),
            r == (EnvRequest { env: old(self).handle(), call: EnvCall::SetBackgroundThreads(num_threads) }),
    {
        self.request(EnvCall::SetBackgroundThreads(num_threads))
    }

    /// Sets the size of the high-priority thread pool.
    pub fn set_high_priority_background_threads(&mut self, n: i32) -> (r: EnvRequest)
        ensures
            *final(self) == *old(self),
            r == (EnvRequest {
                env: old(self).handle(),
                call: EnvCall::SetHighPriorityBackgroundThreads(n),
            }),
    {
        self.request(EnvCall::SetHighPriorityBackgroundThreads(n))
    }

    /// Sets the size of the low-priority thread pool.
    pub fn set_low_priority_background_threads(&mut self, n: i32) -> (r: EnvRequest)
        ensures
            *final(self) == *old(self),
            r == (EnvRequest {
                env: old(self).handle(),
                call: EnvCall::SetLowPriorityBackgroundThreads(n),
            }),
    {
        self.request(EnvCall::SetLowPriorityBackgroundThreads(n))
    }

    /// Sets the size of the bottom-priority thread pool.
    pub fn set_bottom_priority_background_threads(&mut self, n: i32) -> (r: EnvRequest)
        ensures
            *final(self) == *old(self),
            r == (EnvRequest {
                env: old(self).handle(),
                call: EnvCall::SetBottomPriorityBackgroundThreads(n),
            }),
    {
        self.request(EnvCall::SetBottomPriorityBackgroundThreads(n))
    }

    /// Waits for all threads started by the environment to terminate.
    pub fn join_all_threads(&mut self) -> (r: EnvRequest)
        ensures
            *final(self) == *old(self),
            r == (EnvRequest { env: old(self).handle(), call: EnvCall::JoinAllThreads }),
    {
        self.request(EnvCall::JoinAllThreads)
    }

    /// Lowers the IO priority of the low-priority pool's threads.
    pub fn lower_thread_pool_io_priority(&mut self) -> (r: EnvRequest)
        ensures
            *final(self) == *old(self),
            r == (EnvRequest { env: old(self).handle(), call: EnvCall::LowerThreadPoolIoPriority }),
    {
        self.request(EnvCall::LowerThreadPoolIoPriority)
    }

    /// Lowers the IO priority of the high-priority pool's threads.
    pub fn lower_high_priority_thread_pool_io_priority(&mut self) -> (r: EnvRequest)
        ensures
            *final(self) == *old(self),
            r == (EnvRequest {
                env: old(self).handle(),
                call: EnvCall::LowerHighPriorityThreadPoolIoPriority,
            }),
    {
        self.request(EnvCall::LowerHighPriorityThreadPoolIoPriority)
    }

    /// Lowers the CPU priority of the low-priority pool's threads.
    pub fn lower_thread_pool_cpu_priority(&mut self) -> (r: EnvRequest)
        ensures
            *final(self) == *old(self),
            r == (EnvRequest { env: old(self).handle(), call: EnvCall::LowerThreadPoolCpuPriority }),
    {
        self.request(EnvCall::LowerThreadPoolCpuPriority)
    }

    /// Lowers the CPU priority of the high-priority pool's threads.
    pub fn lower_high_priority_thread_pool_cpu_priority(&mut self) -> (r: EnvRequest)
        ensures
            *final(self) == *old(self),
            r == (EnvRequest {
                env: old(self).handle(),
                call: EnvCall::LowerHighPriorityThreadPoolCpuPriority,
            }),
    {
        self.request(EnvCall::LowerHighPriorityThreadPoolCpuPriority)
    }
}

/// The message for a key whose length `len` is not 32 bytes.
pub open spec fn key_length_message(len: nat) -> Seq<char> {
    "EncryptedEnv key must be exactly 32 bytes, got "@ + decimal(len)
}

/// The message that refuses a key names the required length: the words
/// "32 bytes" stand in it, whatever length was given.
pub proof fn key_length_message_names_required_length(len: nat)
    ensures
        key_length_message(len).subrange(33, 41) == "32 bytes"@,
{
    reveal_strlit("EncryptedEnv key must be exactly 32 bytes, got ");
    reveal_strlit("32 bytes");
    assert(key_length_message(len).subrange(33, 41) =~= "32 bytes"@);
}

/// The message for a failed creation of the CTR encryption provider.
pub open spec fn provider_creation_failed() -> Seq<char> {
    "Failed to create CTREncryptionProvider"@
}

/// The message for a failed creation of the encrypted environment.
pub open spec fn encrypted_env_creation_failed() -> Seq<char> {
    "Failed to create EncryptedEnv"@
}

/// Overwrites every byte of `key` with zero, keeping its length.
pub fn zero_key(key: &mut Vec<u8>)
    ensures
        final(key)@.len() == old(key)@.len(),
        forall|i: int| 0 <= i < final(key)@.len() ==> #[trigger] final(key)@[i] == 0u8,
{
    let n = key.len();
    let mut i: usize = 0;
    while i < n
        invariant
            n == key@.len(),
            n == old(key)@.len(),
            i <= n,
            forall|j: int| 0 <= j < i ==> #[trigger] key@[j] == 0u8,
        decreases n - i,
    {
        key.set(i, 0);
        i = i + 1;
    }
}

/// An AES-256 key that has been accepted and is to be handed to the engine,
/// which builds a CTR encryption provider from it.
pub struct PendingProvider {
    key: Vec<u8>,
}

impl View for PendingProvider {
    type V = Seq<u8>;

    /// The key to hand to the engine.
    closed spec fn view(&self) -> Seq<u8> {
        self.key@
    }
}

impl PendingProvider {
    /// The key bytes to hand to the engine.
    pub fn key(&self) -> (k: &[u8])
        ensures
            k@ == self@,
    {
        self.key.as_slice()
    }

    /// The next step, given the handle of the provider that the engine
    /// built from the key (0 when it could not). The key is overwritten
    /// with zeros before it is dropped, whatever the engine answered.
    pub fn provider_created(self, provider: usize) -> (r: Result<PendingEnv, String>)
        ensures
            provider == 0 <==> r is Err,
            r matches Ok(p) ==> p.provider_handle() == provider,
            r matches Err(m) ==> m@ == provider_creation_failed(),
    {
        let mut key = self.key;
        zero_key(&mut key);
        if provider == 0 {
            Err(String::from_str("Failed to create CTREncryptionProvider"))
        } else {
            Ok(PendingEnv { provider })
        }
    }
}

/// A CTR encryption provider from which the engine is to build an
/// encrypted environment.
pub struct PendingEnv {
    provider: usize,
}

impl PendingEnv {
    #[verifier::type_invariant]
    spec fn provider_is_live(&self) -> bool {
        self.provider != 0
    }

    /// The engine's handle for the provider.
    pub closed spec fn provider_handle(&self) -> usize {
        self.provider
    }

    /// The engine's handle for the provider.
    pub fn provider(&self) -> (p: usize)
        ensures
            p == self.provider_handle(),
            p != 0,
    {
        proof {
            use_type_invariant(self);
        }
        self.provider
    }

    /// The encrypted environment, given the handle of the environment that
    /// the engine built around the provider (0 when it could not).
    pub fn env_created(self, env: usize) -> (r: Result<EncryptedEnv, String>)
        ensures
            env == 0 <==> r is Err,
            r matches Ok(e) ==> e.env_handle() == env && e.provider_handle() == self.provider_handle(),
            r matches Err(m) ==> m@ == encrypted_env_creation_failed(),
    {
        proof {
            use_type_invariant(&self);
        }
        if env == 0 {
            Err(String::from_str("Failed to create EncryptedEnv"))
        } else {
            Ok(EncryptedEnv { provider: self.provider, env })
        }
    }
}

/// An environment of the engine through which all file I/O is AES-256-CTR
/// encrypted, named by the engine's handles for it and for its provider.
/// Clones name the same engine objects.
#[derive(Clone, Copy, PartialEq, Eq, Structural, Debug)]
pub struct EncryptedEnv {
    provider: usize,
    env: usize,
}

impl EncryptedEnv {
    #[verifier::type_invariant]
    spec fn handles_are_live(&self) -> bool {
        self.provider != 0 && self.env != 0
    }

    /// The engine's handle for the encrypted environment.
    pub closed spec fn env_handle(&self) -> usize {
        self.env
    }

    /// The engine's handle for the encryption provider.
    pub closed spec fn provider_handle(&self) -> usize {
        self.provider
    }

    /// Accepts `key` for a new encrypted environment when it is exactly 32
    /// bytes long; otherwise the error says that 32 bytes are needed and how
    /// many were given.
    pub fn new(key: Vec<u8>) -> (r: Result<PendingProvider, String>)
        ensures
            key@.len() == KEY_LEN <==> r is Ok,
            r matches Ok(p) ==> p@ == key@,
            r matches Err(m) ==> m@ == key_length_message(key@.len()),
    {
        if key.len() != KEY_LEN {
            let mut msg = String::from_str("EncryptedEnv key must be exactly 32 bytes, got ");
            push_decimal(&mut msg, key.len());
            return Err(msg);
        }
        Ok(PendingProvider { key })
    }

    /// The engine's handle for the encrypted environment, to hand to options.
    pub fn as_ptr(&self) -> (h: usize)
        ensures
            h == self.env_handle(),
            h != 0,
    {
        proof {
            use_type_invariant(self);
        }
        self.env
    }

    /// The engine's handle for the encryption provider.
    pub fn provider_ptr(&self) -> (h: usize)
        ensures
            h == self.provider_handle(),
            h != 0,
    {
        proof {
            use_type_invariant(self);
        }
        self.provider
    }
}

} // verus!
