use vstd::prelude::*;

use crate::error::Error;

verus! {

/// A call on the engine's SST file manager.
#[derive(PartialEq, Eq, Structural, Debug, Clone, Copy)]
pub enum SstCall {
    /// Asks for the total size in bytes of the SST files managed.
    GetTotalSize,
    /// Sets the space the SST files may take, in bytes; 0 means unlimited.
    SetMaxAllowedSpaceUsage(u64),
    /// Asks whether the SST files have reached the allowed space.
    IsMaxAllowedSpaceReached,
}

/// A call addressed to the SST file manager with handle `manager`.
#[derive(PartialEq, Eq, Structural, Debug, Clone, Copy)]
pub struct SstRequest {
    pub manager: usize,
    pub call: SstCall,
}

/// The message for a failed creation of the manager's environment.
pub open spec fn default_env_failed() -> Seq<char> {
    "Failed to create default Env"@
}

/// The message for a failed creation of the manager itself.
pub open spec fn manager_failed() -> Seq<char> {
    "Failed to create SstFileManager"@
}

/// A manager of the space taken by SST files, named by the engine's handle
/// for it and for the environment it keeps alive.
pub struct SstFileManager {
    inner: usize,
    env: usize,
}

/// A default environment, created for a manager that the engine is yet to create.
pub struct PendingSstFileManager {
    env: usize,
}

/// A failed creation of a manager: the error, and the handle of the
/// environment created for it, which is to be released.
pub struct SstCreateFailure {
    pub error: Error,
    pub release_env: usize,
}

impl PendingSstFileManager {
    #[verifier::type_invariant]
    spec fn env_is_live(&self) -> bool {
        self.env != 0
    }

    /// The engine's handle for the environment.
    pub closed spec fn env_handle(&self) -> usize {
        self.env
    }

    /// The environment to create the manager on.
    pub fn env(&self) -> (e: usize)
        ensures
            e == self.env_handle(),
            e != 0,
    {
        proof {
            use_type_invariant(self);
        }
        self.env
    }

    /// The manager, given the handle that the engine returned for it (0 when
    /// it could not create one). On failure the environment is handed back
    /// for release.
    pub fn manager_created(self, inner: usize) -> (r: Result<SstFileManager, SstCreateFailure>)
        ensures
            inner == 0 <==> r is Err,
            r matches Ok(m) ==> m.handle() == inner && m.env_handle() == self.env_handle(),
            r matches Err(f) ==> f.error@ == manager_failed() && f.release_env == self.env_handle(),
    {
        proof {
            use_type_invariant(&self);
        }
        if inner == 0 {
            Err(
                SstCreateFailure {
                    error: Error::new(String::from_str("Failed to create SstFileManager")),
                    release_env: self.env,
                },
            )
        } else {
            Ok(SstFileManager { inner, env: self.env })
        }
    }
}

impl SstFileManager {
    #[verifier::type_invariant]
    spec fn handles_are_live(&self) -> bool {
        self.inner != 0 && self.env != 0
    }

    /// The engine's handle for the manager.
    pub closed spec fn handle(&self) -> usize {
        self.inner
    }

    /// The engine's handle for the manager's environment.
    pub closed spec fn env_handle(&self) -> usize {
        self.env
    }

    /// The first step of creating a manager, given the handle of the default
    /// environment that the engine created for it (0 when it could not).
    pub fn new(env: usize) -> (r: Result<PendingSstFileManager, Error>)
        ensures
            env == 0 <==> r is Err,
            r matches Ok(p) ==> p.env_handle() == env,
            r matches Err(e) ==> e@ == default_env_failed(),
    {
        if env == 0 {
            return Err(Error::new(String::from_str("Failed to create default Env")));
        }
        Ok(PendingSstFileManager { env })
    }

    fn request(&self, call: SstCall) -> (r: SstRequest)
        ensures
            r == (SstRequest { manager: self.handle(), call }),
    {
        SstRequest { manager: self.inner, call }
    }

    /// Asks for the total size in bytes of all SST files managed.
    pub fn get_total_size(&self) -> (r: SstRequest)
        ensures
            r == (SstRequest { manager: self.handle(), call: SstCall::GetTotalSize }),
    {
        self.request(SstCall::GetTotalSize)
    }

    /// Sets the maximum space the SST files may take; 0 means unlimited.
    pub fn set_max_allowed_space_usage(&self, max_bytes: u64) -> (r: SstRequest)
        ensures
            r == (SstRequest {
                manager: self.handle(),
                call: SstCall::SetMaxAllowedSpaceUsage(max_bytes),
            }),
    {
        self.request(SstCall::SetMaxAllowedSpaceUsage(max_bytes))
    }

    /// Asks whether the maximum allowed space has been reached.
    pub fn is_max_allowed_space_reached(&self) -> (r: SstRequest)
        ensures
            r == (SstRequest { manager: self.handle(), call: SstCall::IsMaxAllowedSpaceReached }),
    {
        self.request(SstCall::IsMaxAllowedSpaceReached)
    }

    /// The engine's handle for the manager.
    pub fn inner_ptr(&self) -> (h: usize)
        ensures
            h == self.handle(),
            h != 0,
    {
        proof {
            use_type_invariant(self);
        }
        self.inner
    }

    /// The engine's handle for the environment the manager keeps alive.
    pub fn env_ptr(&self) -> (h: usize)
        ensures
            h == self.env_handle(),
            h != 0,
    {
        proof {
            use_type_invariant(self);
        }
        self.env
    }
}

} // verus!
