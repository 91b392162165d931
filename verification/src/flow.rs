//! The adapter's operation state machines.
//!
//! Each of the multi-step operations — `create`, `open`, `destroy` — is a
//! small state machine: the machine decides which native call to perform
//! next and how to roll back a partially finished operation, while a thin
//! driver performs the raw calls and hands back their outcomes. `unmap` and
//! `close` are single calls and need no machine, only an outcome decision.
//!
//! The machines are platform-aware. On POSIX, `create` names the object
//! first and sizes it afterwards, and a failed `create` must unlink the
//! just-created name; destruction is an explicit unlink. On Windows, the
//! object is created at its final size in one call, a named object lives
//! only while some handle to it is open, and destruction is therefore an
//! open followed by a close.

use vstd::prelude::*;
use crate::error::ShmError;

verus! {

/// The family of native shared-memory APIs the adapter drives.
#[derive(Clone, Copy, Debug, PartialEq, Eq, Structural)]
pub enum Platform {
    /// `shm_open` / `ftruncate` / `mmap` / `munmap` / `close` / `shm_unlink`.
    Posix,
    /// `CreateFileMappingW` / `OpenFileMappingW` / `MapViewOfFile` /
    /// `UnmapViewOfFile` / `CloseHandle`.
    Windows,
}

/// A native call the driver must perform. The driver holds the segment
/// name; a request carries only handles, addresses and sizes.
#[derive(Clone, Copy, Debug, PartialEq, Eq, Structural)]
pub enum Req {
    /// Create (or open, where the name is already bound) the named object:
    /// POSIX `shm_open` with creation flags, Windows `CreateFileMappingW`
    /// with the given size.
    CreateObject { size: usize },
    /// Open the pre-existing named object: POSIX `shm_open` without
    /// creation flags, Windows `OpenFileMappingW`.
    OpenObject,
    /// Set the object's size: POSIX `ftruncate`.
    SetSize { handle: usize, size: usize },
    /// Map the object into the address space: POSIX `mmap`, Windows
    /// `MapViewOfFile`.
    MapView { handle: usize, size: usize },
    /// Remove the mapping: POSIX `munmap`, Windows `UnmapViewOfFile`.
    UnmapView { addr: usize, size: usize },
    /// Release the process-local handle: POSIX `close`, Windows
    /// `CloseHandle`.
    ReleaseHandle { handle: usize },
    /// Unbind the name from the object: POSIX `shm_unlink`.
    RemoveName,
}

/// The outcome of a native call, as the driver reports it back.
#[derive(Clone, Copy, Debug, PartialEq, Eq, Structural)]
pub enum Reply {
    /// `CreateObject` or `OpenObject` succeeded with this handle.
    Handle { handle: usize },
    /// `MapView` succeeded at this base address.
    Address { addr: usize },
    /// A call with no payload succeeded.
    Accepted,
    /// The call failed with this native error code.
    Failed { code: i32 },
}

/// A reply is well-shaped for a request when it is a failure or carries
/// the payload that request produces on success.
pub open spec fn reply_matches(req: Req, reply: Reply) -> bool {
    match reply {
        Reply::Failed { .. } => true,
        Reply::Handle { .. } => req is CreateObject || req is OpenObject,
        Reply::Address { .. } => req is MapView,
        Reply::Accepted => req is SetSize || req is UnmapView || req is ReleaseHandle
            || req is RemoveName,
    }
}

/// What a machine asks of its driver after absorbing a reply: perform one
/// more native call, or stop with the operation's result.
#[derive(Clone, Copy, Debug)]
pub enum MapStep {
    /// Perform this call and resume with its outcome.
    Call { req: Req },
    /// The operation finished: on success, the mapped base address and the
    /// open handle.
    Done { result: Result<(usize, usize), ShmError> },
}

/// What the destroy machine asks of its driver.
#[derive(Clone, Copy, Debug)]
pub enum DestroyStep {
    /// Perform this call and resume with its outcome.
    Call { req: Req },
    /// The operation finished.
    Done { result: Result<(), ShmError> },
}

// ---------------------------------------------------------------------------
// create
// ---------------------------------------------------------------------------

/// Where a `create` stands between native calls.
#[derive(Clone, Copy, Debug, PartialEq, Eq, Structural)]
pub enum CreateState {
    /// `CreateObject` is pending.
    Start,
    /// The object is named; `SetSize` is pending (POSIX only).
    SetSizePending { handle: usize },
    /// The object is named and sized; `MapView` is pending.
    MapPending { handle: usize },
    /// A step failed after the object was named; `ReleaseHandle` is
    /// pending as the first half of the rollback.
    RollbackRelease { handle: usize, code: i32 },
    /// `RemoveName` is pending as the second half of the rollback
    /// (POSIX only: Windows reclaims the object when its last handle
    /// closes).
    RollbackRemove { code: i32 },
    /// The operation is over; the machine accepts no further reply.
    Finished,
}

/// The machine behind `create(size, id)`: name the object, size it, map
/// it, and on any partial failure remove everything already created
/// before reporting a `CreationError`.
pub struct CreateFlow {
    pub platform: Platform,
    pub size: usize,
    pub state: CreateState,
}

/// The call a non-finished `create` machine is waiting on.
pub open spec fn create_pending(f: CreateFlow) -> Req {
    match f.state {
        CreateState::Start => Req::CreateObject { size: f.size },
        CreateState::SetSizePending { handle } => Req::SetSize { handle, size: f.size },
        CreateState::MapPending { handle } => Req::MapView { handle, size: f.size },
        CreateState::RollbackRelease { handle, .. } => Req::ReleaseHandle { handle },
        CreateState::RollbackRemove { .. } => Req::RemoveName,
        CreateState::Finished => Req::RemoveName,  // unreachable: excluded by contracts
    }
}

/// The state a `create` machine moves to on a reply.
pub open spec fn create_next(f: CreateFlow, reply: Reply) -> CreateState {
    match f.state {
        CreateState::Start => match reply {
            Reply::Handle { handle } => match f.platform {
                Platform::Posix => CreateState::SetSizePending { handle },
                Platform::Windows => CreateState::MapPending { handle },
            },
            _ => CreateState::Finished,
        },
        CreateState::SetSizePending { handle } => match reply {
            Reply::Accepted => CreateState::MapPending { handle },
            Reply::Failed { code } => CreateState::RollbackRelease { handle, code },
            _ => CreateState::Finished,
        },
        CreateState::MapPending { handle } => match reply {
            Reply::Address { .. } => CreateState::Finished,
            Reply::Failed { code } => CreateState::RollbackRelease { handle, code },
            _ => CreateState::Finished,
        },
        CreateState::RollbackRelease { code, .. } => match f.platform {
            // the rollback goes on whether or not the cleanup call itself
            // succeeded, preserving the original failure code
            Platform::Posix => CreateState::RollbackRemove { code },
            Platform::Windows => CreateState::Finished,
        },
        CreateState::RollbackRemove { .. } => CreateState::Finished,
        CreateState::Finished => CreateState::Finished,
    }
}

/// What a `create` machine asks of its driver on a reply.
pub open spec fn create_out(f: CreateFlow, reply: Reply) -> MapStep {
    match f.state {
        CreateState::Start => match reply {
            Reply::Handle { handle } => match f.platform {
                Platform::Posix => MapStep::Call {
                    req: Req::SetSize { handle, size: f.size },
                },
                Platform::Windows => MapStep::Call {
                    req: Req::MapView { handle, size: f.size },
                },
            },
            Reply::Failed { code } => MapStep::Done {
                result: Err(ShmError::CreationError { code }),
            },
            _ => MapStep::Done { result: Err(ShmError::CreationError { code: 0 }) },
        },
        CreateState::SetSizePending { handle } => match reply {
            Reply::Accepted => MapStep::Call { req: Req::MapView { handle, size: f.size } },
            Reply::Failed { code } => MapStep::Call { req: Req::ReleaseHandle { handle } },
            _ => MapStep::Done { result: Err(ShmError::CreationError { code: 0 }) },
        },
        CreateState::MapPending { handle } => match reply {
            Reply::Address { addr } => MapStep::Done { result: Ok((addr, handle)) },
            Reply::Failed { code } => MapStep::Call { req: Req::ReleaseHandle { handle } },
            _ => MapStep::Done { result: Err(ShmError::CreationError { code: 0 }) },
        },
        CreateState::RollbackRelease { code, .. } => match f.platform {
            Platform::Posix => MapStep::Call { req: Req::RemoveName },
            Platform::Windows => MapStep::Done {
                result: Err(ShmError::CreationError { code }),
            },
        },
        CreateState::RollbackRemove { code } => MapStep::Done {
            result: Err(ShmError::CreationError { code }),
        },
        CreateState::Finished => MapStep::Done {
            result: Err(ShmError::CreationError { code: 0 }),
        },
    }
}

impl CreateFlow {
    /// Starts a `create` of a segment of `size` bytes; the returned request
    /// is the first native call to perform.
    pub fn begin(platform: Platform, size: usize) -> (r: (CreateFlow, Req))
        ensures
            r.0 == (CreateFlow { platform, size, state: CreateState::Start }),
            r.1 == (Req::CreateObject { size }),
    {
        (CreateFlow { platform, size, state: CreateState::Start }, Req::CreateObject { size })
    }

    /// Absorbs the outcome of the pending call and says what to do next.
    ///
    /// The machine finishes successfully only when the mapping call
    /// reported an address; it reports an error only from the start (when
    /// nothing was created yet) or after the rollback calls — release the
    /// handle, and on POSIX remove the name — have all been issued, so a
    /// failed `create` leaves no named object of its own behind.
    pub fn resume(&mut self, reply: Reply) -> (s: MapStep)
        requires
            !(old(self).state is Finished),
            reply_matches(create_pending(*old(self)), reply),
        ensures
            final(self).platform == old(self).platform,
            final(self).size == old(self).size,
            final(self).state == create_next(*old(self), reply),
            s == create_out(*old(self), reply),
            // success comes only out of a successful mapping call
            s matches MapStep::Done { result: Ok((addr, handle)) } ==> ({
                &&& old(self).state matches CreateState::MapPending { handle: h } && h == handle
                &&& reply matches Reply::Address { addr: a } && a == addr
            }),
            // every reported failure is a CreationError, and none is
            // reported while a just-created object still awaits rollback
            s matches MapStep::Done { result: Err(e) } ==> ({
                &&& e is CreationError
                &&& (old(self).state is Start
                    || old(self).state is RollbackRemove
                    || (old(self).platform is Windows && old(self).state is RollbackRelease))
            }),
            // a failure mid-flight turns into a rollback call, never
            // directly into a result
            ((old(self).state is SetSizePending || old(self).state is MapPending)
                && reply is Failed) ==> (
                s == (MapStep::Call {
                    req: Req::ReleaseHandle { handle: rollback_handle(old(self).state) },
                })
            ),
    {
        let out: MapStep;
        match self.state {
            CreateState::Start => match reply {
                Reply::Handle { handle } => match self.platform {
                    Platform::Posix => {
                        self.state = CreateState::SetSizePending { handle };
                        out = MapStep::Call { req: Req::SetSize { handle, size: self.size } };
                    },
                    Platform::Windows => {
                        self.state = CreateState::MapPending { handle };
                        out = MapStep::Call { req: Req::MapView { handle, size: self.size } };
                    },
                },
                Reply::Failed { code } => {
                    self.state = CreateState::Finished;
                    out = MapStep::Done { result: Err(ShmError::CreationError { code }) };
                },
                _ => {
                    proof { assert(false); }
                    self.state = CreateState::Finished;
                    out = MapStep::Done { result: Err(ShmError::CreationError { code: 0 }) };
                },
            },
            CreateState::SetSizePending { handle } => match reply {
                Reply::Accepted => {
                    self.state = CreateState::MapPending { handle };
                    out = MapStep::Call { req: Req::MapView { handle, size: self.size } };
                },
                Reply::Failed { code } => {
                    self.state = CreateState::RollbackRelease { handle, code };
                    out = MapStep::Call { req: Req::ReleaseHandle { handle } };
                },
                _ => {
                    proof { assert(false); }
                    self.state = CreateState::Finished;
                    out = MapStep::Done { result: Err(ShmError::CreationError { code: 0 }) };
                },
            },
            CreateState::MapPending { handle } => match reply {
                Reply::Address { addr } => {
                    self.state = CreateState::Finished;
                    out = MapStep::Done { result: Ok((addr, handle)) };
                },
                Reply::Failed { code } => {
                    self.state = CreateState::RollbackRelease { handle, code };
                    out = MapStep::Call { req: Req::ReleaseHandle { handle } };
                },
                _ => {
                    proof { assert(false); }
                    self.state = CreateState::Finished;
                    out = MapStep::Done { result: Err(ShmError::CreationError { code: 0 }) };
                },
            },
            CreateState::RollbackRelease { handle, code } => match self.platform {
                Platform::Posix => {
                    self.state = CreateState::RollbackRemove { code };
                    out = MapStep::Call { req: Req::RemoveName };
                },
                Platform::Windows => {
                    self.state = CreateState::Finished;
                    out = MapStep::Done { result: Err(ShmError::CreationError { code }) };
                },
            },
            CreateState::RollbackRemove { code } => {
                self.state = CreateState::Finished;
                out = MapStep::Done { result: Err(ShmError::CreationError { code }) };
            },
            CreateState::Finished => {
                proof { assert(false); }
                out = MapStep::Done { result: Err(ShmError::CreationError { code: 0 }) };
            },
        }
        out
    }
}

/// The handle a mid-flight `create` would roll back.
pub open spec fn rollback_handle(s: CreateState) -> usize {
    match s {
        CreateState::SetSizePending { handle } => handle,
        CreateState::MapPending { handle } => handle,
        CreateState::RollbackRelease { handle, .. } => handle,
        _ => 0,
    }
}

// ---------------------------------------------------------------------------
// open
// ---------------------------------------------------------------------------

/// Where an `open` stands between native calls.
#[derive(Clone, Copy, Debug, PartialEq, Eq, Structural)]
pub enum OpenState {
    /// `OpenObject` is pending.
    Start,
    /// The object is open; `MapView` is pending.
    MapPending { handle: usize },
    /// Mapping failed; `ReleaseHandle` is pending to give back the handle
    /// this `open` acquired.
    RollbackRelease { handle: usize, code: i32 },
    /// The operation is over.
    Finished,
}

/// The machine behind `open(size, id)`: open the pre-existing named object
/// and map it. It never creates, resizes, zeroes or removes anything; on a
/// failed mapping it releases the handle it acquired and reports an
/// `OpenError`.
pub struct OpenFlow {
    pub size: usize,
    pub state: OpenState,
}

/// The call a non-finished `open` machine is waiting on.
pub open spec fn open_pending(f: OpenFlow) -> Req {
    match f.state {
        OpenState::Start => Req::OpenObject,
        OpenState::MapPending { handle } => Req::MapView { handle, size: f.size },
        OpenState::RollbackRelease { handle, .. } => Req::ReleaseHandle { handle },
        OpenState::Finished => Req::OpenObject,  // unreachable: excluded by contracts
    }
}

/// The state an `open` machine moves to on a reply.
pub open spec fn open_next(f: OpenFlow, reply: Reply) -> OpenState {
    match f.state {
        OpenState::Start => match reply {
            Reply::Handle { handle } => OpenState::MapPending { handle },
            _ => OpenState::Finished,
        },
        OpenState::MapPending { handle } => match reply {
            Reply::Address { .. } => OpenState::Finished,
            Reply::Failed { code } => OpenState::RollbackRelease { handle, code },
            _ => OpenState::Finished,
        },
        OpenState::RollbackRelease { .. } => OpenState::Finished,
        OpenState::Finished => OpenState::Finished,
    }
}

/// What an `open` machine asks of its driver on a reply.
pub open spec fn open_out(f: OpenFlow, reply: Reply) -> MapStep {
    match f.state {
        OpenState::Start => match reply {
            Reply::Handle { handle } => MapStep::Call {
                req: Req::MapView { handle, size: f.size },
            },
            Reply::Failed { code } => MapStep::Done {
                result: Err(ShmError::OpenError { code }),
            },
            _ => MapStep::Done { result: Err(ShmError::OpenError { code: 0 }) },
        },
        OpenState::MapPending { handle } => match reply {
            Reply::Address { addr } => MapStep::Done { result: Ok((addr, handle)) },
            Reply::Failed { code } => MapStep::Call { req: Req::ReleaseHandle { handle } },
            _ => MapStep::Done { result: Err(ShmError::OpenError { code: 0 }) },
        },
        OpenState::RollbackRelease { code, .. } => MapStep::Done {
            result: Err(ShmError::OpenError { code }),
        },
        OpenState::Finished => MapStep::Done { result: Err(ShmError::OpenError { code: 0 }) },
    }
}

impl OpenFlow {
    /// Starts an `open` of an existing segment, to be mapped at `size`
    /// bytes; the returned request is the first native call to perform.
    pub fn begin(size: usize) -> (r: (OpenFlow, Req))
        ensures
            r.0 == (OpenFlow { size, state: OpenState::Start }),
            r.1 == Req::OpenObject,
    {
        (OpenFlow { size, state: OpenState::Start }, Req::OpenObject)
    }

    /// Absorbs the outcome of the pending call and says what to do next.
    ///
    /// An `open` only ever asks for `OpenObject`, `MapView` and — on a
    /// failed mapping — `ReleaseHandle`: it never creates, resizes or
    /// removes the named object, so two concurrent opens cannot disturb
    /// each other or the segment they share.
    pub fn resume(&mut self, reply: Reply) -> (s: MapStep)
        requires
            !(old(self).state is Finished),
            reply_matches(open_pending(*old(self)), reply),
        ensures
            final(self).size == old(self).size,
            final(self).state == open_next(*old(self), reply),
            s == open_out(*old(self), reply),
            // open touches nothing but its own handle and mapping
            s matches MapStep::Call { req } ==> (req is MapView || req is ReleaseHandle),
            // success comes only out of a successful mapping call
            s matches MapStep::Done { result: Ok((addr, handle)) } ==> ({
                &&& old(self).state matches OpenState::MapPending { handle: h } && h == handle
                &&& reply matches Reply::Address { addr: a } && a == addr
            }),
            // every reported failure is an OpenError carrying the native code
            s matches MapStep::Done { result: Err(e) } ==> e is OpenError,
            old(self).state is Start ==> (reply matches Reply::Failed { code } ==> (
                s == (MapStep::Done { result: Err(ShmError::OpenError { code }) })
            )),
    {
        let out: MapStep;
        match self.state {
            OpenState::Start => match reply {
                Reply::Handle { handle } => {
                    self.state = OpenState::MapPending { handle };
                    out = MapStep::Call { req: Req::MapView { handle, size: self.size } };
                },
                Reply::Failed { code } => {
                    self.state = OpenState::Finished;
                    out = MapStep::Done { result: Err(ShmError::OpenError { code }) };
                },
                _ => {
                    proof { assert(false); }
                    self.state = OpenState::Finished;
                    out = MapStep::Done { result: Err(ShmError::OpenError { code: 0 }) };
                },
            },
            OpenState::MapPending { handle } => match reply {
                Reply::Address { addr } => {
                    self.state = OpenState::Finished;
                    out = MapStep::Done { result: Ok((addr, handle)) };
                },
                Reply::Failed { code } => {
                    self.state = OpenState::RollbackRelease { handle, code };
                    out = MapStep::Call { req: Req::ReleaseHandle { handle } };
                },
                _ => {
                    proof { assert(false); }
                    self.state = OpenState::Finished;
                    out = MapStep::Done { result: Err(ShmError::OpenError { code: 0 }) };
                },
            },
            OpenState::RollbackRelease { handle, code } => {
                self.state = OpenState::Finished;
                out = MapStep::Done { result: Err(ShmError::OpenError { code }) };
            },
            OpenState::Finished => {
                proof { assert(false); }
                out = MapStep::Done { result: Err(ShmError::OpenError { code: 0 }) };
            },
        }
        out
    }
}

// ---------------------------------------------------------------------------
// destroy
// ---------------------------------------------------------------------------

/// Where a `destroy` stands between native calls.
#[derive(Clone, Copy, Debug, PartialEq, Eq, Structural)]
pub enum DestroyState {
    /// The first call is pending: `RemoveName` on POSIX, `OpenObject` on
    /// Windows.
    Start,
    /// Windows only: a handle to the doomed object was opened;
    /// `ReleaseHandle` is pending so the system reclaims the object once
    /// every other handle is closed too.
    ClosePending { handle: usize },
    /// The operation is over.
    Finished,
}

/// The machine behind `destroy(id)`: on POSIX an explicit, immediate
/// unlink of the name; on Windows an open of the name followed by a close,
/// relying on the system's reference-counted teardown — so a Windows
/// destroy takes full effect only once all other open handles are closed.
pub struct DestroyFlow {
    pub platform: Platform,
    pub state: DestroyState,
}

/// The call a non-finished `destroy` machine is waiting on.
pub open spec fn destroy_pending(f: DestroyFlow) -> Req {
    match f.state {
        DestroyState::Start => match f.platform {
            Platform::Posix => Req::RemoveName,
            Platform::Windows => Req::OpenObject,
        },
        DestroyState::ClosePending { handle } => Req::ReleaseHandle { handle },
        DestroyState::Finished => Req::RemoveName,  // unreachable: excluded by contracts
    }
}

/// The state a `destroy` machine moves to on a reply.
pub open spec fn destroy_next(f: DestroyFlow, reply: Reply) -> DestroyState {
    match f.state {
        DestroyState::Start => match (f.platform, reply) {
            (Platform::Windows, Reply::Handle { handle }) => DestroyState::ClosePending {
                handle,
            },
            _ => DestroyState::Finished,
        },
        _ => DestroyState::Finished,
    }
}

/// What a `destroy` machine asks of its driver on a reply.
pub open spec fn destroy_out(f: DestroyFlow, reply: Reply) -> DestroyStep {
    match f.state {
        DestroyState::Start => match f.platform {
            Platform::Posix => match reply {
                Reply::Accepted => DestroyStep::Done { result: Ok(()) },
                Reply::Failed { code } => DestroyStep::Done {
                    result: Err(ShmError::DestroyError { code }),
                },
                _ => DestroyStep::Done { result: Err(ShmError::DestroyError { code: 0 }) },
            },
            Platform::Windows => match reply {
                Reply::Handle { handle } => DestroyStep::Call {
                    req: Req::ReleaseHandle { handle },
                },
                Reply::Failed { code } => DestroyStep::Done {
                    result: Err(ShmError::DestroyError { code }),
                },
                _ => DestroyStep::Done { result: Err(ShmError::DestroyError { code: 0 }) },
            },
        },
        DestroyState::ClosePending { .. } => match reply {
            Reply::Accepted => DestroyStep::Done { result: Ok(()) },
            Reply::Failed { code } => DestroyStep::Done {
                result: Err(ShmError::DestroyError { code }),
            },
            _ => DestroyStep::Done { result: Err(ShmError::DestroyError { code: 0 }) },
        },
        DestroyState::Finished => DestroyStep::Done {
            result: Err(ShmError::DestroyError { code: 0 }),
        },
    }
}

impl DestroyFlow {
    /// Starts a `destroy` of a named segment; the returned request is the
    /// first native call to perform.
    pub fn begin(platform: Platform) -> (r: (DestroyFlow, Req))
        ensures
            r.0 == (DestroyFlow { platform, state: DestroyState::Start }),
            platform is Posix ==> r.1 == Req::RemoveName,
            platform is Windows ==> r.1 == Req::OpenObject,
    {
        match platform {
            Platform::Posix => (
                DestroyFlow { platform, state: DestroyState::Start },
                Req::RemoveName,
            ),
            Platform::Windows => (
                DestroyFlow { platform, state: DestroyState::Start },
                Req::OpenObject,
            ),
        }
    }

    /// Absorbs the outcome of the pending call and says what to do next.
    ///
    /// Every failure is a `DestroyError` carrying the native code; in
    /// particular a name that was never created, or already destroyed,
    /// fails the first call and surfaces here.
    pub fn resume(&mut self, reply: Reply) -> (s: DestroyStep)
        requires
            !(old(self).state is Finished),
            reply_matches(destroy_pending(*old(self)), reply),
        ensures
            final(self).platform == old(self).platform,
            final(self).state == destroy_next(*old(self), reply),
            s == destroy_out(*old(self), reply),
            s matches DestroyStep::Done { result: Err(e) } ==> e is DestroyError,
            reply matches Reply::Failed { code } ==> (
                s == (DestroyStep::Done { result: Err(ShmError::DestroyError { code }) })
            ),
    {
        let out: DestroyStep;
        match self.state {
            DestroyState::Start => match self.platform {
                Platform::Posix => match reply {
                    Reply::Accepted => {
                        self.state = DestroyState::Finished;
                        out = DestroyStep::Done { result: Ok(()) };
                    },
                    Reply::Failed { code } => {
                        self.state = DestroyState::Finished;
                        out = DestroyStep::Done {
                            result: Err(ShmError::DestroyError { code }),
                        };
                    },
                    _ => {
                        proof { assert(false); }
                        self.state = DestroyState::Finished;
                        out = DestroyStep::Done {
                            result: Err(ShmError::DestroyError { code: 0 }),
                        };
                    },
                },
                Platform::Windows => match reply {
                    Reply::Handle { handle } => {
                        self.state = DestroyState::ClosePending { handle };
                        out = DestroyStep::Call { req: Req::ReleaseHandle { handle } };
                    },
                    Reply::Failed { code } => {
                        self.state = DestroyState::Finished;
                        out = DestroyStep::Done {
                            result: Err(ShmError::DestroyError { code }),
                        };
                    },
                    _ => {
                        proof { assert(false); }
                        self.state = DestroyState::Finished;
                        out = DestroyStep::Done {
                            result: Err(ShmError::DestroyError { code: 0 }),
                        };
                    },
                },
            },
            DestroyState::ClosePending { .. } => match reply {
                Reply::Accepted => {
                    self.state = DestroyState::Finished;
                    out = DestroyStep::Done { result: Ok(()) };
                },
                Reply::Failed { code } => {
                    self.state = DestroyState::Finished;
                    out = DestroyStep::Done { result: Err(ShmError::DestroyError { code }) };
                },
                _ => {
                    proof { assert(false); }
                    self.state = DestroyState::Finished;
                    out = DestroyStep::Done { result: Err(ShmError::DestroyError { code: 0 }) };
                },
            },
            DestroyState::Finished => {
                proof { assert(false); }
                out = DestroyStep::Done { result: Err(ShmError::DestroyError { code: 0 }) };
            },
        }
        out
    }
}

// ---------------------------------------------------------------------------
// unmap and close
// ---------------------------------------------------------------------------

/// The single native call behind `unmap(addr, size)`.
pub fn unmap_request(addr: usize, size: usize) -> (r: Req)
    ensures
        r == (Req::UnmapView { addr, size }),
{
    Req::UnmapView { addr, size }
}

/// The result of `unmap`, from the outcome of its one native call: after
/// an accepted unmap the address must never be read or written again.
pub fn unmap_outcome(reply: Reply) -> (r: Result<(), ShmError>)
    requires
        reply is Accepted || reply is Failed,
    ensures
        reply is Accepted ==> r == Ok::<(), ShmError>(()),
        reply matches Reply::Failed { code } ==> (
            r == Err::<(), ShmError>(ShmError::UnmapError { code })
        ),
{
    match reply {
        Reply::Failed { code } => Err(ShmError::UnmapError { code }),
        _ => Ok(()),
    }
}

/// The single native call behind `close(handle)`.
pub fn close_request(handle: usize) -> (r: Req)
    ensures
        r == (Req::ReleaseHandle { handle }),
{
    Req::ReleaseHandle { handle }
}

/// The result of `close`, from the outcome of its one native call: the
/// process-local handle is released; the named object itself is not
/// removed (though on Windows the system reclaims the object once its
/// last handle anywhere is closed).
pub fn close_outcome(reply: Reply) -> (r: Result<(), ShmError>)
    requires
        reply is Accepted || reply is Failed,
    ensures
        reply is Accepted ==> r == Ok::<(), ShmError>(()),
        reply matches Reply::Failed { code } ==> (
            r == Err::<(), ShmError>(ShmError::CloseError { code })
        ),
{
    match reply {
        Reply::Failed { code } => Err(ShmError::CloseError { code }),
        _ => Ok(()),
    }
}

} // verus!
