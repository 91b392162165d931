//! An executable model of the operating system's shared-memory registry.
//!
//! The model gives the native calls of [`crate::flow`] exact semantics: a
//! registry of named backing objects, process-local handles and mapped
//! views, with the platform divergence the adapter must preserve (POSIX
//! names persist until explicitly unlinked; a Windows object is reclaimed
//! when its last handle closes). A failure can be injected before any
//! chosen upcoming call, so that the adapter's rollback behaviour is
//! exercised and proved on every internal failure point.
//!
//! Byte access to a mapped view is offered only while the mapping is live:
//! the contract of [`ModelOs::read_byte`] and [`ModelOs::write_byte`]
//! forbids touching an address once it has been unmapped.

use vstd::prelude::*;
use crate::error::NOT_FOUND_CODE;
use crate::flow::{Platform, Req, Reply};

verus! {

/// The POSIX `errno` for an invalid handle: `EBADF`.
pub const CODE_BAD_HANDLE: i32 = 9;

/// The POSIX `errno` for an invalid mapping address: `EINVAL`.
pub const CODE_BAD_ADDRESS: i32 = 22;

/// A named backing object. After the name is unbound (POSIX unlink or
/// Windows reclaim) the object's bytes stay reachable through mappings
/// that still exist.
pub struct ModelObject {
    /// Whether the name is still bound to this object.
    pub named: bool,
    /// The rendezvous name the object was created under.
    pub name: Vec<u8>,
    /// The object's bytes, shared by every handle and mapping onto it.
    pub data: Vec<u8>,
}

/// A process-local handle onto a backing object.
pub struct ModelHandle {
    /// Index of the backing object.
    pub obj: usize,
    /// Whether the handle is still open.
    pub open: bool,
}

/// A mapped view of a backing object.
pub struct ModelMapping {
    /// Index of the backing object.
    pub obj: usize,
    /// The size the view was mapped with.
    pub size: usize,
    /// Whether the view is still mapped.
    pub live: bool,
}

/// The model system: a registry of objects, handles and mappings, plus an
/// optional injected failure. Handles and mapped addresses are the indices
/// at which they were issued; entries are never removed, only marked
/// closed or unmapped, so issued values stay distinct.
pub struct ModelOs {
    pub platform: Platform,
    pub objects: Vec<ModelObject>,
    pub handles: Vec<ModelHandle>,
    pub mappings: Vec<ModelMapping>,
    /// Whether a failure is armed.
    pub fail_armed: bool,
    /// How many further calls succeed before the armed failure fires.
    pub fail_after: usize,
    /// The native code the armed failure reports.
    pub fail_code: i32,
}

/// A sequence of `n` zero bytes, the content of a freshly created object.
pub open spec fn zeros(n: nat) -> Seq<u8> {
    Seq::new(n, |i: int| 0u8)
}

/// `data` truncated or zero-extended to `n` bytes, as `ftruncate` leaves
/// an object.
pub open spec fn resized(data: Seq<u8>, n: nat) -> Seq<u8> {
    Seq::new(n, |i: int| if i < data.len() { data[i] } else { 0u8 })
}

/// Whether some object currently bound to `name` exists.
pub open spec fn has_named(os: ModelOs, name: Seq<u8>) -> bool {
    exists|i: int|
        0 <= i < os.objects@.len() && os.objects@[i].named && os.objects@[i].name@ == name
}

/// The index of the object bound to `name` (unique while the system is
/// well-formed).
pub open spec fn named_index(os: ModelOs, name: Seq<u8>) -> int {
    choose|i: int|
        0 <= i < os.objects@.len() && os.objects@[i].named && os.objects@[i].name@ == name
}

/// `h` is an issued, still-open handle.
pub open spec fn valid_handle(os: ModelOs, h: usize) -> bool {
    h < os.handles@.len() && os.handles@[h as int].open
}

/// `addr` is an issued, still-live mapping.
pub open spec fn valid_mapping(os: ModelOs, addr: usize) -> bool {
    addr < os.mappings@.len() && os.mappings@[addr as int].live
}

/// The bytes a live mapping gives access to: the backing object's data.
pub open spec fn mapping_data(os: ModelOs, addr: usize) -> Seq<u8> {
    os.objects@[os.mappings@[addr as int].obj as int].data@
}

/// Some open handle refers to object `obj`.
pub open spec fn any_open_handle(os: ModelOs, obj: int) -> bool {
    exists|j: int|
        0 <= j < os.handles@.len() && os.handles@[j].open && os.handles@[j].obj as int == obj
}

/// Some open handle other than `except` refers to object `obj` (what the
/// Windows reclaim rule asks before unbinding a name).
pub open spec fn other_open_handle(os: ModelOs, except: usize, obj: usize) -> bool {
    exists|j: int|
        0 <= j < os.handles@.len() && j != except && os.handles@[j].open
            && os.handles@[j].obj == obj
}

impl ModelOs {
    /// Well-formedness: handles and mappings refer to existing objects and
    /// at most one object is bound to any name.
    pub open spec fn wf(self) -> bool {
        &&& forall|i: int|
            0 <= i < self.handles@.len() ==> self.handles@[i].obj < self.objects@.len()
        &&& forall|i: int|
            0 <= i < self.mappings@.len() ==> self.mappings@[i].obj < self.objects@.len()
        &&& forall|i: int, j: int|
            0 <= i < self.objects@.len() && 0 <= j < self.objects@.len() && i != j
                && self.objects@[i].named && self.objects@[j].named
                ==> self.objects@[i].name@ != self.objects@[j].name@
    }

    /// A fresh, empty system for the given platform.
    pub fn new(platform: Platform) -> (r: ModelOs)
        ensures
            r.wf(),
            r.platform == platform,
            r.objects@.len() == 0,
            r.handles@.len() == 0,
            r.mappings@.len() == 0,
            !r.fail_armed,
    {
        ModelOs {
            platform,
            objects: Vec::new(),
            handles: Vec::new(),
            mappings: Vec::new(),
            fail_armed: false,
            fail_after: 0,
            fail_code: 0,
        }
    }

    /// Arms an injected failure: the call made `after` calls from now
    /// reports `code` instead of running.
    pub fn arm_failure(&mut self, after: usize, code: i32)
        ensures
            *final(self) == (ModelOs {
                fail_armed: true,
                fail_after: after,
                fail_code: code,
                ..*old(self)
            }),
    {
        self.fail_armed = true;
        self.fail_after = after;
        self.fail_code = code;
    }
}

/// The armed failure fires on the very next call.
pub open spec fn fails_now(os: ModelOs) -> bool {
    os.fail_armed && os.fail_after == 0
}

/// How the failure plan advances over one call when it does not fire.
pub open spec fn fail_plan_stepped(pre: ModelOs, post: ModelOs) -> bool {
    &&& post.fail_armed == pre.fail_armed
    &&& post.fail_code == pre.fail_code
    &&& pre.fail_armed ==> post.fail_after == pre.fail_after - 1
}

/// Decides whether two byte slices hold the same bytes.
pub fn bytes_eq(a: &[u8], b: &[u8]) -> (r: bool)
    ensures
        r == (a@ == b@),
{
    if a.len() != b.len() {
        assert(a@ != b@) by {
            assert(a@.len() != b@.len());
        }
        return false;
    }
    let mut i: usize = 0;
    while i < a.len()
        invariant
            0 <= i <= a@.len(),
            a@.len() == b@.len(),
            forall|j: int| 0 <= j < i ==> a@[j] == b@[j],
        decreases a@.len() - i,
    {
        if a[i] != b[i] {
            return false;
        }
        i += 1;
    }
    assert(a@ =~= b@);
    true
}

/// A vector of `n` zero bytes.
pub fn zeros_vec(n: usize) -> (r: Vec<u8>)
    ensures
        r@ == zeros(n as nat),
{
    let mut out: Vec<u8> = Vec::new();
    let mut i: usize = 0;
    while i < n
        invariant
            0 <= i <= n,
            out@ == zeros(i as nat),
        decreases n - i,
    {
        out.push(0);
        assert(out@ =~= zeros((i + 1) as nat));
        i += 1;
    }
    out
}

/// `data` truncated or zero-extended to `n` bytes.
pub fn resize_bytes(data: &Vec<u8>, n: usize) -> (r: Vec<u8>)
    ensures
        r@ == resized(data@, n as nat),
{
    let mut out: Vec<u8> = Vec::new();
    let mut i: usize = 0;
    while i < n
        invariant
            0 <= i <= n,
            out@ == resized(data@, i as nat).subrange(0, i as int) || out@ == resized(
                data@,
                n as nat,
            ).subrange(0, i as int),
            out@ =~= resized(data@, n as nat).subrange(0, i as int),
        decreases n - i,
    {
        if i < data.len() {
            out.push(data[i]);
        } else {
            out.push(0);
        }
        assert(out@ =~= resized(data@, n as nat).subrange(0, (i + 1) as int));
        i += 1;
    }
    assert(out@ =~= resized(data@, n as nat));
    out
}

impl ModelOs {
    /// Finds the object currently bound to `name`.
    pub fn find_named(&self, name: &[u8]) -> (r: Option<usize>)
        requires
            self.wf(),
        ensures
            match r {
                Some(i) => {
                    &&& i < self.objects@.len()
                    &&& self.objects@[i as int].named
                    &&& self.objects@[i as int].name@ == name@
                    &&& has_named(*self, name@)
                    &&& named_index(*self, name@) == i as int
                },
                None => !has_named(*self, name@),
            },
    {
        let mut i: usize = 0;
        while i < self.objects.len()
            invariant
                0 <= i <= self.objects@.len(),
                self.wf(),
                forall|j: int|
                    0 <= j < i ==> !(self.objects@[j].named && self.objects@[j].name@ == name@),
            decreases self.objects@.len() - i,
        {
            if self.objects[i].named && bytes_eq(self.objects[i].name.as_slice(), name) {
                proof {
                    lemma_named_index_is(*self, name@, i as int);
                }
                return Some(i);
            }
            i += 1;
        }
        None
    }
}

/// The object registry is unchanged.
pub open spec fn same_objects(pre: ModelOs, post: ModelOs) -> bool {
    post.objects@ == pre.objects@
}

/// The handle table is unchanged.
pub open spec fn same_handles(pre: ModelOs, post: ModelOs) -> bool {
    post.handles@ == pre.handles@
}

/// The mapping table is unchanged.
pub open spec fn same_mappings(pre: ModelOs, post: ModelOs) -> bool {
    post.mappings@ == pre.mappings@
}

/// One open handle onto object `obj` was issued; everything else in the
/// handle table is as before.
pub open spec fn pushed_handle(pre: ModelOs, post: ModelOs, obj: int) -> bool {
    &&& post.handles@.len() == pre.handles@.len() + 1
    &&& forall|j: int| 0 <= j < pre.handles@.len() ==> post.handles@[j] == pre.handles@[j]
    &&& post.handles@.last().obj == obj
    &&& post.handles@.last().open
}

/// One live mapping of `size` bytes onto object `obj` was issued;
/// everything else in the mapping table is as before.
pub open spec fn pushed_mapping(pre: ModelOs, post: ModelOs, obj: int, size: nat) -> bool {
    &&& post.mappings@.len() == pre.mappings@.len() + 1
    &&& forall|j: int| 0 <= j < pre.mappings@.len() ==> post.mappings@[j] == pre.mappings@[j]
    &&& post.mappings@.last().obj == obj
    &&& post.mappings@.last().size == size
    &&& post.mappings@.last().live
}

/// Object `i` kept its name and binding but its data became `data`;
/// every other object is as before.
pub open spec fn only_data_changed(pre: ModelOs, post: ModelOs, i: int, data: Seq<u8>) -> bool {
    &&& post.objects@.len() == pre.objects@.len()
    &&& forall|j: int| 0 <= j < pre.objects@.len() && j != i ==> post.objects@[j] == pre.objects@[j]
    &&& post.objects@[i].named == pre.objects@[i].named
    &&& post.objects@[i].name@ == pre.objects@[i].name@
    &&& post.objects@[i].data@ == data
}

/// Object `i` lost its name binding but kept its bytes; every other
/// object is as before.
pub open spec fn only_unbound(pre: ModelOs, post: ModelOs, i: int) -> bool {
    &&& post.objects@.len() == pre.objects@.len()
    &&& forall|j: int| 0 <= j < pre.objects@.len() && j != i ==> post.objects@[j] == pre.objects@[j]
    &&& !post.objects@[i].named
    &&& post.objects@[i].name@ == pre.objects@[i].name@
    &&& post.objects@[i].data@ == pre.objects@[i].data@
}

/// Mapping `addr` went dead but kept its object and size; every other
/// mapping is as before.
pub open spec fn only_unmapped(pre: ModelOs, post: ModelOs, addr: int) -> bool {
    &&& post.mappings@.len() == pre.mappings@.len()
    &&& forall|j: int| 0 <= j < pre.mappings@.len() && j != addr ==> post.mappings@[j]
        == pre.mappings@[j]
    &&& !post.mappings@[addr].live
    &&& post.mappings@[addr].obj == pre.mappings@[addr].obj
    &&& post.mappings@[addr].size == pre.mappings@[addr].size
}

/// Handle `h` went closed but kept its object; every other handle is as
/// before.
pub open spec fn only_closed(pre: ModelOs, post: ModelOs, h: int) -> bool {
    &&& post.handles@.len() == pre.handles@.len()
    &&& forall|j: int| 0 <= j < pre.handles@.len() && j != h ==> post.handles@[j]
        == pre.handles@[j]
    &&& !post.handles@[h].open
    &&& post.handles@[h].obj == pre.handles@[h].obj
}

/// What each native call does to the registry when no failure is
/// injected, and which reply it produces. Semantic failures — an unbound
/// name, a closed handle, a dead mapping — still reply `Failed` with the
/// native code and leave the system unchanged.
pub open spec fn op_post(pre: ModelOs, post: ModelOs, name: Seq<u8>, req: Req, reply: Reply) -> bool {
    match req {
        Req::CreateObject { size } => {
            if has_named(pre, name) {
                // the name is already bound: the call opens the existing
                // object, as creation without exclusivity does natively
                &&& same_objects(pre, post)
                &&& same_mappings(pre, post)
                &&& pushed_handle(pre, post, named_index(pre, name))
                &&& reply matches Reply::Handle { handle: h } && h as nat == pre.handles@.len()
            } else {
                &&& post.objects@.len() == pre.objects@.len() + 1
                &&& forall|j: int| 0 <= j < pre.objects@.len() ==> post.objects@[j]
                    == pre.objects@[j]
                &&& post.objects@.last().named
                &&& post.objects@.last().name@ == name
                &&& (pre.platform is Posix ==> post.objects@.last().data@ == zeros(0))
                &&& (pre.platform is Windows ==> post.objects@.last().data@ == zeros(size as nat))
                &&& pushed_handle(pre, post, pre.objects@.len() as int)
                &&& same_mappings(pre, post)
                &&& reply matches Reply::Handle { handle: h } && h as nat == pre.handles@.len()
            }
        },
        Req::OpenObject => {
            if has_named(pre, name) {
                &&& same_objects(pre, post)
                &&& same_mappings(pre, post)
                &&& pushed_handle(pre, post, named_index(pre, name))
                &&& reply matches Reply::Handle { handle: h } && h as nat == pre.handles@.len()
            } else {
                &&& same_objects(pre, post)
                &&& same_handles(pre, post)
                &&& same_mappings(pre, post)
                &&& reply == (Reply::Failed { code: NOT_FOUND_CODE })
            }
        },
        Req::SetSize { handle, size } => {
            if valid_handle(pre, handle) {
                &&& only_data_changed(
                    pre,
                    post,
                    pre.handles@[handle as int].obj as int,
                    resized(pre.objects@[pre.handles@[handle as int].obj as int].data@, size as nat),
                )
                &&& same_handles(pre, post)
                &&& same_mappings(pre, post)
                &&& reply == Reply::Accepted
            } else {
                &&& same_objects(pre, post)
                &&& same_handles(pre, post)
                &&& same_mappings(pre, post)
                &&& reply == (Reply::Failed { code: CODE_BAD_HANDLE })
            }
        },
        Req::MapView { handle, size } => {
            if valid_handle(pre, handle) {
                &&& same_objects(pre, post)
                &&& same_handles(pre, post)
                &&& pushed_mapping(pre, post, pre.handles@[handle as int].obj as int, size as nat)
                &&& reply matches Reply::Address { addr: a } && a as nat == pre.mappings@.len()
            } else {
                &&& same_objects(pre, post)
                &&& same_handles(pre, post)
                &&& same_mappings(pre, post)
                &&& reply == (Reply::Failed { code: CODE_BAD_HANDLE })
            }
        },
        Req::UnmapView { addr, .. } => {
            if valid_mapping(pre, addr) {
                &&& same_objects(pre, post)
                &&& same_handles(pre, post)
                &&& only_unmapped(pre, post, addr as int)
                &&& reply == Reply::Accepted
            } else {
                &&& same_objects(pre, post)
                &&& same_handles(pre, post)
                &&& same_mappings(pre, post)
                &&& reply == (Reply::Failed { code: CODE_BAD_ADDRESS })
            }
        },
        Req::ReleaseHandle { handle } => {
            if valid_handle(pre, handle) {
                &&& only_closed(pre, post, handle as int)
                &&& same_mappings(pre, post)
                &&& (if pre.platform is Windows && !other_open_handle(
                    pre,
                    handle,
                    pre.handles@[handle as int].obj,
                ) {
                    // the last handle anywhere closed: the system reclaims
                    // the object's name
                    only_unbound(pre, post, pre.handles@[handle as int].obj as int)
                } else {
                    same_objects(pre, post)
                })
                &&& reply == Reply::Accepted
            } else {
                &&& same_objects(pre, post)
                &&& same_handles(pre, post)
                &&& same_mappings(pre, post)
                &&& reply == (Reply::Failed { code: CODE_BAD_HANDLE })
            }
        },
        Req::RemoveName => {
            if has_named(pre, name) {
                &&& only_unbound(pre, post, named_index(pre, name))
                &&& same_handles(pre, post)
                &&& same_mappings(pre, post)
                &&& reply == Reply::Accepted
            } else {
                &&& same_objects(pre, post)
                &&& same_handles(pre, post)
                &&& same_mappings(pre, post)
                &&& reply == (Reply::Failed { code: NOT_FOUND_CODE })
            }
        },
    }
}

/// The full contract of one native call against the model: either the
/// armed failure fires, replying with its code and touching nothing, or
/// the failure plan advances and the call takes effect as [`op_post`]
/// says.
pub open spec fn perform_post(
    pre: ModelOs,
    post: ModelOs,
    name: Seq<u8>,
    req: Req,
    reply: Reply,
) -> bool {
    &&& post.platform == pre.platform
    &&& if fails_now(pre) {
        &&& reply == (Reply::Failed { code: pre.fail_code })
        &&& same_objects(pre, post)
        &&& same_handles(pre, post)
        &&& same_mappings(pre, post)
        &&& !post.fail_armed
    } else {
        &&& fail_plan_stepped(pre, post)
        &&& op_post(pre, post, name, req, reply)
    }
}

impl ModelOs {
    /// Performs one native call on behalf of a driver: `name` is the
    /// segment name the driver is working on, `req` the call one of the
    /// adapter's machines asked for.
    #[verifier::rlimit(60)]
    #[verifier::spinoff_prover]
    pub fn perform(&mut self, name: &[u8], req: Req) -> (reply: Reply)
        requires
            old(self).wf(),
        ensures
            final(self).wf(),
            perform_post(*old(self), *final(self), name@, req, reply),
            crate::flow::reply_matches(req, reply),
    {
        if self.fail_armed && self.fail_after == 0 {
            self.fail_armed = false;
            return Reply::Failed { code: self.fail_code };
        }
        let reply: Reply = match req {
            Req::CreateObject { size } => {
                match self.find_named(name) {
                    Some(i) => {
                        let h = self.handles.len();
                        self.handles.push(ModelHandle { obj: i, open: true });
                        Reply::Handle { handle: h }
                    },
                    None => {
                        let data = match self.platform {
                            Platform::Posix => Vec::new(),
                            Platform::Windows => zeros_vec(size),
                        };
                        let oi = self.objects.len();
                        let stored_name = vstd::slice::slice_to_vec(name);
                        self.objects.push(ModelObject { named: true, name: stored_name, data });
                        let h = self.handles.len();
                        self.handles.push(ModelHandle { obj: oi, open: true });
                        assert(zeros(0) =~= Seq::<u8>::empty());
                        Reply::Handle { handle: h }
                    },
                }
            },
            Req::OpenObject => {
                match self.find_named(name) {
                    Some(i) => {
                        let h = self.handles.len();
                        self.handles.push(ModelHandle { obj: i, open: true });
                        Reply::Handle { handle: h }
                    },
                    None => Reply::Failed { code: NOT_FOUND_CODE },
                }
            },
            Req::SetSize { handle, size } => {
                if handle < self.handles.len() && self.handles[handle].open {
                    let oi = self.handles[handle].obj;
                    let new_data = resize_bytes(&self.objects[oi].data, size);
                    self.objects[oi].data = new_data;
                    Reply::Accepted
                } else {
                    Reply::Failed { code: CODE_BAD_HANDLE }
                }
            },
            Req::MapView { handle, size } => {
                if handle < self.handles.len() && self.handles[handle].open {
                    let oi = self.handles[handle].obj;
                    let a = self.mappings.len();
                    self.mappings.push(ModelMapping { obj: oi, size, live: true });
                    Reply::Address { addr: a }
                } else {
                    Reply::Failed { code: CODE_BAD_HANDLE }
                }
            },
            Req::UnmapView { addr, .. } => {
                if addr < self.mappings.len() && self.mappings[addr].live {
                    self.mappings[addr].live = false;
                    Reply::Accepted
                } else {
                    Reply::Failed { code: CODE_BAD_ADDRESS }
                }
            },
            Req::ReleaseHandle { handle } => {
                if handle < self.handles.len() && self.handles[handle].open {
                    let oi = self.handles[handle].obj;
                    let windows = match self.platform {
                        Platform::Windows => true,
                        Platform::Posix => false,
                    };
                    let reclaim = windows && !self.has_other_open(handle, oi);
                    self.handles[handle].open = false;
                    if reclaim {
                        self.objects[oi].named = false;
                    }
                    Reply::Accepted
                } else {
                    Reply::Failed { code: CODE_BAD_HANDLE }
                }
            },
            Req::RemoveName => {
                match self.find_named(name) {
                    Some(i) => {
                        self.objects[i].named = false;
                        Reply::Accepted
                    },
                    None => Reply::Failed { code: NOT_FOUND_CODE },
                }
            },
        };
        if self.fail_armed {
            self.fail_after = self.fail_after - 1;
        }
        reply
    }

    /// Whether some open handle other than `except` refers to object
    /// `obj`, before any change from the current call.
    fn has_other_open(&self, except: usize, obj: usize) -> (r: bool)
        ensures
            r == other_open_handle(*self, except, obj),
    {
        let mut j: usize = 0;
        while j < self.handles.len()
            invariant
                0 <= j <= self.handles@.len(),
                forall|k: int|
                    0 <= k < j ==> !(k != except as int && self.handles@[k].open
                        && self.handles@[k].obj == obj),
            decreases self.handles@.len() - j,
        {
            if j != except && self.handles[j].open && self.handles[j].obj == obj {
                return true;
            }
            j += 1;
        }
        false
    }

    /// Reads one byte through a live mapping. The contract demands a live
    /// mapping: once `unmap` has accepted an address, no call on it is
    /// admitted any more.
    pub fn read_byte(&self, addr: usize, off: usize) -> (b: u8)
        requires
            self.wf(),
            valid_mapping(*self, addr),
            off < self.mappings@[addr as int].size,
            off < mapping_data(*self, addr).len(),
        ensures
            b == mapping_data(*self, addr)[off as int],
    {
        let oi = self.mappings[addr].obj;
        self.objects[oi].data[off]
    }

    /// Writes one byte through a live mapping; the write lands in the
    /// backing object, visible through every other mapping of it. The
    /// contract demands a live mapping: once `unmap` has accepted an
    /// address, no call on it is admitted any more.
    pub fn write_byte(&mut self, addr: usize, off: usize, val: u8)
        requires
            old(self).wf(),
            valid_mapping(*old(self), addr),
            off < old(self).mappings@[addr as int].size,
            off < mapping_data(*old(self), addr).len(),
        ensures
            final(self).wf(),
            final(self).platform == old(self).platform,
            same_handles(*old(self), *final(self)),
            same_mappings(*old(self), *final(self)),
            final(self).fail_armed == old(self).fail_armed,
            final(self).fail_after == old(self).fail_after,
            final(self).fail_code == old(self).fail_code,
            only_data_changed(
                *old(self),
                *final(self),
                old(self).mappings@[addr as int].obj as int,
                mapping_data(*old(self), addr).update(off as int, val),
            ),
            mapping_data(*final(self), addr) == mapping_data(*old(self), addr).update(off as int, val),
    {
        let oi = self.mappings[addr].obj;
        self.objects[oi].data[off] = val;
    }
}

/// `base` with its leading bytes overwritten by `data`.
pub open spec fn overwritten(base: Seq<u8>, data: Seq<u8>) -> Seq<u8> {
    Seq::new(base.len(), |i: int| if i < data.len() { data[i] } else { base[i] })
}

/// What writing `data` at the start of the live mapping `addr` does to
/// the system: the bytes land in the backing object, and nothing else
/// moves.
pub open spec fn write_post(pre: ModelOs, post: ModelOs, addr: usize, data: Seq<u8>) -> bool {
    &&& post.platform == pre.platform
    &&& same_handles(pre, post)
    &&& same_mappings(pre, post)
    &&& post.fail_armed == pre.fail_armed
    &&& post.fail_after == pre.fail_after
    &&& post.fail_code == pre.fail_code
    &&& only_data_changed(
        pre,
        post,
        pre.mappings@[addr as int].obj as int,
        overwritten(mapping_data(pre, addr), data),
    )
    &&& mapping_data(post, addr) == overwritten(mapping_data(pre, addr), data)
}

impl ModelOs {
    /// Writes `data` at offset zero through a live mapping, as the byte
    /// pattern of a freshly created segment is written. The contract
    /// demands a live mapping large enough for the pattern.
    pub fn write_bytes(&mut self, addr: usize, data: &Vec<u8>)
        requires
            old(self).wf(),
            valid_mapping(*old(self), addr),
            data@.len() <= old(self).mappings@[addr as int].size,
            data@.len() <= mapping_data(*old(self), addr).len(),
        ensures
            final(self).wf(),
            write_post(*old(self), *final(self), addr, data@),
    {
        let ghost orig = mapping_data(*old(self), addr);
        proof {
            assert(overwritten(orig, data@.subrange(0, 0)) =~= orig);
        }
        let mut i: usize = 0;
        while i < data.len()
            invariant
                self.wf(),
                0 <= i <= data@.len(),
                valid_mapping(*self, addr),
                data@.len() <= self.mappings@[addr as int].size,
                data@.len() <= mapping_data(*self, addr).len(),
                self.platform == old(self).platform,
                same_handles(*old(self), *self),
                same_mappings(*old(self), *self),
                self.fail_armed == old(self).fail_armed,
                self.fail_after == old(self).fail_after,
                self.fail_code == old(self).fail_code,
                orig == mapping_data(*old(self), addr),
                only_data_changed(
                    *old(self),
                    *self,
                    old(self).mappings@[addr as int].obj as int,
                    overwritten(orig, data@.subrange(0, i as int)),
                ),
                mapping_data(*self, addr) == overwritten(orig, data@.subrange(0, i as int)),
            decreases data@.len() - i,
        {
            self.write_byte(addr, i, data[i]);
            proof {
                assert(overwritten(orig, data@.subrange(0, i as int)).update(
                    i as int,
                    data@[i as int],
                ) =~= overwritten(orig, data@.subrange(0, (i + 1) as int)));
            }
            i += 1;
        }
        proof {
            assert(data@.subrange(0, data@.len() as int) =~= data@);
            assert(overwritten(orig, data@.subrange(0, data@.len() as int)) =~= overwritten(
                orig,
                data@,
            ));
        }
    }
}

/// In a well-formed system, an object bound to `name` at index `i` is the
/// object `named_index` picks.
pub proof fn lemma_named_index_is(os: ModelOs, name: Seq<u8>, i: int)
    requires
        os.wf(),
        0 <= i < os.objects@.len(),
        os.objects@[i].named,
        os.objects@[i].name@ == name,
    ensures
        has_named(os, name),
        named_index(os, name) == i,
{
    assert(has_named(os, name));
    let c = named_index(os, name);
    assert(0 <= c < os.objects@.len() && os.objects@[c].named && os.objects@[c].name@ == name);
    if c != i {
        assert(os.objects@[i].name@ != os.objects@[c].name@);
    }
}

} // verus!
