//! The five adapter operations, run against the model system.
//!
//! Each operation drives its machine from [`crate::flow`] — the same
//! machine a native driver drives — against [`ModelOs::perform`], and its
//! contract states the operation's observable behaviour end to end: when
//! success is owed, which typed error comes back otherwise, and exactly
//! how the registry changes. In particular `create` is proved
//! all-or-nothing over every internal failure point: whichever call the
//! injected failure knocks out, a failed `create` of an unbound name
//! leaves the name unbound.

use vstd::prelude::*;
use crate::error::{ShmError, NOT_FOUND_CODE};
use crate::flow::{CreateFlow, OpenFlow, DestroyFlow, MapStep, DestroyStep, Platform, Req};
use crate::flow::{unmap_request, unmap_outcome, close_request, close_outcome};
use crate::model::{ModelOs, resized, pushed_handle, pushed_mapping, has_named, named_index, valid_handle, valid_mapping, mapping_data, zeros, only_unbound, other_open_handle, any_open_handle, same_objects, same_handles, same_mappings, only_closed, only_unmapped, lemma_named_index_is, CODE_BAD_ADDRESS, CODE_BAD_HANDLE};
use crate::name::valid_name;

verus! {

use vstd::string::StringSliceAdditionalSpecFns;

/// What `create(size, id)` does to the system.
pub open spec fn create_post(
    pre: ModelOs,
    post: ModelOs,
    name: Seq<u8>,
    size: nat,
    r: Result<(usize, usize), ShmError>,
) -> bool {
    &&& post.platform == pre.platform
    &&& r matches Err(e) ==> e is CreationError
    // success is owed whenever no failure is injected
    &&& !pre.fail_armed ==> r is Ok && !post.fail_armed
    // all-or-nothing: a failed create of an unbound name leaves it unbound
    &&& r is Err && !has_named(pre, name) ==> !has_named(post, name)
    // any success hands back a live mapping of the asked size and an open
    // handle onto the same object
    &&& r matches Ok((addr, h)) ==> ({
        &&& valid_mapping(post, addr)
        &&& valid_handle(post, h)
        &&& post.mappings@[addr as int].size == size
        &&& post.mappings@[addr as int].obj == post.handles@[h as int].obj
    })
    // creating an already-bound name opens the existing object, as the
    // native calls without exclusivity do: on POSIX its bytes are resized
    // to the asked size, on Windows they are left as they are
    &&& r matches Ok((addr, h)) ==> has_named(pre, name) ==> ({
        &&& post.mappings@[addr as int].obj as int == named_index(pre, name)
        &&& pre.platform is Posix ==> post.objects@[named_index(pre, name)].data@ == resized(
            pre.objects@[named_index(pre, name)].data@,
            size,
        )
        &&& pre.platform is Windows ==> same_objects(pre, post)
    })
    // a fresh success binds the name to a new zeroed object of the asked
    // size, mapped and held by the returned pair
    &&& r matches Ok((addr, h)) ==> !has_named(pre, name) ==> ({
        &&& has_named(post, name)
        &&& post.objects@[named_index(post, name)].data@ == zeros(size)
        &&& post.handles@[h as int].obj as int == named_index(post, name)
        &&& post.mappings@[addr as int].obj as int == named_index(post, name)
        &&& mapping_data(post, addr) == zeros(size)
    })
}

/// Creates a new named backing object of `size` bytes, zero-initialized,
/// and maps it fully with read-and-write access. If any internal step
/// fails, every resource the call already created is rolled back before
/// the `CreationError` is reported, so no orphaned named object survives.
#[verifier::rlimit(100)]
#[verifier::spinoff_prover]
pub fn create(os: &mut ModelOs, size: usize, id: &str) -> (r: Result<(usize, usize), ShmError>)
    requires
        old(os).wf(),
        valid_name(id),
    ensures
        final(os).wf(),
        create_post(*old(os), *final(os), id.spec_bytes(), size as nat, r),
{
    let name: &[u8] = id.as_bytes();
    let platform = os.platform;
    let ghost s0 = *os;
    let (mut flow, req0) = CreateFlow::begin(platform, size);

    let reply0 = os.perform(name, req0);
    let ghost s1 = *os;
    let step0 = flow.resume(reply0);
    let req1 = match step0 {
        MapStep::Done { result } => {
            return result;
        },
        MapStep::Call { req } => req,
    };

    proof {
        // the name request went through, so the name is now bound: to the
        // fresh object, or to the one it was already bound to
        if !has_named(s0, name@) {
            lemma_named_index_is(s1, name@, s0.objects@.len() as int);
        } else {
            lemma_named_index_is(s1, name@, named_index(s0, name@));
        }
    }

    let reply1 = os.perform(name, req1);
    let ghost s2 = *os;
    let step1 = flow.resume(reply1);
    let req2 = match step1 {
        MapStep::Done { result } => {
            proof {
                lemma_name_stable(s1, s2, name@);
            }
            return result;
        },
        MapStep::Call { req } => req,
    };

    proof {
        lemma_name_stable(s1, s2, name@);
    }

    let reply2 = os.perform(name, req2);
    let ghost s3 = *os;
    let step2 = flow.resume(reply2);
    let req3 = match step2 {
        MapStep::Done { result } => {
            proof {
                match platform {
                    Platform::Posix => {
                        // a successful mapping; no binding moved, and the
                        // fresh object's bytes were zero-extended in place
                        lemma_name_stable(s2, s3, name@);
                        assert(resized(zeros(0), size as nat) =~= zeros(size as nat));
                    },
                    Platform::Windows => {
                        // the rollback released the handle; if this create
                        // made the object, that was its only handle and the
                        // system reclaimed the name
                        if !has_named(s0, name@) {
                            let oi: usize = s0.objects.len();
                            let h0: usize = match req2 {
                                Req::ReleaseHandle { handle } => handle,
                                _ => arbitrary(),
                            };
                            assert(h0 == s0.handles@.len());
                            assert forall|j: int|
                                0 <= j < s2.handles@.len() && j != h0 as int implies !(
                            s2.handles@[j].open && s2.handles@[j].obj == oi) by {
                                assert(s2.handles@[j] == s0.handles@[j]);
                                assert(s0.handles@[j].obj < s0.objects@.len());
                            };
                            assert(!other_open_handle(s2, h0, oi));
                            assert(only_unbound(s2, s3, oi as int));
                            lemma_remove_unnames(s2, s3, name@);
                        }
                    },
                }
            }
            return result;
        },
        MapStep::Call { req } => req,
    };

    proof {
        lemma_name_stable(s2, s3, name@);
    }

    let reply3 = os.perform(name, req3);
    let ghost s4 = *os;
    let step3 = flow.resume(reply3);
    let req4 = match step3 {
        MapStep::Done { result } => {
            proof {
                // the rollback's unlink ran last: the name is unbound again
                lemma_remove_unnames(s3, s4, name@);
            }
            return result;
        },
        MapStep::Call { req } => req,
    };

    proof {
        lemma_name_stable(s3, s4, name@);
    }

    let reply4 = os.perform(name, req4);
    let ghost s5 = *os;
    let step4 = flow.resume(reply4);
    match step4 {
        MapStep::Done { result } => {
            proof {
                // the rollback's unlink ran last: the name is unbound again
                lemma_remove_unnames(s4, s5, name@);
            }
            result
        },
        MapStep::Call { .. } => {
            // the create machine issues at most five calls
            proof {
                assert(false);
            }
            Err(ShmError::CreationError { code: 0 })
        },
    }
}

/// What `open(size, id)` does to the system.
pub open spec fn open_post(
    pre: ModelOs,
    post: ModelOs,
    name: Seq<u8>,
    size: nat,
    r: Result<(usize, usize), ShmError>,
) -> bool {
    &&& post.platform == pre.platform
    &&& r matches Err(e) ==> e is OpenError
    &&& !pre.fail_armed ==> !post.fail_armed
    // success is owed on a bound name, not-found on an unbound one
    &&& !pre.fail_armed && has_named(pre, name) ==> r is Ok
    &&& !pre.fail_armed && !has_named(pre, name) ==> r == Err::<(usize, usize), ShmError>(
        ShmError::OpenError { code: NOT_FOUND_CODE },
    )
    // open creates, resizes, zeroes and removes nothing
    &&& pre.platform is Posix ==> same_objects(pre, post)
    &&& r matches Ok((addr, h)) ==> ({
        &&& has_named(pre, name)
        &&& same_objects(pre, post)
        &&& pushed_handle(pre, post, named_index(pre, name))
        &&& pushed_mapping(pre, post, named_index(pre, name), size)
        &&& valid_handle(post, h)
        &&& post.handles@[h as int].obj as int == named_index(pre, name)
        &&& valid_mapping(post, addr)
        &&& post.mappings@[addr as int].obj as int == named_index(pre, name)
        &&& post.mappings@[addr as int].size == size
        &&& mapping_data(post, addr) == pre.objects@[named_index(pre, name)].data@
    })
}

/// Opens a pre-existing named object and maps `size` bytes of it with
/// read-and-write access. It does not create, resize or zero anything;
/// an unbound name is reported as a not-found `OpenError`, and on a
/// failed mapping the handle this call acquired is released again.
#[verifier::rlimit(90)]
#[verifier::spinoff_prover]
pub fn open(os: &mut ModelOs, size: usize, id: &str) -> (r: Result<(usize, usize), ShmError>)
    requires
        old(os).wf(),
        valid_name(id),
    ensures
        final(os).wf(),
        open_post(*old(os), *final(os), id.spec_bytes(), size as nat, r),
{
    let name: &[u8] = id.as_bytes();
    let ghost s0 = *os;
    let (mut flow, req0) = OpenFlow::begin(size);

    let reply0 = os.perform(name, req0);
    let ghost s1 = *os;
    let step0 = flow.resume(reply0);
    let req1 = match step0 {
        MapStep::Done { result } => {
            return result;
        },
        MapStep::Call { req } => req,
    };

    let reply1 = os.perform(name, req1);
    let ghost s2 = *os;
    let step1 = flow.resume(reply1);
    let req2 = match step1 {
        MapStep::Done { result } => {
            return result;
        },
        MapStep::Call { req } => req,
    };

    let reply2 = os.perform(name, req2);
    let ghost s3 = *os;
    let step2 = flow.resume(reply2);
    match step2 {
        MapStep::Done { result } => result,
        MapStep::Call { .. } => {
            // the open machine issues at most three calls
            proof {
                assert(false);
            }
            Err(ShmError::OpenError { code: 0 })
        },
    }
}

/// What `unmap(addr, size)` does to the system.
pub open spec fn unmap_post(
    pre: ModelOs,
    post: ModelOs,
    addr: usize,
    r: Result<(), ShmError>,
) -> bool {
    &&& post.platform == pre.platform
    &&& r matches Err(e) ==> e is UnmapError
    &&& !pre.fail_armed ==> !post.fail_armed
    // success is owed on a live mapping; a dead or never-issued address is
    // rejected with the native code for an invalid address
    &&& !pre.fail_armed && valid_mapping(pre, addr) ==> r is Ok
    &&& !pre.fail_armed && !valid_mapping(pre, addr) ==> r == Err::<(), ShmError>(
        ShmError::UnmapError { code: CODE_BAD_ADDRESS },
    )
    &&& same_objects(pre, post)
    &&& same_handles(pre, post)
    // after a successful unmap the address is dead: the byte-access
    // contract admits no further read or write through it
    &&& r is Ok ==> valid_mapping(pre, addr) && only_unmapped(pre, post, addr as int)
        && !valid_mapping(post, addr)
    &&& r is Err ==> same_mappings(pre, post)
}

/// Removes the region at `addr` from the address space. The bytes behind
/// the backing object survive; the address itself must never be read or
/// written again.
pub fn unmap(os: &mut ModelOs, addr: usize, size: usize) -> (r: Result<(), ShmError>)
    requires
        old(os).wf(),
    ensures
        final(os).wf(),
        unmap_post(*old(os), *final(os), addr, r),
{
    let req = unmap_request(addr, size);
    let no_name: Vec<u8> = Vec::new();
    let reply = os.perform(no_name.as_slice(), req);
    unmap_outcome(reply)
}

/// What `close(handle)` does to the system.
pub open spec fn close_post(
    pre: ModelOs,
    post: ModelOs,
    h: usize,
    r: Result<(), ShmError>,
) -> bool {
    &&& post.platform == pre.platform
    &&& r matches Err(e) ==> e is CloseError
    &&& !pre.fail_armed ==> !post.fail_armed
    // success is owed on an open handle; a closed or never-issued handle
    // is rejected with the native code for an invalid handle
    &&& !pre.fail_armed && valid_handle(pre, h) ==> r is Ok
    &&& !pre.fail_armed && !valid_handle(pre, h) ==> r == Err::<(), ShmError>(
        ShmError::CloseError { code: CODE_BAD_HANDLE },
    )
    &&& same_mappings(pre, post)
    // closing never removes the named object on POSIX; on Windows the
    // system reclaims the object's name once its last handle closes
    &&& pre.platform is Posix ==> same_objects(pre, post)
    &&& r is Ok ==> valid_handle(pre, h) && only_closed(pre, post, h as int) && !valid_handle(
        post,
        h,
    )
    &&& r is Err ==> same_handles(pre, post) && same_objects(pre, post)
}

/// Releases the process-local handle. The named object itself is not
/// removed (though on Windows the system reclaims it once its last handle
/// anywhere is closed).
pub fn close(os: &mut ModelOs, handle: usize) -> (r: Result<(), ShmError>)
    requires
        old(os).wf(),
    ensures
        final(os).wf(),
        close_post(*old(os), *final(os), handle, r),
{
    let req = close_request(handle);
    let no_name: Vec<u8> = Vec::new();
    let reply = os.perform(no_name.as_slice(), req);
    close_outcome(reply)
}

/// What `destroy(id)` does to the system.
pub open spec fn destroy_post(
    pre: ModelOs,
    post: ModelOs,
    name: Seq<u8>,
    r: Result<(), ShmError>,
) -> bool {
    &&& post.platform == pre.platform
    &&& r matches Err(e) ==> e is DestroyError
    &&& !pre.fail_armed ==> !post.fail_armed
    // success is owed on a bound name; a name never created, or already
    // destroyed, is rejected with the native not-found code
    &&& !pre.fail_armed && has_named(pre, name) ==> r is Ok
    &&& !pre.fail_armed && !has_named(pre, name) ==> r == Err::<(), ShmError>(
        ShmError::DestroyError { code: NOT_FOUND_CODE },
    )
    &&& same_mappings(pre, post)
    // on Windows destruction rides on reference-counted teardown: it takes
    // effect only once no other handle onto the object stays open
    &&& pre.platform is Windows ==> r is Ok ==> has_named(pre, name) ==> ({
        &&& !any_open_handle(pre, named_index(pre, name)) ==> !has_named(post, name)
        &&& any_open_handle(pre, named_index(pre, name)) ==> has_named(post, name)
    })
    // on POSIX the unlink is explicit and immediate: the name is unbound
    // at once, while existing handles and mappings stay untouched
    &&& pre.platform is Posix ==> ({
        &&& same_handles(pre, post)
        &&& r is Ok ==> has_named(pre, name) && only_unbound(pre, post, named_index(pre, name))
            && !has_named(post, name)
        &&& r is Err ==> same_objects(pre, post)
    })
}

/// Removes the named object from the system. On POSIX this is an explicit,
/// immediate unlink: no future `open` finds the name, while existing
/// mappings stay valid until separately unmapped. On Windows it opens a
/// handle to the name and closes it, relying on reference-counted
/// teardown: it takes full effect only once all other open handles across
/// all processes are closed too.
#[verifier::rlimit(90)]
#[verifier::spinoff_prover]
pub fn destroy(os: &mut ModelOs, id: &str) -> (r: Result<(), ShmError>)
    requires
        old(os).wf(),
        valid_name(id),
    ensures
        final(os).wf(),
        destroy_post(*old(os), *final(os), id.spec_bytes(), r),
{
    let name: &[u8] = id.as_bytes();
    let ghost s0 = *os;
    let (mut flow, req0) = DestroyFlow::begin(os.platform);

    let reply0 = os.perform(name, req0);
    let ghost s1 = *os;
    let step0 = flow.resume(reply0);
    let req1 = match step0 {
        DestroyStep::Done { result } => {
            proof {
                if result is Ok && s0.platform is Posix {
                    // the unlink was accepted: the name was bound and is
                    // bound no longer
                    lemma_remove_unnames(s0, s1, name@);
                }
            }
            return result;
        },
        DestroyStep::Call { req } => req,
    };

    let reply1 = os.perform(name, req1);
    let ghost s2 = *os;
    let step1 = flow.resume(reply1);
    match step1 {
        DestroyStep::Done { result } => {
            proof {
                if s0.platform is Windows && result is Ok && has_named(s0, name@) {
                    let oi = named_index(s0, name@);
                    lemma_named_index_is(s1, name@, oi);
                    let hn: usize = match req1 {
                        Req::ReleaseHandle { handle } => handle,
                        _ => arbitrary(),
                    };
                    assert(hn == s0.handles@.len());
                    assert(s1.handles@[hn as int].obj as int == oi);
                    if any_open_handle(s0, oi) {
                        // some other handle keeps the object alive: the
                        // close reclaims nothing and the name survives
                        let j = choose|j: int|
                            0 <= j < s0.handles@.len() && s0.handles@[j].open
                                && s0.handles@[j].obj as int == oi;
                        assert(s1.handles@[j] == s0.handles@[j]);
                        assert(other_open_handle(s1, hn, s1.handles@[hn as int].obj));
                        lemma_name_stable(s1, s2, name@);
                    } else {
                        // the handle this destroy opened was the only one:
                        // closing it reclaims the name
                        assert forall|j: int|
                            0 <= j < s1.handles@.len() && j != hn as int implies !(
                        s1.handles@[j].open && s1.handles@[j].obj as int == oi) by {
                            assert(s1.handles@[j] == s0.handles@[j]);
                        };
                        assert(!other_open_handle(s1, hn, s1.handles@[hn as int].obj));
                        assert(only_unbound(s1, s2, oi));
                        lemma_remove_unnames(s1, s2, name@);
                    }
                }
            }
            result
        },
        DestroyStep::Call { .. } => {
            // the destroy machine issues at most two calls
            proof {
                assert(false);
            }
            Err(ShmError::DestroyError { code: 0 })
        },
    }
}

/// Over one step that leaves every object's binding and name untouched,
/// the object bound to `name` stays where it was.
pub proof fn lemma_name_stable(pre: ModelOs, post: ModelOs, name: Seq<u8>)
    requires
        pre.wf(),
        post.wf(),
        has_named(pre, name),
        post.objects@.len() == pre.objects@.len(),
        forall|j: int|
            0 <= j < pre.objects@.len() ==> post.objects@[j].named == pre.objects@[j].named
                && post.objects@[j].name@ == pre.objects@[j].name@,
    ensures
        has_named(post, name),
        named_index(post, name) == named_index(pre, name),
{
    let i = named_index(pre, name);
    assert(0 <= i < pre.objects@.len() && pre.objects@[i].named && pre.objects@[i].name@ == name);
    lemma_named_index_is(post, name, i);
}

/// Unbinding the named object leaves the name unbound.
pub proof fn lemma_remove_unnames(pre: ModelOs, post: ModelOs, name: Seq<u8>)
    requires
        pre.wf(),
        post.wf(),
        has_named(pre, name),
        only_unbound(pre, post, named_index(pre, name)),
    ensures
        !has_named(post, name),
{
    let oi = named_index(pre, name);
    assert(0 <= oi < pre.objects@.len() && pre.objects@[oi].named && pre.objects@[oi].name@
        == name);
    if has_named(post, name) {
        let k = named_index(post, name);
        assert(0 <= k < post.objects@.len() && post.objects@[k].named && post.objects@[k].name@
            == name);
        assert(k != oi);
        assert(post.objects@[k] == pre.objects@[k]);
        assert(pre.objects@[k].named && pre.objects@[k].name@ == name);
        assert(false);
    }
}

} // verus!
