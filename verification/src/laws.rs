//! The laws the adapter obeys, proved from the operations' contracts.
//!
//! Each law is a proof function whose hypotheses are exactly the
//! operations' postcondition relations ([`crate::adapter`]) over a run of
//! the model system, on a POSIX platform with no injected failure unless
//! the law is precisely about one.

use vstd::prelude::*;
use crate::error::{ShmError, NOT_FOUND_CODE};
use crate::adapter::{create_post, open_post, unmap_post, close_post, destroy_post};
use crate::model::{
    ModelOs, has_named, named_index, valid_mapping, mapping_data, zeros, overwritten, write_post,
    lemma_named_index_is,
};

verus! {

/// Round trip: creating a segment of a valid, unbound name, writing a
/// byte pattern through the returned mapping, unmapping and closing, then
/// opening the same name again yields a mapping whose contents start with
/// the pattern and end with the zeroes the creation left.
pub proof fn law_round_trip(
    s0: ModelOs,
    s1: ModelOs,
    s2: ModelOs,
    s3: ModelOs,
    s4: ModelOs,
    s5: ModelOs,
    name: Seq<u8>,
    size: nat,
    pattern: Seq<u8>,
    addr: usize,
    h: usize,
    addr2: usize,
    h2: usize,
)
    requires
        s0.wf(),
        s1.wf(),
        s2.wf(),
        s3.wf(),
        s4.wf(),
        s5.wf(),
        s0.platform is Posix,
        !s0.fail_armed,
        !has_named(s0, name),
        pattern.len() <= size,
        create_post(s0, s1, name, size, Ok((addr, h))),
        write_post(s1, s2, addr, pattern),
        unmap_post(s2, s3, addr, Ok(())),
        close_post(s3, s4, h, Ok(())),
        open_post(s4, s5, name, size, Ok((addr2, h2))),
    ensures
        mapping_data(s5, addr2).len() == size,
        forall|i: int| 0 <= i < pattern.len() ==> mapping_data(s5, addr2)[i] == pattern[i],
        forall|i: int| pattern.len() <= i < size ==> mapping_data(s5, addr2)[i] == 0u8,
{
    let oi = named_index(s1, name);
    assert(s1.objects@[oi].data@ == zeros(size));
    assert(s1.mappings@[addr as int].obj as int == oi);
    assert(mapping_data(s1, addr) == zeros(size));
    // the pattern landed in the backing object
    assert(s2.objects@[oi].data@ == overwritten(zeros(size), pattern));
    assert(s2.objects@[oi].named && s2.objects@[oi].name@ == name);
    // unmap and close leave every object untouched on this platform
    assert(s4.objects@ == s2.objects@);
    lemma_named_index_is(s4, name, oi);
    // the second open maps the very same object
    assert(mapping_data(s5, addr2) == s4.objects@[oi].data@);
    assert(mapping_data(s5, addr2) == overwritten(zeros(size), pattern));
}

/// The reopen in the round trip is owed success: after a fresh create,
/// unmap and close on a POSIX system the name is still bound, so an open
/// with no injected failure cannot fail.
pub proof fn law_reopen_succeeds(
    s0: ModelOs,
    s1: ModelOs,
    s2: ModelOs,
    s3: ModelOs,
    s4: ModelOs,
    name: Seq<u8>,
    size: nat,
    size2: nat,
    addr: usize,
    h: usize,
    r: Result<(usize, usize), ShmError>,
)
    requires
        s0.wf(),
        s1.wf(),
        s2.wf(),
        s3.wf(),
        s4.wf(),
        s0.platform is Posix,
        !s0.fail_armed,
        !has_named(s0, name),
        create_post(s0, s1, name, size, Ok((addr, h))),
        unmap_post(s1, s2, addr, Ok(())),
        close_post(s2, s3, h, Ok(())),
        open_post(s3, s4, name, size2, r),
    ensures
        r is Ok,
{
    let oi = named_index(s1, name);
    assert(s3.objects@ == s1.objects@);
    lemma_named_index_is(s3, name, oi);
}

/// All-or-nothing create: when a create of an unbound name fails at any
/// internal step, a subsequent open of the same name fails with the
/// not-found `OpenError` — no orphaned named object remains.
pub proof fn law_failed_create_leaves_nothing(
    s0: ModelOs,
    s1: ModelOs,
    s2: ModelOs,
    name: Seq<u8>,
    size: nat,
    size2: nat,
    e: ShmError,
    r2: Result<(usize, usize), ShmError>,
)
    requires
        s0.wf(),
        s1.wf(),
        !has_named(s0, name),
        create_post(s0, s1, name, size, Err(e)),
        !s1.fail_armed,
        open_post(s1, s2, name, size2, r2),
    ensures
        r2 == Err::<(usize, usize), ShmError>(ShmError::OpenError { code: NOT_FOUND_CODE }),
        r2 matches Err(e2) && e2.spec_code() == crate::error::NOT_FOUND_CODE,
{
}

/// Cleanup in order: unmap, then close, then destroy always succeed for a
/// segment this process created and never yet destroyed, and afterwards
/// the name is unbound.
pub proof fn law_cleanup_order(
    s0: ModelOs,
    s1: ModelOs,
    s2: ModelOs,
    s3: ModelOs,
    s4: ModelOs,
    name: Seq<u8>,
    size: nat,
    addr: usize,
    h: usize,
    r_unmap: Result<(), ShmError>,
    r_close: Result<(), ShmError>,
    r_destroy: Result<(), ShmError>,
)
    requires
        s0.wf(),
        s1.wf(),
        s2.wf(),
        s3.wf(),
        s4.wf(),
        s0.platform is Posix,
        !s0.fail_armed,
        !has_named(s0, name),
        create_post(s0, s1, name, size, Ok((addr, h))),
        unmap_post(s1, s2, addr, r_unmap),
        close_post(s2, s3, h, r_close),
        destroy_post(s3, s4, name, r_destroy),
    ensures
        r_unmap is Ok,
        r_close is Ok,
        r_destroy is Ok,
        !has_named(s4, name),
{
    let oi = named_index(s1, name);
    assert(s3.objects@ == s1.objects@);
    lemma_named_index_is(s3, name, oi);
}

/// Destroying a name that was never created, or was already destroyed,
/// fails with a `DestroyError` carrying the native not-found code.
pub proof fn law_destroy_unbound_fails(
    s0: ModelOs,
    s1: ModelOs,
    name: Seq<u8>,
    r: Result<(), ShmError>,
)
    requires
        s0.wf(),
        !s0.fail_armed,
        !has_named(s0, name),
        destroy_post(s0, s1, name, r),
    ensures
        r == Err::<(), ShmError>(ShmError::DestroyError { code: NOT_FOUND_CODE }),
{
}

/// Double-open is safe, first half: two consecutive opens of a bound name
/// both succeed.
pub proof fn law_double_open_succeeds(
    s0: ModelOs,
    s1: ModelOs,
    s2: ModelOs,
    name: Seq<u8>,
    size1: nat,
    size2: nat,
    r1: Result<(usize, usize), ShmError>,
    r2: Result<(usize, usize), ShmError>,
)
    requires
        s0.wf(),
        s1.wf(),
        !s0.fail_armed,
        has_named(s0, name),
        open_post(s0, s1, name, size1, r1),
        open_post(s1, s2, name, size2, r2),
    ensures
        r1 is Ok,
        r2 is Ok,
{
    let oi = named_index(s0, name);
    assert(s1.objects@ == s0.objects@);
    lemma_named_index_is(s1, name, oi);
}

/// Double-open is safe, second half: both mappings view the same backing
/// object, so a write through either is visible through the other.
pub proof fn law_double_open_shares_writes(
    s0: ModelOs,
    s1: ModelOs,
    s2: ModelOs,
    s3: ModelOs,
    name: Seq<u8>,
    size1: nat,
    size2: nat,
    a1: usize,
    h1: usize,
    a2: usize,
    h2: usize,
    pattern: Seq<u8>,
)
    requires
        s0.wf(),
        s1.wf(),
        s2.wf(),
        s3.wf(),
        open_post(s0, s1, name, size1, Ok((a1, h1))),
        open_post(s1, s2, name, size2, Ok((a2, h2))),
        write_post(s2, s3, a1, pattern),
    ensures
        mapping_data(s3, a2) == mapping_data(s3, a1),
        mapping_data(s3, a1) == overwritten(mapping_data(s2, a1), pattern),
{
    let oi = named_index(s0, name);
    assert(s1.objects@ == s0.objects@);
    lemma_named_index_is(s1, name, oi);
    assert(s1.mappings@[a1 as int].obj as int == oi);
    assert(s2.mappings@[a2 as int].obj as int == oi);
    assert(s2.mappings@[a1 as int] == s1.mappings@[a1 as int]);
    assert(s3.objects@[oi].data@ == overwritten(mapping_data(s2, a1), pattern));
}

/// Post-unmap access is forbidden: after a successful unmap the address's
/// mapping is dead, and the byte-access operations, whose contracts demand
/// a live mapping, admit no read or write through it any more.
pub proof fn law_no_access_after_unmap(s0: ModelOs, s1: ModelOs, addr: usize)
    requires
        unmap_post(s0, s1, addr, Ok(())),
    ensures
        valid_mapping(s0, addr),
        !valid_mapping(s1, addr),
{
}

} // verus!
