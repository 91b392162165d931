use shm_adapter::error::ShmError;
use shm_adapter::flow::{
    CreateFlow, OpenFlow, DestroyFlow, MapStep, DestroyStep, Platform, Req, Reply,
    unmap_request, unmap_outcome, close_request, close_outcome,
};

#[test]
fn posix_create_happy_path() {
    let (mut flow, req0) = CreateFlow::begin(Platform::Posix, 4096);
    assert_eq!(req0, Req::CreateObject { size: 4096 });
    let step = flow.resume(Reply::Handle { handle: 5 });
    assert!(matches!(step, MapStep::Call { req: Req::SetSize { handle: 5, size: 4096 } }));
    let step = flow.resume(Reply::Accepted);
    assert!(matches!(step, MapStep::Call { req: Req::MapView { handle: 5, size: 4096 } }));
    let step = flow.resume(Reply::Address { addr: 7 });
    assert!(matches!(step, MapStep::Done { result: Ok((7, 5)) }));
}

#[test]
fn windows_create_happy_path() {
    let (mut flow, req0) = CreateFlow::begin(Platform::Windows, 512);
    assert_eq!(req0, Req::CreateObject { size: 512 });
    let step = flow.resume(Reply::Handle { handle: 3 });
    assert!(matches!(step, MapStep::Call { req: Req::MapView { handle: 3, size: 512 } }));
    let step = flow.resume(Reply::Address { addr: 9 });
    assert!(matches!(step, MapStep::Done { result: Ok((9, 3)) }));
}

#[test]
fn posix_create_rolls_back_on_size_failure() {
    let (mut flow, _req0) = CreateFlow::begin(Platform::Posix, 4096);
    let step = flow.resume(Reply::Handle { handle: 5 });
    assert!(matches!(step, MapStep::Call { req: Req::SetSize { .. } }));
    // the size could not be set: release the handle, unlink the name,
    // and only then report the original failure code
    let step = flow.resume(Reply::Failed { code: 28 });
    assert!(matches!(step, MapStep::Call { req: Req::ReleaseHandle { handle: 5 } }));
    let step = flow.resume(Reply::Accepted);
    assert!(matches!(step, MapStep::Call { req: Req::RemoveName }));
    let step = flow.resume(Reply::Accepted);
    assert!(matches!(
        step,
        MapStep::Done { result: Err(ShmError::CreationError { code: 28 }) }
    ));
}

#[test]
fn posix_create_rolls_back_on_map_failure() {
    let (mut flow, _req0) = CreateFlow::begin(Platform::Posix, 4096);
    flow.resume(Reply::Handle { handle: 4 });
    flow.resume(Reply::Accepted);
    let step = flow.resume(Reply::Failed { code: 12 });
    assert!(matches!(step, MapStep::Call { req: Req::ReleaseHandle { handle: 4 } }));
    let step = flow.resume(Reply::Accepted);
    assert!(matches!(step, MapStep::Call { req: Req::RemoveName }));
    let step = flow.resume(Reply::Accepted);
    assert!(matches!(
        step,
        MapStep::Done { result: Err(ShmError::CreationError { code: 12 }) }
    ));
}

#[test]
fn windows_create_releases_handle_on_map_failure() {
    let (mut flow, _req0) = CreateFlow::begin(Platform::Windows, 4096);
    flow.resume(Reply::Handle { handle: 8 });
    let step = flow.resume(Reply::Failed { code: 5 });
    assert!(matches!(step, MapStep::Call { req: Req::ReleaseHandle { handle: 8 } }));
    // no unlink on this platform: the system reclaims the object itself
    let step = flow.resume(Reply::Accepted);
    assert!(matches!(
        step,
        MapStep::Done { result: Err(ShmError::CreationError { code: 5 }) }
    ));
}

#[test]
fn create_fails_without_cleanup_when_nothing_was_created() {
    let (mut flow, _req0) = CreateFlow::begin(Platform::Posix, 4096);
    let step = flow.resume(Reply::Failed { code: 13 });
    assert!(matches!(
        step,
        MapStep::Done { result: Err(ShmError::CreationError { code: 13 }) }
    ));
}

#[test]
fn open_happy_path() {
    let (mut flow, req0) = OpenFlow::begin(4096);
    assert_eq!(req0, Req::OpenObject);
    let step = flow.resume(Reply::Handle { handle: 6 });
    assert!(matches!(step, MapStep::Call { req: Req::MapView { handle: 6, size: 4096 } }));
    let step = flow.resume(Reply::Address { addr: 11 });
    assert!(matches!(step, MapStep::Done { result: Ok((11, 6)) }));
}

#[test]
fn open_reports_not_found() {
    let (mut flow, _req0) = OpenFlow::begin(4096);
    let step = flow.resume(Reply::Failed { code: 2 });
    match step {
        MapStep::Done { result: Err(e) } => {
            assert!(matches!(e, ShmError::OpenError { code: 2 }));
            assert!(e.is_not_found());
        },
        _ => panic!("an unbound name must end the open"),
    }
}

#[test]
fn open_releases_handle_on_map_failure() {
    let (mut flow, _req0) = OpenFlow::begin(4096);
    flow.resume(Reply::Handle { handle: 6 });
    let step = flow.resume(Reply::Failed { code: 12 });
    assert!(matches!(step, MapStep::Call { req: Req::ReleaseHandle { handle: 6 } }));
    let step = flow.resume(Reply::Accepted);
    assert!(matches!(step, MapStep::Done { result: Err(ShmError::OpenError { code: 12 }) }));
}

#[test]
fn posix_destroy_is_an_unlink() {
    let (mut flow, req0) = DestroyFlow::begin(Platform::Posix);
    assert_eq!(req0, Req::RemoveName);
    let step = flow.resume(Reply::Accepted);
    assert!(matches!(step, DestroyStep::Done { result: Ok(()) }));
}

#[test]
fn posix_destroy_unbound_name_fails() {
    let (mut flow, _req0) = DestroyFlow::begin(Platform::Posix);
    let step = flow.resume(Reply::Failed { code: 2 });
    assert!(matches!(
        step,
        DestroyStep::Done { result: Err(ShmError::DestroyError { code: 2 }) }
    ));
}

#[test]
fn windows_destroy_is_open_then_close() {
    let (mut flow, req0) = DestroyFlow::begin(Platform::Windows);
    assert_eq!(req0, Req::OpenObject);
    let step = flow.resume(Reply::Handle { handle: 2 });
    assert!(matches!(step, DestroyStep::Call { req: Req::ReleaseHandle { handle: 2 } }));
    let step = flow.resume(Reply::Accepted);
    assert!(matches!(step, DestroyStep::Done { result: Ok(()) }));
}

#[test]
fn unmap_and_close_map_their_codes() {
    assert_eq!(unmap_request(42, 4096), Req::UnmapView { addr: 42, size: 4096 });
    assert_eq!(unmap_outcome(Reply::Accepted), Ok(()));
    assert_eq!(
        unmap_outcome(Reply::Failed { code: 22 }),
        Err(ShmError::UnmapError { code: 22 })
    );
    assert_eq!(close_request(7), Req::ReleaseHandle { handle: 7 });
    assert_eq!(close_outcome(Reply::Accepted), Ok(()));
    assert_eq!(
        close_outcome(Reply::Failed { code: 9 }),
        Err(ShmError::CloseError { code: 9 })
    );
}
