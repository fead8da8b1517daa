use yclass_memflow::ranges::Module;
use yclass_memflow::session::{
    yc_detach, CanReadError, Session, ATTACH_ACCEPTED, ATTACH_REJECTED,
};

/// A backend that knows some pids, lists the same modules for each of them
/// and counts how often it was asked for them.
struct StubBackend {
    pids: Vec<u32>,
    modules: Option<Vec<Module>>,
    module_queries: usize,
}

fn stub(pids: Vec<u32>, modules: Vec<Module>) -> StubBackend {
    StubBackend { pids, modules: Some(modules), module_queries: 0 }
}

fn attach(backend: &StubBackend, session: &mut Session<u32>, pid: u32) -> u32 {
    let resolved = if backend.pids.contains(&pid) { Some(pid) } else { None };
    session.attach_resolved(resolved)
}

fn can_read(
    backend: &mut StubBackend,
    session: &mut Session<u32>,
    address: u64,
) -> Result<bool, CanReadError> {
    let modules = if session.needs_modules() {
        backend.module_queries += 1;
        backend.modules.clone()
    } else {
        None
    };
    session.can_read_with(modules, address)
}

#[test]
fn new_session_is_detached() {
    let mut session: Session<u32> = Session::new();
    assert!(!session.is_attached());
    assert!(!session.needs_modules());
    assert_eq!(session.can_read_with(None, 0x1000), Err(CanReadError::NotAttached));
}

#[test]
fn attach_status_codes() {
    assert_eq!(ATTACH_ACCEPTED, 1);
    assert_eq!(ATTACH_REJECTED, 0);
}

#[test]
fn attach_then_can_read_inside_and_outside_a_module() {
    let mut backend = stub(
        vec![7],
        vec![Module { base: 0x10000, size: 0x800 }, Module { base: 0x40000, size: 0x1 }],
    );
    let mut session = Session::new();
    assert_eq!(attach(&backend, &mut session, 7), ATTACH_ACCEPTED);
    assert!(session.is_attached());
    assert!(session.needs_modules());
    assert_eq!(can_read(&mut backend, &mut session, 0x10400), Ok(true));
    assert_eq!(can_read(&mut backend, &mut session, 0x40001), Ok(true));
    assert_eq!(can_read(&mut backend, &mut session, 0x0ffff), Ok(false));
    assert_eq!(can_read(&mut backend, &mut session, 0x10801), Ok(false));
    assert_eq!(can_read(&mut backend, &mut session, 0x40002), Ok(false));
}

#[test]
fn attach_to_an_unknown_pid_is_rejected_and_changes_nothing() {
    let mut backend = stub(vec![7], vec![Module { base: 0x1000, size: 0x10 }]);
    let mut session = Session::new();
    assert_eq!(attach(&backend, &mut session, 8), ATTACH_REJECTED);
    assert!(!session.is_attached());
    assert_eq!(can_read(&mut backend, &mut session, 0x1000), Err(CanReadError::NotAttached));

    assert_eq!(attach(&backend, &mut session, 7), ATTACH_ACCEPTED);
    assert_eq!(can_read(&mut backend, &mut session, 0x1000), Ok(true));
    assert_eq!(attach(&backend, &mut session, 8), ATTACH_REJECTED);
    assert!(session.is_attached());
    assert!(!session.needs_modules());
    assert_eq!(can_read(&mut backend, &mut session, 0x1000), Ok(true));
}

#[test]
fn boundary_inclusion() {
    let mut backend = stub(vec![1], vec![Module { base: 0x1000, size: 0x10 }]);
    let mut session = Session::new();
    assert_eq!(attach(&backend, &mut session, 1), ATTACH_ACCEPTED);
    assert_eq!(can_read(&mut backend, &mut session, 0x1000), Ok(true));
    assert_eq!(can_read(&mut backend, &mut session, 0x1010), Ok(true));
    assert_eq!(can_read(&mut backend, &mut session, 0x1011), Ok(false));
    assert_eq!(can_read(&mut backend, &mut session, 0x0fff), Ok(false));
}

#[test]
fn end_to_end_attach_query_detach() {
    let mut backend = stub(vec![42], vec![Module { base: 0x2000, size: 0x100 }]);
    let mut session = Session::new();
    assert_eq!(attach(&backend, &mut session, 42), ATTACH_ACCEPTED);
    assert_eq!(can_read(&mut backend, &mut session, 0x2050), Ok(true));
    assert_eq!(can_read(&mut backend, &mut session, 0x3000), Ok(false));
    yc_detach(&mut session);
    assert_eq!(can_read(&mut backend, &mut session, 0x2050), Err(CanReadError::NotAttached));
    assert_eq!(can_read(&mut backend, &mut session, 0x3000), Err(CanReadError::NotAttached));
}

#[test]
fn detach_then_attach_reads_the_new_module_list_only() {
    let mut backend = stub(vec![5], vec![Module { base: 0x1000, size: 0x100 }]);
    let mut session = Session::new();
    assert_eq!(attach(&backend, &mut session, 5), ATTACH_ACCEPTED);
    assert_eq!(can_read(&mut backend, &mut session, 0x1080), Ok(true));
    assert_eq!(can_read(&mut backend, &mut session, 0x8080), Ok(false));

    yc_detach(&mut session);
    backend.modules = Some(vec![Module { base: 0x8000, size: 0x100 }]);

    assert_eq!(attach(&backend, &mut session, 5), ATTACH_ACCEPTED);
    assert!(session.needs_modules());
    assert_eq!(can_read(&mut backend, &mut session, 0x8080), Ok(true));
    assert_eq!(can_read(&mut backend, &mut session, 0x1080), Ok(false));
    assert_eq!(backend.module_queries, 2);
}

#[test]
fn attach_again_without_detach_keeps_the_cached_ranges() {
    let mut backend = stub(vec![5, 6], vec![Module { base: 0x1000, size: 0x100 }]);
    let mut session = Session::new();
    assert_eq!(attach(&backend, &mut session, 5), ATTACH_ACCEPTED);
    assert_eq!(can_read(&mut backend, &mut session, 0x1080), Ok(true));

    backend.modules = Some(vec![Module { base: 0x8000, size: 0x100 }]);
    assert_eq!(attach(&backend, &mut session, 6), ATTACH_ACCEPTED);
    assert!(!session.needs_modules());
    assert_eq!(can_read(&mut backend, &mut session, 0x1080), Ok(true));
    assert_eq!(can_read(&mut backend, &mut session, 0x8080), Ok(false));
    assert_eq!(backend.module_queries, 1);
}

#[test]
fn detach_twice_is_the_same_as_once() {
    let mut backend = stub(vec![3], vec![Module { base: 0x1000, size: 0x10 }]);
    let mut session = Session::new();
    assert_eq!(attach(&backend, &mut session, 3), ATTACH_ACCEPTED);
    assert_eq!(can_read(&mut backend, &mut session, 0x1000), Ok(true));

    yc_detach(&mut session);
    assert!(!session.is_attached());
    assert!(!session.needs_modules());
    assert_eq!(session.can_read_with(None, 0x1000), Err(CanReadError::NotAttached));

    yc_detach(&mut session);
    assert!(!session.is_attached());
    assert!(!session.needs_modules());
    assert_eq!(session.can_read_with(None, 0x1000), Err(CanReadError::NotAttached));
}

#[test]
fn detach_of_a_new_session_changes_nothing() {
    let mut session: Session<u32> = Session::new();
    yc_detach(&mut session);
    assert!(!session.is_attached());
    session.detach();
    assert!(!session.is_attached());
    assert!(!session.needs_modules());
}

#[test]
fn modules_are_queried_once_per_attachment() {
    let mut backend = stub(
        vec![9],
        vec![Module { base: 0x1000, size: 0x10 }, Module { base: 0x7000, size: 0x1000 }],
    );
    let mut session = Session::new();
    assert_eq!(attach(&backend, &mut session, 9), ATTACH_ACCEPTED);
    assert_eq!(backend.module_queries, 0);
    for address in 0x0f00..0x1200u64 {
        let expected = (0x1000..=0x1010).contains(&address);
        assert_eq!(can_read(&mut backend, &mut session, address), Ok(expected));
        assert_eq!(backend.module_queries, 1);
    }
    yc_detach(&mut session);
    assert_eq!(attach(&backend, &mut session, 9), ATTACH_ACCEPTED);
    assert_eq!(backend.module_queries, 1);
    assert_eq!(can_read(&mut backend, &mut session, 0x7800), Ok(true));
    assert_eq!(can_read(&mut backend, &mut session, 0x7800), Ok(true));
    assert_eq!(backend.module_queries, 2);
}

#[test]
fn cached_ranges_do_not_follow_the_backend() {
    let mut session: Session<u32> = Session::new();
    assert_eq!(session.attach_resolved(Some(1)), ATTACH_ACCEPTED);
    assert_eq!(
        session.can_read_with(Some(vec![Module { base: 0x1000, size: 0x10 }]), 0x1005),
        Ok(true)
    );
    assert_eq!(
        session.can_read_with(Some(vec![Module { base: 0x9000, size: 0x10 }]), 0x9005),
        Ok(false)
    );
    assert_eq!(session.can_read_with(None, 0x1005), Ok(true));
}

#[test]
fn failed_module_query_is_reported_and_tried_again() {
    let mut backend = stub(vec![4], vec![Module { base: 0x1000, size: 0x10 }]);
    let listed = backend.modules.take();
    let mut session = Session::new();
    assert_eq!(attach(&backend, &mut session, 4), ATTACH_ACCEPTED);
    assert_eq!(
        can_read(&mut backend, &mut session, 0x1000),
        Err(CanReadError::ModuleQueryFailed)
    );
    assert!(session.is_attached());
    assert!(session.needs_modules());
    assert_eq!(
        can_read(&mut backend, &mut session, 0x1000),
        Err(CanReadError::ModuleQueryFailed)
    );
    assert_eq!(backend.module_queries, 2);

    backend.modules = listed;
    assert_eq!(can_read(&mut backend, &mut session, 0x1000), Ok(true));
    assert_eq!(can_read(&mut backend, &mut session, 0x1011), Ok(false));
    assert_eq!(backend.module_queries, 3);
}

#[test]
fn process_without_modules_has_no_readable_address() {
    let mut backend = stub(vec![2], Vec::new());
    let mut session = Session::new();
    assert_eq!(attach(&backend, &mut session, 2), ATTACH_ACCEPTED);
    assert_eq!(can_read(&mut backend, &mut session, 0), Ok(false));
    assert_eq!(can_read(&mut backend, &mut session, 0x1000), Ok(false));
    assert_eq!(can_read(&mut backend, &mut session, u64::MAX), Ok(false));
    assert_eq!(backend.module_queries, 1);
}

#[test]
fn module_at_the_top_of_the_address_space() {
    let mut backend = stub(vec![2], vec![Module { base: u64::MAX - 0xff, size: 0x1000 }]);
    let mut session = Session::new();
    assert_eq!(attach(&backend, &mut session, 2), ATTACH_ACCEPTED);
    assert_eq!(can_read(&mut backend, &mut session, u64::MAX), Ok(true));
    assert_eq!(can_read(&mut backend, &mut session, u64::MAX - 0xff), Ok(true));
    assert_eq!(can_read(&mut backend, &mut session, u64::MAX - 0x100), Ok(false));
    assert_eq!(can_read(&mut backend, &mut session, 0), Ok(false));
}
