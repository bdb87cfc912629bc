use bytes::Bytes;
use dstore::error::{ErrorKind, Fault};
use dstore::wire::{Reply, Request};
use dstore::{Failure, Global, Local, Missing, Pending, Step, Success, MAX_BYTE_SIZE};

/// Runs an operation against a coordinator in the same process and counts
/// the requests it sends.
fn drive(global: &mut Global, local: &mut Local, first: Step, calls: &mut usize) -> Result<Success, Failure> {
    let mut step = first;
    loop {
        match step {
            Step::Done(result) => return result,
            Step::Call(request, pending) => {
                *calls += 1;
                let reply = global.serve(request);
                step = local.resume(pending, reply);
            }
        }
    }
}

fn joined(global: &mut Global, addr: &str) -> Local {
    let reply = global.serve(Local::join(addr));
    Local::new(addr, &reply).unwrap()
}

fn insert(global: &mut Global, local: &mut Local, key: &'static str, value: Bytes) -> Result<Success, Failure> {
    let first = local.insert(Bytes::from(key), value);
    drive(global, local, first, &mut 0)
}

fn get(global: &mut Global, local: &mut Local, key: &'static str, calls: &mut usize) -> Result<Success, Failure> {
    let first = local.get(&Bytes::from(key));
    drive(global, local, first, calls)
}

fn remove(global: &mut Global, local: &mut Local, key: &'static str) -> Result<Success, Failure> {
    let first = local.remove(&Bytes::from(key));
    drive(global, local, first, &mut 0)
}

fn drain(global: &mut Global, local: &mut Local) -> usize {
    let mut calls = 0;
    let first = local.update();
    let result = drive(global, local, first, &mut calls);
    assert!(matches!(result, Ok(Success::Drained)));
    calls
}

fn value_of(result: Result<Success, Failure>) -> (Bytes, bool) {
    match result {
        Ok(Success::Value { value, fetched }) => (value, fetched),
        other => panic!("no value: {:?}", other),
    }
}

fn unreachable_fault() -> Fault {
    Fault { kind: ErrorKind::CoordinatorUnreachable, message: "connection lost".to_string() }
}

#[test]
fn push_to_global_test() {
    let mut global = Global::new();
    let local_addr = "[::1]:50052";
    let mut local = joined(&mut global, local_addr);

    let key = Bytes::from("hello");
    let value = Bytes::from("world");
    let first = local.insert(key.clone(), value.clone());
    assert!(matches!(drive(&mut global, &mut local, first, &mut 0), Ok(Success::Stored)));
    let first = local.get(&key);
    let (val, _) = value_of(drive(&mut global, &mut local, first, &mut 0));
    assert_eq!(val, &value);
    assert_eq!(global.pull(b"hello"), Ok(b"world".to_vec()));
}

#[test]
fn join_request_carries_the_address() {
    assert_eq!(Local::join("[::1]:50052"), Request::Join(b"[::1]:50052".to_vec()));
}

#[test]
fn new_keeps_the_address() {
    let local = Local::new("n1", &Reply::Null).unwrap();
    assert_eq!(local.addr, "n1");
}

#[test]
fn failed_join_makes_no_node() {
    let reply = Reply::Failed(unreachable_fault());
    let fault = Local::new("n1", &reply).err().unwrap();
    assert_eq!(fault.kind, ErrorKind::JoinFailed);
    assert_eq!(fault.message, "Couldn't join cluster");
}

#[test]
fn cached_value_is_read_without_a_request() {
    let mut global = Global::new();
    let mut n1 = joined(&mut global, "n1");
    assert!(matches!(insert(&mut global, &mut n1, "k", Bytes::from("v")), Ok(Success::Stored)));
    let mut calls = 0;
    let (value, fetched) = value_of(get(&mut global, &mut n1, "k", &mut calls));
    assert_eq!(value, Bytes::from("v"));
    assert!(!fetched);
    assert_eq!(calls, 0);
}

#[test]
fn insert_asks_then_writes() {
    let mut global = Global::new();
    let mut n1 = joined(&mut global, "n1");
    let mut calls = 0;
    let first = n1.insert(Bytes::from("k"), Bytes::from("v"));
    assert!(matches!(drive(&mut global, &mut n1, first, &mut calls), Ok(Success::Stored)));
    assert_eq!(calls, 2);
    assert_eq!(global.pull(b"k"), Ok(b"v".to_vec()));
}

#[test]
fn read_through_fills_the_other_cache_and_drain_empties_it() {
    let mut global = Global::new();
    let mut n1 = joined(&mut global, "n1");
    let mut n2 = joined(&mut global, "n2");
    insert(&mut global, &mut n1, "k", Bytes::from("v")).unwrap();

    let mut calls = 0;
    let (value, fetched) = value_of(get(&mut global, &mut n2, "k", &mut calls));
    assert_eq!(value, Bytes::from("v"));
    assert!(fetched);
    assert_eq!(calls, 2);
    let mut calls = 0;
    let (value, fetched) = value_of(get(&mut global, &mut n2, "k", &mut calls));
    assert_eq!(value, Bytes::from("v"));
    assert!(!fetched);
    assert_eq!(calls, 0);

    assert!(matches!(remove(&mut global, &mut n1, "k"), Ok(Success::Removed)));
    // Until it drains, the other node still answers from its cache.
    let mut calls = 0;
    let (stale, _) = value_of(get(&mut global, &mut n2, "k", &mut calls));
    assert_eq!(stale, Bytes::from("v"));
    assert_eq!(calls, 0);

    assert_eq!(drain(&mut global, &mut n2), 2);
    let mut calls = 0;
    assert!(matches!(get(&mut global, &mut n2, "k", &mut calls), Err(Failure::NotFound)));
    assert_eq!(calls, 1);
}

#[test]
fn remove_leaves_the_cache_to_the_drain() {
    let mut global = Global::new();
    let mut n1 = joined(&mut global, "n1");
    insert(&mut global, &mut n1, "k", Bytes::from("v")).unwrap();
    assert!(matches!(remove(&mut global, &mut n1, "k"), Ok(Success::Removed)));
    let mut calls = 0;
    let (value, fetched) = value_of(get(&mut global, &mut n1, "k", &mut calls));
    assert_eq!(value, Bytes::from("v"));
    assert!(!fetched);
    assert_eq!(drain(&mut global, &mut n1), 2);
    assert!(matches!(get(&mut global, &mut n1, "k", &mut calls), Err(Failure::NotFound)));
}

#[test]
fn drain_evicts_every_listed_key_and_no_other() {
    let mut global = Global::new();
    let mut n1 = joined(&mut global, "n1");
    let mut n2 = joined(&mut global, "n2");
    for key in ["a", "b", "c"] {
        insert(&mut global, &mut n1, key, Bytes::from("v")).unwrap();
        get(&mut global, &mut n2, key, &mut 0).unwrap();
    }
    remove(&mut global, &mut n1, "a").unwrap();
    remove(&mut global, &mut n1, "c").unwrap();
    assert_eq!(drain(&mut global, &mut n2), 3);
    assert_eq!(drain(&mut global, &mut n2), 1);
    let mut calls = 0;
    assert!(matches!(get(&mut global, &mut n2, "a", &mut calls), Err(Failure::NotFound)));
    assert!(matches!(get(&mut global, &mut n2, "c", &mut calls), Err(Failure::NotFound)));
    assert_eq!(calls, 2);
    let (value, fetched) = value_of(get(&mut global, &mut n2, "b", &mut calls));
    assert_eq!(value, Bytes::from("v"));
    assert!(!fetched);
    assert_eq!(calls, 2);
}

#[test]
fn drain_stops_on_any_failure() {
    let mut n1 = Local::new("n1", &Reply::Null).unwrap();
    let step = n1.resume(Pending::Drain, Reply::Failed(unreachable_fault()));
    assert!(matches!(step, Step::Done(Ok(Success::Drained))));
    match n1.update() {
        Step::Call(request, Pending::Drain) => assert_eq!(request, Request::Update(b"n1".to_vec())),
        other => panic!("{:?}", other),
    }
}

#[test]
fn big_value_crosses_as_a_stream() {
    let mut global = Global::new();
    let mut n1 = joined(&mut global, "n1");
    let mut n2 = joined(&mut global, "n2");
    let big: Vec<u8> = (0..2 * MAX_BYTE_SIZE + 17).map(|i| (i % 253) as u8).collect();
    let big = Bytes::from(big);
    assert!(matches!(insert(&mut global, &mut n1, "big", big.clone()), Ok(Success::Stored)));
    let mut calls = 0;
    let (value, fetched) = value_of(get(&mut global, &mut n2, "big", &mut calls));
    assert!(value == big);
    assert!(fetched);
    assert_eq!(calls, 2);
}

#[test]
fn second_insert_refreshes_the_cache() {
    let mut global = Global::new();
    let mut n1 = joined(&mut global, "n1");
    let mut n2 = joined(&mut global, "n2");
    insert(&mut global, &mut n1, "k", Bytes::from("v1")).unwrap();
    assert!(matches!(
        insert(&mut global, &mut n2, "k", Bytes::from("v2")),
        Err(Failure::KeyOccupiedLocalRefreshed)
    ));
    let mut calls = 0;
    let (value, fetched) = value_of(get(&mut global, &mut n2, "k", &mut calls));
    assert_eq!(value, Bytes::from("v1"));
    assert!(!fetched);
    assert_eq!(calls, 0);
    assert_eq!(global.pull(b"k"), Ok(b"v1".to_vec()));
}

#[test]
fn second_insert_of_a_big_value_refreshes_by_stream() {
    let mut global = Global::new();
    let mut n1 = joined(&mut global, "n1");
    let mut n2 = joined(&mut global, "n2");
    let big = Bytes::from(vec![7u8; MAX_BYTE_SIZE + 1]);
    insert(&mut global, &mut n1, "k", big.clone()).unwrap();
    let first = n2.insert(Bytes::from("k"), Bytes::from("small"));
    let (request, pending) = match first {
        Step::Call(request, pending) => (request, pending),
        other => panic!("{:?}", other),
    };
    let reply = global.serve(request);
    assert_eq!(reply, Reply::Size((MAX_BYTE_SIZE + 1) as i32));
    let (request, pending) = match n2.resume(pending, reply) {
        Step::Call(request, pending) => (request, pending),
        other => panic!("{:?}", other),
    };
    assert_eq!(request, Request::PullFile(b"k".to_vec()));
    let reply = global.serve(request);
    assert!(matches!(n2.resume(pending, reply), Step::Done(Err(Failure::KeyOccupiedLocalRefreshed))));
    let (value, _) = value_of(get(&mut global, &mut n2, "k", &mut 0));
    assert!(value == big);
}

#[test]
fn insert_of_a_cached_key_is_refused() {
    let mut global = Global::new();
    let mut n1 = joined(&mut global, "n1");
    insert(&mut global, &mut n1, "k", Bytes::from("v")).unwrap();
    let mut calls = 0;
    let first = n1.insert(Bytes::from("k"), Bytes::from("w"));
    assert!(matches!(drive(&mut global, &mut n1, first, &mut calls), Err(Failure::KeyOccupied)));
    assert_eq!(calls, 0);
    let first = n1.insert_single(Bytes::from("k"), Bytes::from("w"));
    assert!(matches!(first, Step::Done(Err(Failure::KeyOccupied))));
    let first = n1.insert_file(Bytes::from("k"), Bytes::from("w"));
    assert!(matches!(first, Step::Done(Err(Failure::KeyOccupied))));
}

fn write_request(value: Bytes) -> Request {
    let mut n1 = Local::new("n1", &Reply::Null).unwrap();
    let pending = match n1.insert(Bytes::from("k"), value) {
        Step::Call(request, pending) => {
            assert_eq!(request, Request::Contains(b"k".to_vec()));
            pending
        }
        other => panic!("{:?}", other),
    };
    let not_found = Fault { kind: ErrorKind::NotFound, message: "Value doesn't exist".to_string() };
    match n1.resume(pending, Reply::Failed(not_found)) {
        Step::Call(request, Pending::InsertWrite { .. }) => request,
        other => panic!("{:?}", other),
    }
}

#[test]
fn value_of_one_frame_is_pushed_whole() {
    let value = vec![1u8; MAX_BYTE_SIZE];
    match write_request(Bytes::from(value.clone())) {
        Request::Push(key, sent) => {
            assert_eq!(key, b"k".to_vec());
            assert!(sent == value);
        }
        other => panic!("{:?}", other),
    }
}

#[test]
fn value_of_one_byte_more_is_pushed_in_two_frames() {
    let value = vec![1u8; MAX_BYTE_SIZE + 1];
    match write_request(Bytes::from(value)) {
        Request::PushFile(frames) => {
            assert_eq!(frames.len(), 3);
            assert_eq!(frames[0], b"k".to_vec());
            assert_eq!(frames[1].len(), MAX_BYTE_SIZE);
            assert_eq!(frames[2].len(), 1);
        }
        other => panic!("{:?}", other),
    }
}

#[test]
fn empty_value_is_pushed_whole_and_read_back_empty() {
    assert_eq!(write_request(Bytes::new()), Request::Push(b"k".to_vec(), Vec::new()));
    let mut global = Global::new();
    let mut n1 = joined(&mut global, "n1");
    let mut n2 = joined(&mut global, "n2");
    insert(&mut global, &mut n1, "k", Bytes::new()).unwrap();
    let (value, fetched) = value_of(get(&mut global, &mut n2, "k", &mut 0));
    assert!(value.is_empty());
    assert!(fetched);
}

#[test]
fn insert_file_streams_even_a_small_value() {
    let n1 = Local::new("n1", &Reply::Null).unwrap();
    match n1.insert_file(Bytes::from("k"), Bytes::from("v")) {
        Step::Call(_, Pending::InsertProbe { streamed, .. }) => assert!(streamed),
        other => panic!("{:?}", other),
    }
    match n1.insert_single(Bytes::from("k"), Bytes::from("v")) {
        Step::Call(_, Pending::InsertProbe { streamed, .. }) => assert!(!streamed),
        other => panic!("{:?}", other),
    }
    let mut global = Global::new();
    let mut n1 = joined(&mut global, "n1");
    let first = n1.insert_file(Bytes::from("k"), Bytes::from("v"));
    assert!(matches!(drive(&mut global, &mut n1, first, &mut 0), Ok(Success::Stored)));
    assert_eq!(global.pull(b"k"), Ok(b"v".to_vec()));
}

#[test]
fn failed_write_is_a_coordinator_error_and_caches_nothing() {
    let mut n1 = Local::new("n1", &Reply::Null).unwrap();
    let pending = Pending::InsertWrite { key: Bytes::from("k"), value: Bytes::from("v") };
    let fault = Fault { kind: ErrorKind::AlreadyExists, message: "Key already in use".to_string() };
    match n1.resume(pending, Reply::Failed(fault.clone())) {
        Step::Done(Err(Failure::Coordinator(said))) => assert_eq!(said, fault),
        other => panic!("{:?}", other),
    }
    assert!(matches!(n1.get(&Bytes::from("k")), Step::Call(_, _)));
}

#[test]
fn get_of_an_unknown_key_is_not_found() {
    let mut global = Global::new();
    let mut n1 = joined(&mut global, "n1");
    let mut calls = 0;
    assert!(matches!(get(&mut global, &mut n1, "k", &mut calls), Err(Failure::NotFound)));
    assert_eq!(calls, 1);
}

#[test]
fn get_chooses_the_read_by_the_reported_size() {
    let mut n1 = Local::new("n1", &Reply::Null).unwrap();
    let probe = || Pending::GetProbe { key: Bytes::from("k") };
    match n1.resume(probe(), Reply::Size(MAX_BYTE_SIZE as i32)) {
        Step::Call(request, _) => assert_eq!(request, Request::Pull(b"k".to_vec())),
        other => panic!("{:?}", other),
    }
    match n1.resume(probe(), Reply::Size(MAX_BYTE_SIZE as i32 + 1)) {
        Step::Call(request, _) => assert_eq!(request, Request::PullFile(b"k".to_vec())),
        other => panic!("{:?}", other),
    }
    match n1.resume(probe(), Reply::Size(0)) {
        Step::Call(request, _) => assert_eq!(request, Request::Pull(b"k".to_vec())),
        other => panic!("{:?}", other),
    }
    match n1.resume(probe(), Reply::Size(-1)) {
        Step::Call(request, _) => assert_eq!(request, Request::PullFile(b"k".to_vec())),
        other => panic!("{:?}", other),
    }
}

#[test]
fn get_single_and_get_file_skip_the_size() {
    let mut global = Global::new();
    let mut n1 = joined(&mut global, "n1");
    let mut n2 = joined(&mut global, "n2");
    let mut n3 = joined(&mut global, "n3");
    insert(&mut global, &mut n1, "k", Bytes::from("v")).unwrap();
    let mut calls = 0;
    let first = n2.get_single(&Bytes::from("k"));
    let (value, fetched) = value_of(drive(&mut global, &mut n2, first, &mut calls));
    assert_eq!((value, fetched, calls), (Bytes::from("v"), true, 1));
    let mut calls = 0;
    let first = n3.get_file(&Bytes::from("k"));
    let (value, fetched) = value_of(drive(&mut global, &mut n3, first, &mut calls));
    assert_eq!((value, fetched, calls), (Bytes::from("v"), true, 1));
    let first = n3.get_file(&Bytes::from("k"));
    assert!(matches!(first, Step::Done(Ok(Success::Value { fetched: false, .. }))));
    let first = n2.get_single(&Bytes::from("missing"));
    assert!(matches!(drive(&mut global, &mut n2, first, &mut 0), Err(Failure::NotFound)));
}

#[test]
fn coordinator_lost_mid_stream_exposes_no_value() {
    let mut n1 = Local::new("n1", &Reply::Null).unwrap();
    let pending = Pending::GetRead { key: Bytes::from("big") };
    match n1.resume(pending, Reply::Failed(unreachable_fault())) {
        Step::Done(Err(Failure::Coordinator(fault))) => {
            assert_eq!(fault.kind, ErrorKind::CoordinatorUnreachable)
        }
        other => panic!("{:?}", other),
    }
    assert!(matches!(n1.get(&Bytes::from("big")), Step::Call(_, _)));
}

#[test]
fn stream_without_frames_is_a_coordinator_error() {
    let mut n1 = Local::new("n1", &Reply::Null).unwrap();
    let pending = Pending::GetRead { key: Bytes::from("k") };
    match n1.resume(pending, Reply::Stream(Vec::new())) {
        Step::Done(Err(Failure::Coordinator(fault))) => {
            assert_eq!(fault.kind, ErrorKind::MalformedStream)
        }
        other => panic!("{:?}", other),
    }
}

#[test]
fn stream_for_another_key_is_refused() {
    let mut n1 = Local::new("n1", &Reply::Null).unwrap();
    let pending = Pending::GetRead { key: Bytes::from("k") };
    let reply = Reply::Stream(vec![b"other".to_vec(), b"v".to_vec()]);
    match n1.resume(pending, reply) {
        Step::Done(Err(Failure::Coordinator(fault))) => {
            assert_eq!(fault.kind, ErrorKind::Internal);
            assert_eq!(fault.message, "Stream for another key");
        }
        other => panic!("{:?}", other),
    }
    assert!(matches!(n1.get(&Bytes::from("k")), Step::Call(_, _)));
}

#[test]
fn reply_that_does_not_fit_is_refused() {
    let mut n1 = Local::new("n1", &Reply::Null).unwrap();
    let pending = Pending::GetProbe { key: Bytes::from("k") };
    match n1.resume(pending, Reply::Null) {
        Step::Done(Err(Failure::Coordinator(fault))) => {
            assert_eq!(fault.kind, ErrorKind::Internal);
            assert_eq!(fault.message, "Unexpected reply");
        }
        other => panic!("{:?}", other),
    }
    let pending = Pending::InsertWrite { key: Bytes::from("k"), value: Bytes::from("v") };
    assert!(matches!(n1.resume(pending, Reply::Size(3)), Step::Done(Err(Failure::Coordinator(_)))));
    let pending = Pending::InsertRead { key: Bytes::from("k") };
    assert!(matches!(n1.resume(pending, Reply::Null), Step::Done(Err(Failure::Coordinator(_)))));
}

#[test]
fn get_passes_other_failures_on() {
    let mut n1 = Local::new("n1", &Reply::Null).unwrap();
    let pending = Pending::GetProbe { key: Bytes::from("k") };
    match n1.resume(pending, Reply::Failed(unreachable_fault())) {
        Step::Done(Err(Failure::Coordinator(fault))) => assert_eq!(fault, unreachable_fault()),
        other => panic!("{:?}", other),
    }
}

#[test]
fn remove_names_the_side_that_lacked_the_key() {
    let mut global = Global::new();
    let mut n1 = joined(&mut global, "n1");
    let mut n2 = joined(&mut global, "n2");
    insert(&mut global, &mut n1, "k", Bytes::from("v")).unwrap();
    assert!(matches!(
        remove(&mut global, &mut n2, "k"),
        Err(Failure::Partial(Missing::Local))
    ));
    assert!(matches!(
        remove(&mut global, &mut n1, "k"),
        Err(Failure::Partial(Missing::Coordinator))
    ));
    assert!(matches!(
        remove(&mut global, &mut n2, "k"),
        Err(Failure::Partial(Missing::Both))
    ));
    insert(&mut global, &mut n2, "j", Bytes::from("v")).unwrap();
    assert!(matches!(remove(&mut global, &mut n2, "j"), Ok(Success::Removed)));
}

#[test]
fn messages_of_outcomes() {
    assert_eq!(Success::Stored.message(), "Database updated");
    assert_eq!(Success::Removed.message(), "Mappings removed");
    assert_eq!(Success::Drained.message(), "");
    assert_eq!(Success::Value { value: Bytes::new(), fetched: true }.message(), "Updated Local");
    assert_eq!(Success::Value { value: Bytes::new(), fetched: false }.message(), "");
    assert_eq!(Failure::KeyOccupied.to_error().0, "Key occupied!");
    assert_eq!(Failure::KeyOccupiedLocalRefreshed.to_error().0, "Local updated, Key occupied!");
    assert_eq!(Failure::NotFound.to_error().0, "Key-Value mapping doesn't exist");
    assert_eq!(Failure::Coordinator(unreachable_fault()).to_error().0, "Global: connection lost");
    assert_eq!(Failure::Partial(Missing::Coordinator).to_error().0, "Key missing from global!");
    assert_eq!(Failure::Partial(Missing::Local).to_error().0, "Key missing from local!");
    assert_eq!(Failure::Partial(Missing::Both).to_error().0, "Key missing from global and local!");
    assert_eq!(
        Failure::Partial(Missing::Both).to_error().to_string(),
        "dstore error: Key missing from global and local!"
    );
}

#[test]
fn failures_name_their_side() {
    assert!(!Failure::KeyOccupied.from_coordinator());
    assert!(!Failure::Partial(Missing::Local).from_coordinator());
    assert!(Failure::KeyOccupiedLocalRefreshed.from_coordinator());
    assert!(Failure::NotFound.from_coordinator());
    assert!(Failure::Coordinator(unreachable_fault()).from_coordinator());
    assert!(Failure::Partial(Missing::Coordinator).from_coordinator());
    assert!(Failure::Partial(Missing::Both).from_coordinator());
}

#[test]
fn stale_entry_goes_with_the_drain_even_after_the_key_is_back() {
    let mut global = Global::new();
    let mut n1 = joined(&mut global, "n1");
    let mut n2 = joined(&mut global, "n2");
    insert(&mut global, &mut n1, "k", Bytes::from("v1")).unwrap();
    get(&mut global, &mut n2, "k", &mut 0).unwrap();
    remove(&mut global, &mut n1, "k").unwrap();
    drain(&mut global, &mut n1);
    insert(&mut global, &mut n1, "k", Bytes::from("v2")).unwrap();
    // The other node has not drained yet: it still holds the old value.
    let (stale, fetched) = value_of(get(&mut global, &mut n2, "k", &mut 0));
    assert_eq!((stale, fetched), (Bytes::from("v1"), false));
    drain(&mut global, &mut n2);
    let (fresh, fetched) = value_of(get(&mut global, &mut n2, "k", &mut 0));
    assert_eq!((fresh, fetched), (Bytes::from("v2"), true));
}
