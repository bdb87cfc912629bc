use bytes::Bytes;
use dstore::error::{ErrorKind, Fault};
use dstore::wire::{Reply, Request};
use dstore::{Global, Queue};

fn push_back(global: &mut Global, key: &'static str, value: &'static str) -> Result<(), String> {
    let reply = global.serve(Queue::push_back(Bytes::from(key), Bytes::from(value)));
    Queue::pushed(reply).map_err(|e| e.0)
}

fn pop_front(global: &mut Global, key: &'static str) -> Result<Bytes, String> {
    let reply = global.serve(Queue::pop_front(Bytes::from(key)));
    Queue::popped(reply).map_err(|e| e.0)
}

#[test]
fn tasks_come_out_in_order() {
    let mut global = Global::new();
    assert_eq!(push_back(&mut global, "tasks", "t1"), Ok(()));
    assert_eq!(push_back(&mut global, "tasks", "t2"), Ok(()));
    assert_eq!(pop_front(&mut global, "tasks"), Ok(Bytes::from("t1")));
    assert_eq!(pop_front(&mut global, "tasks"), Ok(Bytes::from("t2")));
    assert_eq!(pop_front(&mut global, "tasks"), Err("Queue is empty".to_string()));
}

#[test]
fn pop_front_of_a_queue_never_made_fails() {
    let mut global = Global::new();
    assert_eq!(pop_front(&mut global, "tasks"), Err("Queue is empty".to_string()));
}

#[test]
fn queue_requests() {
    assert_eq!(
        Queue::push_back(Bytes::from("q"), Bytes::from("v")),
        Request::EnQueue(b"q".to_vec(), b"v".to_vec())
    );
    assert_eq!(Queue::pop_front(Bytes::from("q")), Request::DeQueue(b"q".to_vec()));
}

#[test]
fn queue_replies() {
    let fault = Fault { kind: ErrorKind::Internal, message: "boom".to_string() };
    assert_eq!(Queue::pushed(Reply::Failed(fault.clone())).unwrap_err().0, "boom");
    assert!(Queue::pushed(Reply::Null).is_ok());
    assert_eq!(Queue::popped(Reply::Failed(fault)).unwrap_err().0, "boom");
    assert_eq!(Queue::popped(Reply::Byte(b"v".to_vec())).unwrap(), Bytes::from("v"));
    assert_eq!(Queue::popped(Reply::Null).unwrap_err().0, "Unexpected reply");
}
