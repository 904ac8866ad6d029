use edit_actor::actor::EditDocActor;
use edit_actor::dispatch::{ActorLoop, Command, Stage};
use edit_actor::message::{EditMsg, InternalError};
use edit_actor::requester::EditUser;
use std::sync::Arc;

type Msg = EditMsg<u64, String, u32, u32>;
type Loop = ActorLoop<u64, String, u32, u32>;

fn revision(user: &str, socket: u64, op: &str, ret: u32) -> Msg {
    EditMsg::Revision {
        user: Arc::new(user.to_string()),
        socket,
        revision: op.to_string(),
        ret,
    }
}

#[test]
fn edit_user_id_is_the_identity() {
    let u = EditUser::new(Arc::new("alice".to_string()), 9u64);
    assert_eq!(u.id(), "alice");
    assert_eq!(*u.socket(), 9);
    let copy = u.clone();
    assert_eq!(copy.id(), "alice");
    assert_eq!(*copy.socket(), 9);
    assert_eq!(u.id(), copy.id());
}

#[test]
fn receiver_taken_once() {
    let mut actor = EditDocActor::new(5u8, "ctx");
    assert!(actor.has_receiver());
    assert_eq!(actor.take_receiver(), 5u8);
    assert!(!actor.has_receiver());
    assert!(!actor.has_receiver());
    assert_eq!(*actor.edit_context(), "ctx");
}

#[test]
fn three_callers_served_in_submission_order() {
    let mut l: Loop = ActorLoop::new();
    let mut calls: Vec<String> = Vec::new();
    let mut apply_replies: Vec<(u32, Result<(), String>)> = Vec::new();
    let mut json_replies: Vec<(u32, Result<String, String>)> = Vec::new();
    let inbox = vec![
        revision("U1", 1, "O1", 100),
        EditMsg::DocumentJson { ret: 200 },
        revision("U2", 2, "O2", 300),
    ];
    for msg in inbox {
        assert_eq!(l.stage(), Stage::Waiting);
        match l.on_message(msg) {
            Command::Apply { user, revision } => {
                assert_eq!(l.stage(), Stage::Applying);
                calls.push(format!("apply({},{})", user.id(), revision));
                let (ret, out) = l.on_applied::<String>(Ok(()));
                apply_replies.push((ret, out));
            },
            Command::Export => {
                assert_eq!(l.stage(), Stage::Exporting);
                calls.push("snapshot()".to_string());
                let (ret, out) = l.on_exported(Ok("{\"doc\":1}".to_string()));
                json_replies.push((ret, out.map_err(|e| e.message())));
            },
        }
        assert_eq!(l.stage(), Stage::Replying);
        l.on_delivered(true);
    }
    assert_eq!(calls, vec!["apply(U1,O1)", "snapshot()", "apply(U2,O2)"]);
    assert_eq!(apply_replies, vec![(100, Ok(())), (300, Ok(()))]);
    assert_eq!(json_replies, vec![(200, Ok("{\"doc\":1}".to_string()))]);
    assert_eq!(l.stage(), Stage::Waiting);
}

#[test]
fn apply_error_delivered_unchanged() {
    let mut l: Loop = ActorLoop::new();
    match l.on_message(revision("U1", 1, "O1", 7)) {
        Command::Apply { user, revision } => {
            assert_eq!(user.id(), "U1");
            assert_eq!(*user.socket(), 1);
            assert_eq!(revision, "O1");
        },
        Command::Export => panic!("a revision must be applied"),
    }
    let (ret, out) = l.on_applied(Err("conflict at 3".to_string()));
    assert_eq!(ret, 7);
    assert_eq!(out, Err("conflict at 3".to_string()));
}

#[test]
fn failed_offload_gives_internal_error() {
    let mut l: Loop = ActorLoop::new();
    assert!(matches!(l.on_message(EditMsg::DocumentJson { ret: 4 }), Command::Export));
    let (ret, out) = l.on_exported(Err("task panicked".to_string()));
    assert_eq!(ret, 4);
    match out {
        Err(e) => {
            assert_eq!(e.message(), "task panicked");
            assert_eq!(e.detail, "task panicked");
        },
        Ok(_) => panic!("a failed export must not yield a document"),
    }
    let e = InternalError::new("x".to_string());
    assert_eq!(e.message(), "x");
}

#[test]
fn abandoned_reply_does_not_stop_the_loop() {
    let mut l: Loop = ActorLoop::new();
    l.on_message(revision("U1", 1, "O1", 1));
    let (ret, _) = l.on_applied::<String>(Ok(()));
    assert_eq!(ret, 1);
    l.on_delivered(false);
    assert_eq!(l.stage(), Stage::Waiting);
    match l.on_message(revision("U2", 2, "O2", 2)) {
        Command::Apply { user, .. } => assert_eq!(user.id(), "U2"),
        Command::Export => panic!("a revision must be applied"),
    }
    let (ret, out) = l.on_applied::<String>(Ok(()));
    assert_eq!((ret, out), (2, Ok(())));
}

#[test]
fn closed_mailbox_terminates_loop() {
    let mut l: Loop = ActorLoop::new();
    assert_eq!(l.stage(), Stage::Waiting);
    l.on_closed();
    assert_eq!(l.stage(), Stage::Terminated);
}

#[test]
fn empty_export_is_delivered_as_is() {
    let mut l: Loop = ActorLoop::new();
    l.on_message(EditMsg::DocumentJson { ret: 0 });
    let (_, out) = l.on_exported(Ok(String::new()));
    assert_eq!(out.map_err(|e| e.message()), Ok(String::new()));
}
