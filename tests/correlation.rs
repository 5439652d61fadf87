use pbbot::api::{
    delete_msg_request, get_group_member_list_request, get_group_member_list_response,
    send_private_message_request,
    send_private_message_response, set_group_add_request_request,
};
use pbbot::dispatch::{connection_bot_id, issue_request, register_request, route_inbound, Route};
use pbbot::frame::{
    Data, Frame, FrameType, GetGroupListResp, GetGroupMemberListResp, PrivateMessageEvent,
    SendPrivateMsgResp,
};
use pbbot::table::PendingTable;

fn response(echo: &str, data: Option<Data>) -> Frame {
    Frame {
        bot_id: 7,
        frame_type: FrameType::TSendPrivateMsgResp,
        echo: echo.to_string(),
        ok: true,
        extra: Vec::new(),
        data,
    }
}

fn sent(message_id: i32) -> Option<Data> {
    Some(Data::SendPrivateMsgResp(SendPrivateMsgResp { message_id }))
}

fn event_frame(echo: &str) -> Frame {
    let ev = PrivateMessageEvent {
        time: 0,
        self_id: 7,
        sub_type: "friend".to_string(),
        message_id: 5,
        user_id: 123,
        message: Vec::new(),
        raw_message: "hello".to_string(),
        font: 0,
        sender: None,
    };
    response(echo, Some(Data::PrivateMessageEvent(ev)))
}

fn delivered(r: Route<u32>) -> (u32, Frame) {
    match r {
        Route::Deliver(slot, f) => (slot, f),
        _ => panic!("expected a delivery"),
    }
}

fn is_discard(r: &Route<u32>) -> bool {
    matches!(r, Route::Discard)
}

#[test]
fn request_frame_fields() {
    let mut table: PendingTable<u32> = PendingTable::new();
    let f = match register_request(7, "abc".to_string(), delete_msg_request(9), 1, &mut table) {
        Ok(f) => f,
        Err(_) => panic!("fresh id refused"),
    };
    assert_eq!(f.bot_id, 7);
    assert_eq!(f.frame_type, FrameType::TDeleteMsgReq);
    assert_eq!(f.echo, "abc");
    assert!(f.ok);
    assert!(f.extra.is_empty());
    assert!(table.contains(&"abc".to_string()));
    assert_eq!(table.len(), 1);
}

#[test]
fn duplicate_id_refused() {
    let mut table: PendingTable<u32> = PendingTable::new();
    assert!(register_request(7, "abc".to_string(), delete_msg_request(9), 1, &mut table).is_ok());
    match register_request(7, "abc".to_string(), delete_msg_request(10), 2, &mut table) {
        Err(slot) => assert_eq!(slot, 2),
        Ok(_) => panic!("pending id accepted twice"),
    }
    assert_eq!(table.len(), 1);
}

#[test]
fn issued_ids_are_random_hex() {
    let mut table: PendingTable<u32> = PendingTable::new();
    let a = issue_request(7, delete_msg_request(1), 1, &mut table).ok().unwrap();
    let b = issue_request(7, delete_msg_request(2), 2, &mut table).ok().unwrap();
    for f in [&a, &b] {
        assert_eq!(f.echo.len(), 32);
        assert!(f.echo.chars().all(|c| c.is_ascii_digit() || ('a'..='f').contains(&c)));
    }
    assert_ne!(a.echo, b.echo);
    assert_eq!(table.len(), 2);
}

#[test]
fn direct_message_scenario() {
    let mut table: PendingTable<u32> = PendingTable::new();
    let req = send_private_message_request(123, "hi".to_string());
    match &req {
        Data::SendPrivateMsgReq(q) => {
            assert_eq!(q.user_id, 123);
            assert!(!q.auto_escape);
            assert_eq!(q.message.len(), 1);
            assert_eq!(q.message[0].msg_type, "text");
            assert_eq!(q.message[0].data, vec![("text".to_string(), "hi".to_string())]);
        }
        _ => panic!("wrong request shape"),
    }
    let first = issue_request(7, req, 1, &mut table).ok().unwrap();
    assert_eq!(first.frame_type, FrameType::TSendPrivateMsgReq);
    let second = issue_request(7, send_private_message_request(456, "yo".to_string()), 2, &mut table).ok().unwrap();

    let (slot, f) = delivered(route_inbound(response(&second.echo, sent(43)), &mut table));
    assert_eq!(slot, 2);
    assert_eq!(send_private_message_response(f.data).map(|r| r.message_id), Some(43));

    let (slot, f) = delivered(route_inbound(response(&first.echo, sent(42)), &mut table));
    assert_eq!(slot, 1);
    assert_eq!(send_private_message_response(f.data).map(|r| r.message_id), Some(42));
    assert_eq!(table.len(), 0);
}

#[test]
fn reverse_order_answers() {
    let mut table: PendingTable<u32> = PendingTable::new();
    let mut echoes = Vec::new();
    for i in 0..5u32 {
        let f = issue_request(7, delete_msg_request(i as i32), i, &mut table).ok().unwrap();
        echoes.push(f.echo);
    }
    for i in (0..5u32).rev() {
        let (slot, f) = delivered(route_inbound(response(&echoes[i as usize], sent(100 + i as i32)), &mut table));
        assert_eq!(slot, i);
        assert_eq!(f.echo, echoes[i as usize]);
        assert_eq!(send_private_message_response(f.data).map(|r| r.message_id), Some(100 + i as i32));
    }
    assert_eq!(table.len(), 0);
}

#[test]
fn unknown_id_discarded() {
    let mut table: PendingTable<u32> = PendingTable::new();
    let f = issue_request(7, delete_msg_request(1), 1, &mut table).ok().unwrap();
    assert!(is_discard(&route_inbound(response("nobody", sent(1)), &mut table)));
    assert_eq!(table.len(), 1);
    assert!(table.contains(&f.echo));
    let (slot, _) = delivered(route_inbound(response(&f.echo, sent(2)), &mut table));
    assert_eq!(slot, 1);
}

#[test]
fn duplicate_response_ignored() {
    let mut table: PendingTable<u32> = PendingTable::new();
    let f = issue_request(7, delete_msg_request(1), 1, &mut table).ok().unwrap();
    let (slot, _) = delivered(route_inbound(response(&f.echo, sent(5)), &mut table));
    assert_eq!(slot, 1);
    assert!(is_discard(&route_inbound(response(&f.echo, sent(6)), &mut table)));
    assert_eq!(table.len(), 0);
}

#[test]
fn event_never_taken_for_response() {
    let mut table: PendingTable<u32> = PendingTable::new();
    let f = issue_request(7, delete_msg_request(1), 1, &mut table).ok().unwrap();
    match route_inbound(event_frame(&f.echo), &mut table) {
        Route::Event(Data::PrivateMessageEvent(ev)) => {
            assert_eq!(ev.user_id, 123);
            assert_eq!(ev.raw_message, "hello");
        }
        _ => panic!("event not routed to the event path"),
    }
    assert!(table.contains(&f.echo));
    assert_eq!(table.len(), 1);
}

#[test]
fn frame_without_payload_discarded() {
    let mut table: PendingTable<u32> = PendingTable::new();
    let f = issue_request(7, delete_msg_request(1), 1, &mut table).ok().unwrap();
    assert!(is_discard(&route_inbound(response(&f.echo, None), &mut table)));
    assert_eq!(table.len(), 1);
}

#[test]
fn mismatched_response_shape_is_no_result() {
    assert!(send_private_message_response(Some(Data::GetStatusResp(Vec::new()))).is_none());
    assert!(send_private_message_response(None).is_none());
}

#[test]
fn teardown_releases_pending() {
    let mut table: PendingTable<u32> = PendingTable::new();
    let a = issue_request(7, delete_msg_request(1), 10, &mut table).ok().unwrap();
    let b = issue_request(7, delete_msg_request(2), 20, &mut table).ok().unwrap();
    let (slot, _) = delivered(route_inbound(response(&a.echo, sent(1)), &mut table));
    assert_eq!(slot, 10);
    assert_eq!(table.drain(), vec![(b.echo.clone(), 20)]);
    assert_eq!(table.len(), 0);
    assert!(table.drain().is_empty());
}

#[test]
fn connection_identity() {
    assert_eq!(connection_bot_id(None), None);
    assert_eq!(connection_bot_id(Some("0")), None);
    assert_eq!(connection_bot_id(Some("abc")), None);
    assert_eq!(connection_bot_id(Some("")), None);
    assert_eq!(connection_bot_id(Some("-")), None);
    assert_eq!(connection_bot_id(Some("12x")), None);
    assert_eq!(connection_bot_id(Some("99999999999999999999")), None);
    assert_eq!(connection_bot_id(Some("+5")), Some(5));
    assert_eq!(connection_bot_id(Some("123")), Some(123));
    assert_eq!(connection_bot_id(Some("-42")), Some(-42));
}

#[test]
fn group_requests() {
    match set_group_add_request_request("f".to_string(), "add".to_string(), true, "".to_string()) {
        Data::SetGroupAddRequestReq(q) => {
            assert_eq!(q.flag, "f");
            assert_eq!(q.sub_type, "add");
            assert_eq!(q.request_type, "");
            assert!(q.approve);
        }
        _ => panic!("wrong request shape"),
    }
    match get_group_member_list_request(5) {
        Data::GetGroupMemberListReq(q) => assert_eq!(q.group_id, 5),
        _ => panic!("wrong request shape"),
    }
}

#[test]
fn member_list_round() {
    let mut table: PendingTable<u32> = PendingTable::new();
    let f = issue_request(7, get_group_member_list_request(88), 1, &mut table).ok().unwrap();
    assert_eq!(f.frame_type, FrameType::TGetGroupMemberListReq);
    let answer = Data::GetGroupMemberListResp(GetGroupMemberListResp { group_member: Vec::new() });
    let (slot, g) = delivered(route_inbound(response(&f.echo, Some(answer)), &mut table));
    assert_eq!(slot, 1);
    assert!(get_group_member_list_response(g.data).is_some());
    assert!(get_group_member_list_response(Some(Data::GetGroupListResp(GetGroupListResp { group: Vec::new() }))).is_none());
}
