use pbbot::frame::{
    get_frame_type, is_event, Data, DeleteMsgReq, FrameType, GetLoginInfoReq, PrivateMessageEvent,
    SendPrivateMsgResp,
};

fn private_event() -> Data {
    Data::PrivateMessageEvent(PrivateMessageEvent {
        time: 1,
        self_id: 2,
        sub_type: "friend".to_string(),
        message_id: 3,
        user_id: 4,
        message: Vec::new(),
        raw_message: "hey".to_string(),
        font: 0,
        sender: None,
    })
}

#[test]
fn request_discriminants() {
    assert_eq!(get_frame_type(&Data::DeleteMsgReq(DeleteMsgReq { message_id: 1 })), FrameType::TDeleteMsgReq);
    assert_eq!(get_frame_type(&Data::GetLoginInfoReq(GetLoginInfoReq {})), FrameType::TGetLoginInfoReq);
    assert_eq!(get_frame_type(&Data::SendMsgReq(Vec::new())), FrameType::TSendMsgReq);
    assert_eq!(get_frame_type(&Data::CleanCacheReq(vec![1, 2])), FrameType::TCleanCacheReq);
}

#[test]
fn non_request_discriminant_is_unknown() {
    assert_eq!(get_frame_type(&private_event()), FrameType::Tunknown);
    assert_eq!(get_frame_type(&Data::SendPrivateMsgResp(SendPrivateMsgResp { message_id: 1 })), FrameType::Tunknown);
    assert_eq!(get_frame_type(&Data::GetStatusResp(Vec::new())), FrameType::Tunknown);
}

#[test]
fn event_classification() {
    assert!(is_event(&private_event()));
    assert!(is_event(&Data::GroupRequestEvent(Vec::new())));
    assert!(!is_event(&Data::SendPrivateMsgResp(SendPrivateMsgResp { message_id: 1 })));
    assert!(!is_event(&Data::DeleteMsgReq(DeleteMsgReq { message_id: 1 })));
}

#[test]
fn wire_numbers() {
    assert_eq!(FrameType::Tunknown.code(), 0);
    assert_eq!(FrameType::TPrivateMessageEvent.code(), 101);
    assert_eq!(FrameType::TSendPrivateMsgReq.code(), 201);
    assert_eq!(FrameType::TSendPrivateMsgResp.code(), 301);
    assert_eq!(FrameType::from_code(212), FrameType::TSetGroupAdminReq);
    assert_eq!(FrameType::from_code(999), FrameType::Tunknown);
    assert_eq!(FrameType::from_code(-1), FrameType::Tunknown);
    for t in [FrameType::TGroupRequestEvent, FrameType::TCleanCacheReq, FrameType::TCleanCacheResp, FrameType::Tunknown] {
        assert_eq!(FrameType::from_code(t.code()), t);
    }
}
