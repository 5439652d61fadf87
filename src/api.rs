//! The typed requests: one payload builder per operation, and the narrowing of
//! a response payload to the shape that operation expects.
use vstd::prelude::*;
use crate::msg::{Message, text};
use crate::frame::{
    Data, DeleteMsgReq, DeleteMsgResp, GetFriendListReq, GetFriendListResp, GetGroupInfoReq,
    GetGroupInfoResp, GetGroupListReq, GetGroupListResp, GetGroupMemberInfoReq,
    GetGroupMemberInfoResp, GetGroupMemberListReq, GetGroupMemberListResp, GetLoginInfoReq,
    GetLoginInfoResp, GetMsgReq, GetMsgResp, GetStrangerInfoReq, GetStrangerInfoResp,
    SendGroupMsgReq, SendGroupMsgResp, SendPrivateMsgReq, SendPrivateMsgResp,
    SetFriendAddRequestReq, SetFriendAddRequestResp, SetGroupAddRequestReq,
    SetGroupAddRequestResp, SetGroupBanReq, SetGroupBanResp, SetGroupCardReq,
    SetGroupCardResp, SetGroupKickReq, SetGroupKickResp, SetGroupLeaveReq,
    SetGroupLeaveResp, SetGroupSpecialTitleReq, SetGroupSpecialTitleResp,
    SetGroupWholeBanReq, SetGroupWholeBanResp,
};

verus! {

/// The request of `send_private_message`. Sends `content` as a text message to the user `user_id`.
pub fn send_private_message_request(user_id: i64, content: String) -> (r: Data)
    ensures
        r matches Data::SendPrivateMsgReq(q) && q.user_id == user_id && !q.auto_escape
            && q.message@.len() == 1 && q.message@[0]@ == ("text"@, seq![("text"@, content@)]),
{
    let mut message: Vec<Message> = Vec::new();
    message.push(text(content.as_str()));
    Data::SendPrivateMsgReq(SendPrivateMsgReq { user_id, message, auto_escape: false })
}

/// The answer to `send_private_message_request`; `None` where the response is missing or of
/// another shape.
pub fn send_private_message_response(resp: Option<Data>) -> (r: Option<SendPrivateMsgResp>)
    ensures
        r == (match resp {
            Some(Data::SendPrivateMsgResp(x)) => Some(x),
            _ => None,
        }),
{
    match resp {
        Some(Data::SendPrivateMsgResp(x)) => Some(x),
        _ => None,
    }
}

/// The request of `send_group_message`. Sends `content` as a text message to the group `group_id`.
pub fn send_group_message_request(group_id: i64, content: String) -> (r: Data)
    ensures
        r matches Data::SendGroupMsgReq(q) && q.group_id == group_id && !q.auto_escape
            && q.message@.len() == 1 && q.message@[0]@ == ("text"@, seq![("text"@, content@)]),
{
    let mut message: Vec<Message> = Vec::new();
    message.push(text(content.as_str()));
    Data::SendGroupMsgReq(SendGroupMsgReq { group_id, message, auto_escape: false })
}

/// The answer to `send_group_message_request`; `None` where the response is missing or of
/// another shape.
pub fn send_group_message_response(resp: Option<Data>) -> (r: Option<SendGroupMsgResp>)
    ensures
        r == (match resp {
            Some(Data::SendGroupMsgResp(x)) => Some(x),
            _ => None,
        }),
{
    match resp {
        Some(Data::SendGroupMsgResp(x)) => Some(x),
        _ => None,
    }
}

/// The request of `delete_msg`. Recalls the message `message_id`.
pub fn delete_msg_request(message_id: i32) -> (r: Data)
    ensures
        r == Data::DeleteMsgReq(DeleteMsgReq { message_id }),
{
    Data::DeleteMsgReq(DeleteMsgReq { message_id })
}

/// The answer to `delete_msg_request`; `None` where the response is missing or of
/// another shape.
pub fn delete_msg_response(resp: Option<Data>) -> (r: Option<DeleteMsgResp>)
    ensures
        r == (match resp {
            Some(Data::DeleteMsgResp(x)) => Some(x),
            _ => None,
        }),
{
    match resp {
        Some(Data::DeleteMsgResp(x)) => Some(x),
        _ => None,
    }
}

/// The request of `get_msg`. Fetches the message `message_id`.
pub fn get_msg_request(message_id: i32) -> (r: Data)
    ensures
        r == Data::GetMsgReq(GetMsgReq { message_id }),
{
    Data::GetMsgReq(GetMsgReq { message_id })
}

/// The answer to `get_msg_request`; `None` where the response is missing or of
/// another shape.
pub fn get_msg_response(resp: Option<Data>) -> (r: Option<GetMsgResp>)
    ensures
        r == (match resp {
            Some(Data::GetMsgResp(x)) => Some(x),
            _ => None,
        }),
{
    match resp {
        Some(Data::GetMsgResp(x)) => Some(x),
        _ => None,
    }
}

/// The request of `set_group_kick`. Removes `user_id` from the group, refusing their later requests to join when `reject_add_request` holds.
pub fn set_group_kick_request(group_id: i64, user_id: i64, reject_add_request: bool) -> (r: Data)
    ensures
        r == Data::SetGroupKickReq(SetGroupKickReq { group_id, user_id, reject_add_request }),
{
    Data::SetGroupKickReq(SetGroupKickReq { group_id, user_id, reject_add_request })
}

/// The answer to `set_group_kick_request`; `None` where the response is missing or of
/// another shape.
pub fn set_group_kick_response(resp: Option<Data>) -> (r: Option<SetGroupKickResp>)
    ensures
        r == (match resp {
            Some(Data::SetGroupKickResp(x)) => Some(x),
            _ => None,
        }),
{
    match resp {
        Some(Data::SetGroupKickResp(x)) => Some(x),
        _ => None,
    }
}

/// The request of `set_group_ban`. Mutes `user_id` in the group for `duration` seconds; 0 lifts the mute.
pub fn set_group_ban_request(group_id: i64, user_id: i64, duration: i32) -> (r: Data)
    ensures
        r == Data::SetGroupBanReq(SetGroupBanReq { group_id, user_id, duration }),
{
    Data::SetGroupBanReq(SetGroupBanReq { group_id, user_id, duration })
}

/// The answer to `set_group_ban_request`; `None` where the response is missing or of
/// another shape.
pub fn set_group_ban_response(resp: Option<Data>) -> (r: Option<SetGroupBanResp>)
    ensures
        r == (match resp {
            Some(Data::SetGroupBanResp(x)) => Some(x),
            _ => None,
        }),
{
    match resp {
        Some(Data::SetGroupBanResp(x)) => Some(x),
        _ => None,
    }
}

/// The request of `set_group_whole_ban`. Mutes or unmutes the whole group.
pub fn set_group_whole_ban_request(group_id: i64, enable: bool) -> (r: Data)
    ensures
        r == Data::SetGroupWholeBanReq(SetGroupWholeBanReq { group_id, enable }),
{
    Data::SetGroupWholeBanReq(SetGroupWholeBanReq { group_id, enable })
}

/// The answer to `set_group_whole_ban_request`; `None` where the response is missing or of
/// another shape.
pub fn set_group_whole_ban_response(resp: Option<Data>) -> (r: Option<SetGroupWholeBanResp>)
    ensures
        r == (match resp {
            Some(Data::SetGroupWholeBanResp(x)) => Some(x),
            _ => None,
        }),
{
    match resp {
        Some(Data::SetGroupWholeBanResp(x)) => Some(x),
        _ => None,
    }
}

/// The request of `set_group_card`. Sets the group card of `user_id`; an empty card removes it.
pub fn set_group_card_request(group_id: i64, user_id: i64, card: String) -> (r: Data)
    ensures
        r == Data::SetGroupCardReq(SetGroupCardReq { group_id, user_id, card }),
{
    Data::SetGroupCardReq(SetGroupCardReq { group_id, user_id, card })
}

/// The answer to `set_group_card_request`; `None` where the response is missing or of
/// another shape.
pub fn set_group_card_response(resp: Option<Data>) -> (r: Option<SetGroupCardResp>)
    ensures
        r == (match resp {
            Some(Data::SetGroupCardResp(x)) => Some(x),
            _ => None,
        }),
{
    match resp {
        Some(Data::SetGroupCardResp(x)) => Some(x),
        _ => None,
    }
}

/// The request of `set_group_leave`. Leaves the group, or dismisses it when the bot owns it and `is_dismiss` holds.
pub fn set_group_leave_request(group_id: i64, is_dismiss: bool) -> (r: Data)
    ensures
        r == Data::SetGroupLeaveReq(SetGroupLeaveReq { group_id, is_dismiss }),
{
    Data::SetGroupLeaveReq(SetGroupLeaveReq { group_id, is_dismiss })
}

/// The answer to `set_group_leave_request`; `None` where the response is missing or of
/// another shape.
pub fn set_group_leave_response(resp: Option<Data>) -> (r: Option<SetGroupLeaveResp>)
    ensures
        r == (match resp {
            Some(Data::SetGroupLeaveResp(x)) => Some(x),
            _ => None,
        }),
{
    match resp {
        Some(Data::SetGroupLeaveResp(x)) => Some(x),
        _ => None,
    }
}

/// The request of `set_group_special_title`. Sets the special title of `user_id` for `duration` seconds; an empty title removes it.
pub fn set_group_special_title_request(group_id: i64, user_id: i64, special_title: String, duration: i64) -> (r: Data)
    ensures
        r == Data::SetGroupSpecialTitleReq(SetGroupSpecialTitleReq { group_id, user_id, special_title, duration }),
{
    Data::SetGroupSpecialTitleReq(SetGroupSpecialTitleReq { group_id, user_id, special_title, duration })
}

/// The answer to `set_group_special_title_request`; `None` where the response is missing or of
/// another shape.
pub fn set_group_special_title_response(resp: Option<Data>) -> (r: Option<SetGroupSpecialTitleResp>)
    ensures
        r == (match resp {
            Some(Data::SetGroupSpecialTitleResp(x)) => Some(x),
            _ => None,
        }),
{
    match resp {
        Some(Data::SetGroupSpecialTitleResp(x)) => Some(x),
        _ => None,
    }
}

/// The request of `set_friend_add_request`. Answers the friend request `flag`, with `remark` for the new friend when approved.
pub fn set_friend_add_request_request(flag: String, approve: bool, remark: String) -> (r: Data)
    ensures
        r == Data::SetFriendAddRequestReq(SetFriendAddRequestReq { flag, approve, remark }),
{
    Data::SetFriendAddRequestReq(SetFriendAddRequestReq { flag, approve, remark })
}

/// The answer to `set_friend_add_request_request`; `None` where the response is missing or of
/// another shape.
pub fn set_friend_add_request_response(resp: Option<Data>) -> (r: Option<SetFriendAddRequestResp>)
    ensures
        r == (match resp {
            Some(Data::SetFriendAddRequestResp(x)) => Some(x),
            _ => None,
        }),
{
    match resp {
        Some(Data::SetFriendAddRequestResp(x)) => Some(x),
        _ => None,
    }
}

/// The request of `set_group_add_request`. Answers the request or invitation `flag` to join a group, giving `reason` when refused.
pub fn set_group_add_request_request(flag: String, sub_type: String, approve: bool, reason: String) -> (r: Data)
    ensures
        r matches Data::SetGroupAddRequestReq(q) && q.flag == flag && q.sub_type == sub_type && q.request_type@.len() == 0
            && q.approve == approve && q.reason == reason,
{
    Data::SetGroupAddRequestReq(SetGroupAddRequestReq { flag, sub_type, request_type: String::new(), approve, reason })
}

/// The answer to `set_group_add_request_request`; `None` where the response is missing or of
/// another shape.
pub fn set_group_add_request_response(resp: Option<Data>) -> (r: Option<SetGroupAddRequestResp>)
    ensures
        r == (match resp {
            Some(Data::SetGroupAddRequestResp(x)) => Some(x),
            _ => None,
        }),
{
    match resp {
        Some(Data::SetGroupAddRequestResp(x)) => Some(x),
        _ => None,
    }
}

/// The request of `get_login_info`. Fetches the account the bot is logged in as.
pub fn get_login_info_request() -> (r: Data)
    ensures
        r == Data::GetLoginInfoReq(GetLoginInfoReq {}),
{
    Data::GetLoginInfoReq(GetLoginInfoReq {})
}

/// The answer to `get_login_info_request`; `None` where the response is missing or of
/// another shape.
pub fn get_login_info_response(resp: Option<Data>) -> (r: Option<GetLoginInfoResp>)
    ensures
        r == (match resp {
            Some(Data::GetLoginInfoResp(x)) => Some(x),
            _ => None,
        }),
{
    match resp {
        Some(Data::GetLoginInfoResp(x)) => Some(x),
        _ => None,
    }
}

/// The request of `get_stranger_info`. Fetches the public profile of `user_id`.
pub fn get_stranger_info_request(user_id: i64) -> (r: Data)
    ensures
        r == Data::GetStrangerInfoReq(GetStrangerInfoReq { user_id, no_cache: false }),
{
    Data::GetStrangerInfoReq(GetStrangerInfoReq { user_id, no_cache: false })
}

/// The answer to `get_stranger_info_request`; `None` where the response is missing or of
/// another shape.
pub fn get_stranger_info_response(resp: Option<Data>) -> (r: Option<GetStrangerInfoResp>)
    ensures
        r == (match resp {
            Some(Data::GetStrangerInfoResp(x)) => Some(x),
            _ => None,
        }),
{
    match resp {
        Some(Data::GetStrangerInfoResp(x)) => Some(x),
        _ => None,
    }
}

/// The request of `get_friend_list`. Fetches the friend list.
pub fn get_friend_list_request() -> (r: Data)
    ensures
        r == Data::GetFriendListReq(GetFriendListReq {}),
{
    Data::GetFriendListReq(GetFriendListReq {})
}

/// The answer to `get_friend_list_request`; `None` where the response is missing or of
/// another shape.
pub fn get_friend_list_response(resp: Option<Data>) -> (r: Option<GetFriendListResp>)
    ensures
        r == (match resp {
            Some(Data::GetFriendListResp(x)) => Some(x),
            _ => None,
        }),
{
    match resp {
        Some(Data::GetFriendListResp(x)) => Some(x),
        _ => None,
    }
}

/// The request of `get_group_list`. Fetches the groups the bot is in.
pub fn get_group_list_request() -> (r: Data)
    ensures
        r == Data::GetGroupListReq(GetGroupListReq {}),
{
    Data::GetGroupListReq(GetGroupListReq {})
}

/// The answer to `get_group_list_request`; `None` where the response is missing or of
/// another shape.
pub fn get_group_list_response(resp: Option<Data>) -> (r: Option<GetGroupListResp>)
    ensures
        r == (match resp {
            Some(Data::GetGroupListResp(x)) => Some(x),
            _ => None,
        }),
{
    match resp {
        Some(Data::GetGroupListResp(x)) => Some(x),
        _ => None,
    }
}

/// The request of `get_group_info`. Fetches the group `group_id`.
pub fn get_group_info_request(group_id: i64, no_cache: bool) -> (r: Data)
    ensures
        r == Data::GetGroupInfoReq(GetGroupInfoReq { group_id, no_cache }),
{
    Data::GetGroupInfoReq(GetGroupInfoReq { group_id, no_cache })
}

/// The answer to `get_group_info_request`; `None` where the response is missing or of
/// another shape.
pub fn get_group_info_response(resp: Option<Data>) -> (r: Option<GetGroupInfoResp>)
    ensures
        r == (match resp {
            Some(Data::GetGroupInfoResp(x)) => Some(x),
            _ => None,
        }),
{
    match resp {
        Some(Data::GetGroupInfoResp(x)) => Some(x),
        _ => None,
    }
}

/// The request of `get_group_member_info`. Fetches the member `user_id` of the group `group_id`.
pub fn get_group_member_info_request(group_id: i64, user_id: i64, no_cache: bool) -> (r: Data)
    ensures
        r == Data::GetGroupMemberInfoReq(GetGroupMemberInfoReq { group_id, user_id, no_cache }),
{
    Data::GetGroupMemberInfoReq(GetGroupMemberInfoReq { group_id, user_id, no_cache })
}

/// The answer to `get_group_member_info_request`; `None` where the response is missing or of
/// another shape.
pub fn get_group_member_info_response(resp: Option<Data>) -> (r: Option<GetGroupMemberInfoResp>)
    ensures
        r == (match resp {
            Some(Data::GetGroupMemberInfoResp(x)) => Some(x),
            _ => None,
        }),
{
    match resp {
        Some(Data::GetGroupMemberInfoResp(x)) => Some(x),
        _ => None,
    }
}

/// The request of `get_group_member_list`. Lists the members of the group `group_id`.
pub fn get_group_member_list_request(group_id: i64) -> (r: Data)
    ensures
        r == Data::GetGroupMemberListReq(GetGroupMemberListReq { group_id }),
{
    Data::GetGroupMemberListReq(GetGroupMemberListReq { group_id })
}

/// The answer to `get_group_member_list_request`; `None` where the response is missing or of
/// another shape.
pub fn get_group_member_list_response(resp: Option<Data>) -> (r: Option<GetGroupMemberListResp>)
    ensures
        r == (match resp {
            Some(Data::GetGroupMemberListResp(x)) => Some(x),
            _ => None,
        }),
{
    match resp {
        Some(Data::GetGroupMemberListResp(x)) => Some(x),
        _ => None,
    }
}
} // verus!
