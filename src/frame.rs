//! The wire envelope: discriminants, payload records and frames.
use vstd::prelude::*;
use crate::msg::{Message, keys_unique};

verus! {

/// One frame on the connection.
pub struct Frame {
    /// The bot session the frame belongs to.
    pub bot_id: i64,
    /// Which payload shape follows.
    pub frame_type: FrameType,
    /// The correlation id: chosen by the requester, echoed on the response.
    pub echo: String,
    /// Outcome flag, meaningful on responses only.
    pub ok: bool,
    /// Auxiliary diagnostic fields, never interpreted here.
    pub extra: Vec<(String, String)>,
    /// The payload, absent on a frame whose shape is not supported.
    pub data: Option<Data>,
}

impl Frame {
    /// The auxiliary fields form a map: their keys are distinct.
    pub open spec fn wf(&self) -> bool {
        keys_unique(self.extra@)
    }
}

/// The sender of a stored message.
pub struct Sender {
    pub user_id: i64,
    pub nickname: String,
    pub card: String,
}

/// A private message received by the bot.
pub struct PrivateMessageEvent {
    pub time: i64,
    pub self_id: i64,
    pub sub_type: String,
    pub message_id: i32,
    pub user_id: i64,
    pub message: Vec<Message>,
    pub raw_message: String,
    pub font: i32,
    pub sender: Option<Sender>,
}

pub struct SendPrivateMsgReq {
    pub user_id: i64,
    pub message: Vec<Message>,
    pub auto_escape: bool,
}

pub struct SendPrivateMsgResp {
    pub message_id: i32,
}

pub struct SendGroupMsgReq {
    pub group_id: i64,
    pub message: Vec<Message>,
    pub auto_escape: bool,
}

pub struct SendGroupMsgResp {
    pub message_id: i32,
}

pub struct DeleteMsgReq {
    pub message_id: i32,
}

pub struct DeleteMsgResp {}

pub struct GetMsgReq {
    pub message_id: i32,
}

pub struct GetMsgResp {
    pub time: i32,
    pub message_type: String,
    pub message_id: i32,
    pub real_id: i32,
    pub sender: Option<Sender>,
    pub message: Vec<Message>,
    pub raw_message: String,
}

pub struct SetGroupKickReq {
    pub group_id: i64,
    pub user_id: i64,
    pub reject_add_request: bool,
}

pub struct SetGroupKickResp {}

pub struct SetGroupBanReq {
    pub group_id: i64,
    pub user_id: i64,
    pub duration: i32,
}

pub struct SetGroupBanResp {}

pub struct SetGroupWholeBanReq {
    pub group_id: i64,
    pub enable: bool,
}

pub struct SetGroupWholeBanResp {}

pub struct SetGroupCardReq {
    pub group_id: i64,
    pub user_id: i64,
    pub card: String,
}

pub struct SetGroupCardResp {}

pub struct SetGroupLeaveReq {
    pub group_id: i64,
    pub is_dismiss: bool,
}

pub struct SetGroupLeaveResp {}

pub struct SetGroupSpecialTitleReq {
    pub group_id: i64,
    pub user_id: i64,
    pub special_title: String,
    pub duration: i64,
}

pub struct SetGroupSpecialTitleResp {}

pub struct SetFriendAddRequestReq {
    pub flag: String,
    pub approve: bool,
    pub remark: String,
}

pub struct SetFriendAddRequestResp {}

pub struct SetGroupAddRequestReq {
    pub flag: String,
    pub sub_type: String,
    pub request_type: String,
    pub approve: bool,
    pub reason: String,
}

pub struct SetGroupAddRequestResp {}

pub struct GetLoginInfoReq {}

pub struct GetLoginInfoResp {
    pub user_id: i64,
    pub nickname: String,
}

pub struct GetStrangerInfoReq {
    pub user_id: i64,
    pub no_cache: bool,
}

pub struct GetStrangerInfoResp {
    pub user_id: i64,
    pub nickname: String,
    pub sex: String,
    pub age: i32,
}

pub struct GetFriendListReq {}

/// One entry of the friend list.
pub struct FriendInfo {
    pub user_id: i64,
    pub nickname: String,
    pub remark: String,
}

pub struct GetFriendListResp {
    pub friend: Vec<FriendInfo>,
}

pub struct GetGroupInfoReq {
    pub group_id: i64,
    pub no_cache: bool,
}

pub struct GetGroupInfoResp {
    pub group_id: i64,
    pub group_name: String,
    pub member_count: i32,
    pub max_member_count: i32,
}

pub struct GetGroupListReq {}

/// One entry of the group list.
pub struct GroupInfo {
    pub group_id: i64,
    pub group_name: String,
    pub member_count: i32,
    pub max_member_count: i32,
}

pub struct GetGroupListResp {
    pub group: Vec<GroupInfo>,
}

pub struct GetGroupMemberInfoReq {
    pub group_id: i64,
    pub user_id: i64,
    pub no_cache: bool,
}

pub struct GetGroupMemberInfoResp {
    pub group_id: i64,
    pub user_id: i64,
    pub nickname: String,
    pub card: String,
    pub sex: String,
    pub age: i32,
    pub area: String,
    pub join_time: i32,
    pub last_sent_time: i32,
    pub level: String,
    pub role: String,
    pub unfriendly: bool,
    pub title: String,
    pub title_expire_time: i64,
    pub card_changeable: bool,
}

pub struct GetGroupMemberListReq {
    pub group_id: i64,
}

/// One member of a group, as the member list gives it.
pub struct GroupMember {
    pub group_id: i64,
    pub user_id: i64,
    pub nickname: String,
    pub card: String,
    pub sex: String,
    pub age: i32,
    pub area: String,
    pub join_time: i32,
    pub last_sent_time: i32,
    pub level: String,
    pub role: String,
    pub unfriendly: bool,
    pub title: String,
    pub title_expire_time: i64,
    pub card_changeable: bool,
}

pub struct GetGroupMemberListResp {
    pub group_member: Vec<GroupMember>,
}

/// The discriminant carried on the wire: which payload shape a frame holds.
#[derive(Clone, Copy, Debug, PartialEq, Eq, Structural)]
pub enum FrameType {
    Tunknown,
    TPrivateMessageEvent,
    TGroupMessageEvent,
    TGroupUploadNoticeEvent,
    TGroupAdminNoticeEvent,
    TGroupDecreaseNoticeEvent,
    TGroupIncreaseNoticeEvent,
    TGroupBanNoticeEvent,
    TFriendAddNoticeEvent,
    TGroupRecallNoticeEvent,
    TFriendRecallNoticeEvent,
    TFriendRequestEvent,
    TGroupRequestEvent,
    TSendPrivateMsgReq,
    TSendGroupMsgReq,
    TSendMsgReq,
    TDeleteMsgReq,
    TGetMsgReq,
    TGetForwardMsgReq,
    TSendLikeReq,
    TSetGroupKickReq,
    TSetGroupBanReq,
    TSetGroupAnonymousBanReq,
    TSetGroupWholeBanReq,
    TSetGroupAdminReq,
    TSetGroupAnonymousReq,
    TSetGroupCardReq,
    TSetGroupNameReq,
    TSetGroupLeaveReq,
    TSetGroupSpecialTitleReq,
    TSetFriendAddRequestReq,
    TSetGroupAddRequestReq,
    TGetLoginInfoReq,
    TGetStrangerInfoReq,
    TGetFriendListReq,
    TGetGroupInfoReq,
    TGetGroupListReq,
    TGetGroupMemberInfoReq,
    TGetGroupMemberListReq,
    TGetGroupHonorInfoReq,
    TGetCookiesReq,
    TGetCsrfTokenReq,
    TGetCredentialsReq,
    TGetRecordReq,
    TGetImageReq,
    TCanSendImageReq,
    TCanSendRecordReq,
    TGetStatusReq,
    TGetVersionInfoReq,
    TSetRestartReq,
    TCleanCacheReq,
    TSendPrivateMsgResp,
    TSendGroupMsgResp,
    TSendMsgResp,
    TDeleteMsgResp,
    TGetMsgResp,
    TGetForwardMsgResp,
    TSendLikeResp,
    TSetGroupKickResp,
    TSetGroupBanResp,
    TSetGroupAnonymousBanResp,
    TSetGroupWholeBanResp,
    TSetGroupAdminResp,
    TSetGroupAnonymousResp,
    TSetGroupCardResp,
    TSetGroupNameResp,
    TSetGroupLeaveResp,
    TSetGroupSpecialTitleResp,
    TSetFriendAddRequestResp,
    TSetGroupAddRequestResp,
    TGetLoginInfoResp,
    TGetStrangerInfoResp,
    TGetFriendListResp,
    TGetGroupInfoResp,
    TGetGroupListResp,
    TGetGroupMemberInfoResp,
    TGetGroupMemberListResp,
    TGetGroupHonorInfoResp,
    TGetCookiesResp,
    TGetCsrfTokenResp,
    TGetCredentialsResp,
    TGetRecordResp,
    TGetImageResp,
    TCanSendImageResp,
    TCanSendRecordResp,
    TGetStatusResp,
    TGetVersionInfoResp,
    TSetRestartResp,
    TCleanCacheResp,
}

/// The wire number of each discriminant.
pub open spec fn code_of(t: FrameType) -> i32 {
    match t {
        FrameType::Tunknown => 0,
        FrameType::TPrivateMessageEvent => 101,
        FrameType::TGroupMessageEvent => 102,
        FrameType::TGroupUploadNoticeEvent => 103,
        FrameType::TGroupAdminNoticeEvent => 104,
        FrameType::TGroupDecreaseNoticeEvent => 105,
        FrameType::TGroupIncreaseNoticeEvent => 106,
        FrameType::TGroupBanNoticeEvent => 107,
        FrameType::TFriendAddNoticeEvent => 108,
        FrameType::TGroupRecallNoticeEvent => 109,
        FrameType::TFriendRecallNoticeEvent => 110,
        FrameType::TFriendRequestEvent => 111,
        FrameType::TGroupRequestEvent => 112,
        FrameType::TSendPrivateMsgReq => 201,
        FrameType::TSendGroupMsgReq => 202,
        FrameType::TSendMsgReq => 203,
        FrameType::TDeleteMsgReq => 204,
        FrameType::TGetMsgReq => 205,
        FrameType::TGetForwardMsgReq => 206,
        FrameType::TSendLikeReq => 207,
        FrameType::TSetGroupKickReq => 208,
        FrameType::TSetGroupBanReq => 209,
        FrameType::TSetGroupAnonymousBanReq => 210,
        FrameType::TSetGroupWholeBanReq => 211,
        FrameType::TSetGroupAdminReq => 212,
        FrameType::TSetGroupAnonymousReq => 213,
        FrameType::TSetGroupCardReq => 214,
        FrameType::TSetGroupNameReq => 215,
        FrameType::TSetGroupLeaveReq => 216,
        FrameType::TSetGroupSpecialTitleReq => 217,
        FrameType::TSetFriendAddRequestReq => 218,
        FrameType::TSetGroupAddRequestReq => 219,
        FrameType::TGetLoginInfoReq => 220,
        FrameType::TGetStrangerInfoReq => 221,
        FrameType::TGetFriendListReq => 222,
        FrameType::TGetGroupInfoReq => 223,
        FrameType::TGetGroupListReq => 224,
        FrameType::TGetGroupMemberInfoReq => 225,
        FrameType::TGetGroupMemberListReq => 226,
        FrameType::TGetGroupHonorInfoReq => 227,
        FrameType::TGetCookiesReq => 228,
        FrameType::TGetCsrfTokenReq => 229,
        FrameType::TGetCredentialsReq => 230,
        FrameType::TGetRecordReq => 231,
        FrameType::TGetImageReq => 232,
        FrameType::TCanSendImageReq => 233,
        FrameType::TCanSendRecordReq => 234,
        FrameType::TGetStatusReq => 235,
        FrameType::TGetVersionInfoReq => 236,
        FrameType::TSetRestartReq => 237,
        FrameType::TCleanCacheReq => 238,
        FrameType::TSendPrivateMsgResp => 301,
        FrameType::TSendGroupMsgResp => 302,
        FrameType::TSendMsgResp => 303,
        FrameType::TDeleteMsgResp => 304,
        FrameType::TGetMsgResp => 305,
        FrameType::TGetForwardMsgResp => 306,
        FrameType::TSendLikeResp => 307,
        FrameType::TSetGroupKickResp => 308,
        FrameType::TSetGroupBanResp => 309,
        FrameType::TSetGroupAnonymousBanResp => 310,
        FrameType::TSetGroupWholeBanResp => 311,
        FrameType::TSetGroupAdminResp => 312,
        FrameType::TSetGroupAnonymousResp => 313,
        FrameType::TSetGroupCardResp => 314,
        FrameType::TSetGroupNameResp => 315,
        FrameType::TSetGroupLeaveResp => 316,
        FrameType::TSetGroupSpecialTitleResp => 317,
        FrameType::TSetFriendAddRequestResp => 318,
        FrameType::TSetGroupAddRequestResp => 319,
        FrameType::TGetLoginInfoResp => 320,
        FrameType::TGetStrangerInfoResp => 321,
        FrameType::TGetFriendListResp => 322,
        FrameType::TGetGroupInfoResp => 323,
        FrameType::TGetGroupListResp => 324,
        FrameType::TGetGroupMemberInfoResp => 325,
        FrameType::TGetGroupMemberListResp => 326,
        FrameType::TGetGroupHonorInfoResp => 327,
        FrameType::TGetCookiesResp => 328,
        FrameType::TGetCsrfTokenResp => 329,
        FrameType::TGetCredentialsResp => 330,
        FrameType::TGetRecordResp => 331,
        FrameType::TGetImageResp => 332,
        FrameType::TCanSendImageResp => 333,
        FrameType::TCanSendRecordResp => 334,
        FrameType::TGetStatusResp => 335,
        FrameType::TGetVersionInfoResp => 336,
        FrameType::TSetRestartResp => 337,
        FrameType::TCleanCacheResp => 338,
    }
}

/// The discriminant with wire number `c`, and `Tunknown` for a number that names none.
pub open spec fn type_of_code(c: i32) -> FrameType {
    match c {
        101 => FrameType::TPrivateMessageEvent,
        102 => FrameType::TGroupMessageEvent,
        103 => FrameType::TGroupUploadNoticeEvent,
        104 => FrameType::TGroupAdminNoticeEvent,
        105 => FrameType::TGroupDecreaseNoticeEvent,
        106 => FrameType::TGroupIncreaseNoticeEvent,
        107 => FrameType::TGroupBanNoticeEvent,
        108 => FrameType::TFriendAddNoticeEvent,
        109 => FrameType::TGroupRecallNoticeEvent,
        110 => FrameType::TFriendRecallNoticeEvent,
        111 => FrameType::TFriendRequestEvent,
        112 => FrameType::TGroupRequestEvent,
        201 => FrameType::TSendPrivateMsgReq,
        202 => FrameType::TSendGroupMsgReq,
        203 => FrameType::TSendMsgReq,
        204 => FrameType::TDeleteMsgReq,
        205 => FrameType::TGetMsgReq,
        206 => FrameType::TGetForwardMsgReq,
        207 => FrameType::TSendLikeReq,
        208 => FrameType::TSetGroupKickReq,
        209 => FrameType::TSetGroupBanReq,
        210 => FrameType::TSetGroupAnonymousBanReq,
        211 => FrameType::TSetGroupWholeBanReq,
        212 => FrameType::TSetGroupAdminReq,
        213 => FrameType::TSetGroupAnonymousReq,
        214 => FrameType::TSetGroupCardReq,
        215 => FrameType::TSetGroupNameReq,
        216 => FrameType::TSetGroupLeaveReq,
        217 => FrameType::TSetGroupSpecialTitleReq,
        218 => FrameType::TSetFriendAddRequestReq,
        219 => FrameType::TSetGroupAddRequestReq,
        220 => FrameType::TGetLoginInfoReq,
        221 => FrameType::TGetStrangerInfoReq,
        222 => FrameType::TGetFriendListReq,
        223 => FrameType::TGetGroupInfoReq,
        224 => FrameType::TGetGroupListReq,
        225 => FrameType::TGetGroupMemberInfoReq,
        226 => FrameType::TGetGroupMemberListReq,
        227 => FrameType::TGetGroupHonorInfoReq,
        228 => FrameType::TGetCookiesReq,
        229 => FrameType::TGetCsrfTokenReq,
        230 => FrameType::TGetCredentialsReq,
        231 => FrameType::TGetRecordReq,
        232 => FrameType::TGetImageReq,
        233 => FrameType::TCanSendImageReq,
        234 => FrameType::TCanSendRecordReq,
        235 => FrameType::TGetStatusReq,
        236 => FrameType::TGetVersionInfoReq,
        237 => FrameType::TSetRestartReq,
        238 => FrameType::TCleanCacheReq,
        301 => FrameType::TSendPrivateMsgResp,
        302 => FrameType::TSendGroupMsgResp,
        303 => FrameType::TSendMsgResp,
        304 => FrameType::TDeleteMsgResp,
        305 => FrameType::TGetMsgResp,
        306 => FrameType::TGetForwardMsgResp,
        307 => FrameType::TSendLikeResp,
        308 => FrameType::TSetGroupKickResp,
        309 => FrameType::TSetGroupBanResp,
        310 => FrameType::TSetGroupAnonymousBanResp,
        311 => FrameType::TSetGroupWholeBanResp,
        312 => FrameType::TSetGroupAdminResp,
        313 => FrameType::TSetGroupAnonymousResp,
        314 => FrameType::TSetGroupCardResp,
        315 => FrameType::TSetGroupNameResp,
        316 => FrameType::TSetGroupLeaveResp,
        317 => FrameType::TSetGroupSpecialTitleResp,
        318 => FrameType::TSetFriendAddRequestResp,
        319 => FrameType::TSetGroupAddRequestResp,
        320 => FrameType::TGetLoginInfoResp,
        321 => FrameType::TGetStrangerInfoResp,
        322 => FrameType::TGetFriendListResp,
        323 => FrameType::TGetGroupInfoResp,
        324 => FrameType::TGetGroupListResp,
        325 => FrameType::TGetGroupMemberInfoResp,
        326 => FrameType::TGetGroupMemberListResp,
        327 => FrameType::TGetGroupHonorInfoResp,
        328 => FrameType::TGetCookiesResp,
        329 => FrameType::TGetCsrfTokenResp,
        330 => FrameType::TGetCredentialsResp,
        331 => FrameType::TGetRecordResp,
        332 => FrameType::TGetImageResp,
        333 => FrameType::TCanSendImageResp,
        334 => FrameType::TCanSendRecordResp,
        335 => FrameType::TGetStatusResp,
        336 => FrameType::TGetVersionInfoResp,
        337 => FrameType::TSetRestartResp,
        338 => FrameType::TCleanCacheResp,
        _ => FrameType::Tunknown,
    }
}

impl FrameType {
    /// The wire number of this discriminant.
    pub fn code(self) -> (r: i32)
        ensures
            r == code_of(self),
    {
        match self {
            FrameType::Tunknown => 0,
            FrameType::TPrivateMessageEvent => 101,
            FrameType::TGroupMessageEvent => 102,
            FrameType::TGroupUploadNoticeEvent => 103,
            FrameType::TGroupAdminNoticeEvent => 104,
            FrameType::TGroupDecreaseNoticeEvent => 105,
            FrameType::TGroupIncreaseNoticeEvent => 106,
            FrameType::TGroupBanNoticeEvent => 107,
            FrameType::TFriendAddNoticeEvent => 108,
            FrameType::TGroupRecallNoticeEvent => 109,
            FrameType::TFriendRecallNoticeEvent => 110,
            FrameType::TFriendRequestEvent => 111,
            FrameType::TGroupRequestEvent => 112,
            FrameType::TSendPrivateMsgReq => 201,
            FrameType::TSendGroupMsgReq => 202,
            FrameType::TSendMsgReq => 203,
            FrameType::TDeleteMsgReq => 204,
            FrameType::TGetMsgReq => 205,
            FrameType::TGetForwardMsgReq => 206,
            FrameType::TSendLikeReq => 207,
            FrameType::TSetGroupKickReq => 208,
            FrameType::TSetGroupBanReq => 209,
            FrameType::TSetGroupAnonymousBanReq => 210,
            FrameType::TSetGroupWholeBanReq => 211,
            FrameType::TSetGroupAdminReq => 212,
            FrameType::TSetGroupAnonymousReq => 213,
            FrameType::TSetGroupCardReq => 214,
            FrameType::TSetGroupNameReq => 215,
            FrameType::TSetGroupLeaveReq => 216,
            FrameType::TSetGroupSpecialTitleReq => 217,
            FrameType::TSetFriendAddRequestReq => 218,
            FrameType::TSetGroupAddRequestReq => 219,
            FrameType::TGetLoginInfoReq => 220,
            FrameType::TGetStrangerInfoReq => 221,
            FrameType::TGetFriendListReq => 222,
            FrameType::TGetGroupInfoReq => 223,
            FrameType::TGetGroupListReq => 224,
            FrameType::TGetGroupMemberInfoReq => 225,
            FrameType::TGetGroupMemberListReq => 226,
            FrameType::TGetGroupHonorInfoReq => 227,
            FrameType::TGetCookiesReq => 228,
            FrameType::TGetCsrfTokenReq => 229,
            FrameType::TGetCredentialsReq => 230,
            FrameType::TGetRecordReq => 231,
            FrameType::TGetImageReq => 232,
            FrameType::TCanSendImageReq => 233,
            FrameType::TCanSendRecordReq => 234,
            FrameType::TGetStatusReq => 235,
            FrameType::TGetVersionInfoReq => 236,
            FrameType::TSetRestartReq => 237,
            FrameType::TCleanCacheReq => 238,
            FrameType::TSendPrivateMsgResp => 301,
            FrameType::TSendGroupMsgResp => 302,
            FrameType::TSendMsgResp => 303,
            FrameType::TDeleteMsgResp => 304,
            FrameType::TGetMsgResp => 305,
            FrameType::TGetForwardMsgResp => 306,
            FrameType::TSendLikeResp => 307,
            FrameType::TSetGroupKickResp => 308,
            FrameType::TSetGroupBanResp => 309,
            FrameType::TSetGroupAnonymousBanResp => 310,
            FrameType::TSetGroupWholeBanResp => 311,
            FrameType::TSetGroupAdminResp => 312,
            FrameType::TSetGroupAnonymousResp => 313,
            FrameType::TSetGroupCardResp => 314,
            FrameType::TSetGroupNameResp => 315,
            FrameType::TSetGroupLeaveResp => 316,
            FrameType::TSetGroupSpecialTitleResp => 317,
            FrameType::TSetFriendAddRequestResp => 318,
            FrameType::TSetGroupAddRequestResp => 319,
            FrameType::TGetLoginInfoResp => 320,
            FrameType::TGetStrangerInfoResp => 321,
            FrameType::TGetFriendListResp => 322,
            FrameType::TGetGroupInfoResp => 323,
            FrameType::TGetGroupListResp => 324,
            FrameType::TGetGroupMemberInfoResp => 325,
            FrameType::TGetGroupMemberListResp => 326,
            FrameType::TGetGroupHonorInfoResp => 327,
            FrameType::TGetCookiesResp => 328,
            FrameType::TGetCsrfTokenResp => 329,
            FrameType::TGetCredentialsResp => 330,
            FrameType::TGetRecordResp => 331,
            FrameType::TGetImageResp => 332,
            FrameType::TCanSendImageResp => 333,
            FrameType::TCanSendRecordResp => 334,
            FrameType::TGetStatusResp => 335,
            FrameType::TGetVersionInfoResp => 336,
            FrameType::TSetRestartResp => 337,
            FrameType::TCleanCacheResp => 338,
        }
    }

    /// The discriminant that wire number `c` names; `Tunknown` where it names none.
    pub fn from_code(c: i32) -> (r: FrameType)
        ensures
            r == type_of_code(c),
    {
        match c {
            101 => FrameType::TPrivateMessageEvent,
            102 => FrameType::TGroupMessageEvent,
            103 => FrameType::TGroupUploadNoticeEvent,
            104 => FrameType::TGroupAdminNoticeEvent,
            105 => FrameType::TGroupDecreaseNoticeEvent,
            106 => FrameType::TGroupIncreaseNoticeEvent,
            107 => FrameType::TGroupBanNoticeEvent,
            108 => FrameType::TFriendAddNoticeEvent,
            109 => FrameType::TGroupRecallNoticeEvent,
            110 => FrameType::TFriendRecallNoticeEvent,
            111 => FrameType::TFriendRequestEvent,
            112 => FrameType::TGroupRequestEvent,
            201 => FrameType::TSendPrivateMsgReq,
            202 => FrameType::TSendGroupMsgReq,
            203 => FrameType::TSendMsgReq,
            204 => FrameType::TDeleteMsgReq,
            205 => FrameType::TGetMsgReq,
            206 => FrameType::TGetForwardMsgReq,
            207 => FrameType::TSendLikeReq,
            208 => FrameType::TSetGroupKickReq,
            209 => FrameType::TSetGroupBanReq,
            210 => FrameType::TSetGroupAnonymousBanReq,
            211 => FrameType::TSetGroupWholeBanReq,
            212 => FrameType::TSetGroupAdminReq,
            213 => FrameType::TSetGroupAnonymousReq,
            214 => FrameType::TSetGroupCardReq,
            215 => FrameType::TSetGroupNameReq,
            216 => FrameType::TSetGroupLeaveReq,
            217 => FrameType::TSetGroupSpecialTitleReq,
            218 => FrameType::TSetFriendAddRequestReq,
            219 => FrameType::TSetGroupAddRequestReq,
            220 => FrameType::TGetLoginInfoReq,
            221 => FrameType::TGetStrangerInfoReq,
            222 => FrameType::TGetFriendListReq,
            223 => FrameType::TGetGroupInfoReq,
            224 => FrameType::TGetGroupListReq,
            225 => FrameType::TGetGroupMemberInfoReq,
            226 => FrameType::TGetGroupMemberListReq,
            227 => FrameType::TGetGroupHonorInfoReq,
            228 => FrameType::TGetCookiesReq,
            229 => FrameType::TGetCsrfTokenReq,
            230 => FrameType::TGetCredentialsReq,
            231 => FrameType::TGetRecordReq,
            232 => FrameType::TGetImageReq,
            233 => FrameType::TCanSendImageReq,
            234 => FrameType::TCanSendRecordReq,
            235 => FrameType::TGetStatusReq,
            236 => FrameType::TGetVersionInfoReq,
            237 => FrameType::TSetRestartReq,
            238 => FrameType::TCleanCacheReq,
            301 => FrameType::TSendPrivateMsgResp,
            302 => FrameType::TSendGroupMsgResp,
            303 => FrameType::TSendMsgResp,
            304 => FrameType::TDeleteMsgResp,
            305 => FrameType::TGetMsgResp,
            306 => FrameType::TGetForwardMsgResp,
            307 => FrameType::TSendLikeResp,
            308 => FrameType::TSetGroupKickResp,
            309 => FrameType::TSetGroupBanResp,
            310 => FrameType::TSetGroupAnonymousBanResp,
            311 => FrameType::TSetGroupWholeBanResp,
            312 => FrameType::TSetGroupAdminResp,
            313 => FrameType::TSetGroupAnonymousResp,
            314 => FrameType::TSetGroupCardResp,
            315 => FrameType::TSetGroupNameResp,
            316 => FrameType::TSetGroupLeaveResp,
            317 => FrameType::TSetGroupSpecialTitleResp,
            318 => FrameType::TSetFriendAddRequestResp,
            319 => FrameType::TSetGroupAddRequestResp,
            320 => FrameType::TGetLoginInfoResp,
            321 => FrameType::TGetStrangerInfoResp,
            322 => FrameType::TGetFriendListResp,
            323 => FrameType::TGetGroupInfoResp,
            324 => FrameType::TGetGroupListResp,
            325 => FrameType::TGetGroupMemberInfoResp,
            326 => FrameType::TGetGroupMemberListResp,
            327 => FrameType::TGetGroupHonorInfoResp,
            328 => FrameType::TGetCookiesResp,
            329 => FrameType::TGetCsrfTokenResp,
            330 => FrameType::TGetCredentialsResp,
            331 => FrameType::TGetRecordResp,
            332 => FrameType::TGetImageResp,
            333 => FrameType::TCanSendImageResp,
            334 => FrameType::TCanSendRecordResp,
            335 => FrameType::TGetStatusResp,
            336 => FrameType::TGetVersionInfoResp,
            337 => FrameType::TSetRestartResp,
            338 => FrameType::TCleanCacheResp,
            _ => FrameType::Tunknown,
        }
    }
}

/// The payload of a frame: every request, response and event shape of the protocol.
/// Shapes that this library neither builds nor reads carry their record as the
/// encoded bytes it arrived as.
pub enum Data {
    PrivateMessageEvent(PrivateMessageEvent),
    GroupMessageEvent(Vec<u8>),
    GroupUploadNoticeEvent(Vec<u8>),
    GroupAdminNoticeEvent(Vec<u8>),
    GroupDecreaseNoticeEvent(Vec<u8>),
    GroupIncreaseNoticeEvent(Vec<u8>),
    GroupBanNoticeEvent(Vec<u8>),
    FriendAddNoticeEvent(Vec<u8>),
    GroupRecallNoticeEvent(Vec<u8>),
    FriendRecallNoticeEvent(Vec<u8>),
    FriendRequestEvent(Vec<u8>),
    GroupRequestEvent(Vec<u8>),
    SendPrivateMsgReq(SendPrivateMsgReq),
    SendGroupMsgReq(SendGroupMsgReq),
    SendMsgReq(Vec<u8>),
    DeleteMsgReq(DeleteMsgReq),
    GetMsgReq(GetMsgReq),
    GetForwardMsgReq(Vec<u8>),
    SendLikeReq(Vec<u8>),
    SetGroupKickReq(SetGroupKickReq),
    SetGroupBanReq(SetGroupBanReq),
    SetGroupAnonymousBanReq(Vec<u8>),
    SetGroupWholeBanReq(SetGroupWholeBanReq),
    SetGroupAdminReq(Vec<u8>),
    SetGroupAnonymousReq(Vec<u8>),
    SetGroupCardReq(SetGroupCardReq),
    SetGroupNameReq(Vec<u8>),
    SetGroupLeaveReq(SetGroupLeaveReq),
    SetGroupSpecialTitleReq(SetGroupSpecialTitleReq),
    SetFriendAddRequestReq(SetFriendAddRequestReq),
    SetGroupAddRequestReq(SetGroupAddRequestReq),
    GetLoginInfoReq(GetLoginInfoReq),
    GetStrangerInfoReq(GetStrangerInfoReq),
    GetFriendListReq(GetFriendListReq),
    GetGroupInfoReq(GetGroupInfoReq),
    GetGroupListReq(GetGroupListReq),
    GetGroupMemberInfoReq(GetGroupMemberInfoReq),
    GetGroupMemberListReq(GetGroupMemberListReq),
    GetGroupHonorInfoReq(Vec<u8>),
    GetCookiesReq(Vec<u8>),
    GetCsrfTokenReq(Vec<u8>),
    GetCredentialsReq(Vec<u8>),
    GetRecordReq(Vec<u8>),
    GetImageReq(Vec<u8>),
    CanSendImageReq(Vec<u8>),
    CanSendRecordReq(Vec<u8>),
    GetStatusReq(Vec<u8>),
    GetVersionInfoReq(Vec<u8>),
    SetRestartReq(Vec<u8>),
    CleanCacheReq(Vec<u8>),
    SendPrivateMsgResp(SendPrivateMsgResp),
    SendGroupMsgResp(SendGroupMsgResp),
    SendMsgResp(Vec<u8>),
    DeleteMsgResp(DeleteMsgResp),
    GetMsgResp(GetMsgResp),
    GetForwardMsgResp(Vec<u8>),
    SendLikeResp(Vec<u8>),
    SetGroupKickResp(SetGroupKickResp),
    SetGroupBanResp(SetGroupBanResp),
    SetGroupAnonymousBanResp(Vec<u8>),
    SetGroupWholeBanResp(SetGroupWholeBanResp),
    SetGroupAdminResp(Vec<u8>),
    SetGroupAnonymousResp(Vec<u8>),
    SetGroupCardResp(SetGroupCardResp),
    SetGroupNameResp(Vec<u8>),
    SetGroupLeaveResp(SetGroupLeaveResp),
    SetGroupSpecialTitleResp(SetGroupSpecialTitleResp),
    SetFriendAddRequestResp(SetFriendAddRequestResp),
    SetGroupAddRequestResp(SetGroupAddRequestResp),
    GetLoginInfoResp(GetLoginInfoResp),
    GetStrangerInfoResp(GetStrangerInfoResp),
    GetFriendListResp(GetFriendListResp),
    GetGroupInfoResp(GetGroupInfoResp),
    GetGroupListResp(GetGroupListResp),
    GetGroupMemberInfoResp(GetGroupMemberInfoResp),
    GetGroupMemberListResp(GetGroupMemberListResp),
    GetGroupHonorInfoResp(Vec<u8>),
    GetCookiesResp(Vec<u8>),
    GetCsrfTokenResp(Vec<u8>),
    GetCredentialsResp(Vec<u8>),
    GetRecordResp(Vec<u8>),
    GetImageResp(Vec<u8>),
    CanSendImageResp(Vec<u8>),
    CanSendRecordResp(Vec<u8>),
    GetStatusResp(Vec<u8>),
    GetVersionInfoResp(Vec<u8>),
    SetRestartResp(Vec<u8>),
    CleanCacheResp(Vec<u8>),
}

/// Whether the payload is one of the event shapes.
pub open spec fn is_event_data(d: Data) -> bool {
    match d {
        Data::PrivateMessageEvent(_) => true,
        Data::GroupMessageEvent(_) => true,
        Data::GroupUploadNoticeEvent(_) => true,
        Data::GroupAdminNoticeEvent(_) => true,
        Data::GroupDecreaseNoticeEvent(_) => true,
        Data::GroupIncreaseNoticeEvent(_) => true,
        Data::GroupBanNoticeEvent(_) => true,
        Data::FriendAddNoticeEvent(_) => true,
        Data::GroupRecallNoticeEvent(_) => true,
        Data::FriendRecallNoticeEvent(_) => true,
        Data::FriendRequestEvent(_) => true,
        Data::GroupRequestEvent(_) => true,
        _ => false,
    }
}

/// The discriminant of a payload sent as a request: each request shape has its
/// own, and every other shape has `Tunknown`.
pub open spec fn frame_type_of(d: Data) -> FrameType {
    match d {
        Data::SendPrivateMsgReq(_) => FrameType::TSendPrivateMsgReq,
        Data::SendGroupMsgReq(_) => FrameType::TSendGroupMsgReq,
        Data::SendMsgReq(_) => FrameType::TSendMsgReq,
        Data::DeleteMsgReq(_) => FrameType::TDeleteMsgReq,
        Data::GetMsgReq(_) => FrameType::TGetMsgReq,
        Data::GetForwardMsgReq(_) => FrameType::TGetForwardMsgReq,
        Data::SendLikeReq(_) => FrameType::TSendLikeReq,
        Data::SetGroupKickReq(_) => FrameType::TSetGroupKickReq,
        Data::SetGroupBanReq(_) => FrameType::TSetGroupBanReq,
        Data::SetGroupAnonymousBanReq(_) => FrameType::TSetGroupAnonymousBanReq,
        Data::SetGroupWholeBanReq(_) => FrameType::TSetGroupWholeBanReq,
        Data::SetGroupAdminReq(_) => FrameType::TSetGroupAdminReq,
        Data::SetGroupAnonymousReq(_) => FrameType::TSetGroupAnonymousReq,
        Data::SetGroupCardReq(_) => FrameType::TSetGroupCardReq,
        Data::SetGroupNameReq(_) => FrameType::TSetGroupNameReq,
        Data::SetGroupLeaveReq(_) => FrameType::TSetGroupLeaveReq,
        Data::SetGroupSpecialTitleReq(_) => FrameType::TSetGroupSpecialTitleReq,
        Data::SetFriendAddRequestReq(_) => FrameType::TSetFriendAddRequestReq,
        Data::SetGroupAddRequestReq(_) => FrameType::TSetGroupAddRequestReq,
        Data::GetLoginInfoReq(_) => FrameType::TGetLoginInfoReq,
        Data::GetStrangerInfoReq(_) => FrameType::TGetStrangerInfoReq,
        Data::GetFriendListReq(_) => FrameType::TGetFriendListReq,
        Data::GetGroupInfoReq(_) => FrameType::TGetGroupInfoReq,
        Data::GetGroupListReq(_) => FrameType::TGetGroupListReq,
        Data::GetGroupMemberInfoReq(_) => FrameType::TGetGroupMemberInfoReq,
        Data::GetGroupMemberListReq(_) => FrameType::TGetGroupMemberListReq,
        Data::GetGroupHonorInfoReq(_) => FrameType::TGetGroupHonorInfoReq,
        Data::GetCookiesReq(_) => FrameType::TGetCookiesReq,
        Data::GetCsrfTokenReq(_) => FrameType::TGetCsrfTokenReq,
        Data::GetCredentialsReq(_) => FrameType::TGetCredentialsReq,
        Data::GetRecordReq(_) => FrameType::TGetRecordReq,
        Data::GetImageReq(_) => FrameType::TGetImageReq,
        Data::CanSendImageReq(_) => FrameType::TCanSendImageReq,
        Data::CanSendRecordReq(_) => FrameType::TCanSendRecordReq,
        Data::GetStatusReq(_) => FrameType::TGetStatusReq,
        Data::GetVersionInfoReq(_) => FrameType::TGetVersionInfoReq,
        Data::SetRestartReq(_) => FrameType::TSetRestartReq,
        Data::CleanCacheReq(_) => FrameType::TCleanCacheReq,
        _ => FrameType::Tunknown,
    }
}

/// Whether the payload is one of the event shapes.
pub fn is_event(data: &Data) -> (r: bool)
    ensures
        r == is_event_data(*data),
{
    match data {
        Data::PrivateMessageEvent(_) => true,
        Data::GroupMessageEvent(_) => true,
        Data::GroupUploadNoticeEvent(_) => true,
        Data::GroupAdminNoticeEvent(_) => true,
        Data::GroupDecreaseNoticeEvent(_) => true,
        Data::GroupIncreaseNoticeEvent(_) => true,
        Data::GroupBanNoticeEvent(_) => true,
        Data::FriendAddNoticeEvent(_) => true,
        Data::GroupRecallNoticeEvent(_) => true,
        Data::FriendRecallNoticeEvent(_) => true,
        Data::FriendRequestEvent(_) => true,
        Data::GroupRequestEvent(_) => true,
        _ => false,
    }
}

/// The discriminant under which a payload is sent as a request.
pub fn get_frame_type(data: &Data) -> (r: FrameType)
    ensures
        r == frame_type_of(*data),
{
    match data {
        Data::SendPrivateMsgReq(_) => FrameType::TSendPrivateMsgReq,
        Data::SendGroupMsgReq(_) => FrameType::TSendGroupMsgReq,
        Data::SendMsgReq(_) => FrameType::TSendMsgReq,
        Data::DeleteMsgReq(_) => FrameType::TDeleteMsgReq,
        Data::GetMsgReq(_) => FrameType::TGetMsgReq,
        Data::GetForwardMsgReq(_) => FrameType::TGetForwardMsgReq,
        Data::SendLikeReq(_) => FrameType::TSendLikeReq,
        Data::SetGroupKickReq(_) => FrameType::TSetGroupKickReq,
        Data::SetGroupBanReq(_) => FrameType::TSetGroupBanReq,
        Data::SetGroupAnonymousBanReq(_) => FrameType::TSetGroupAnonymousBanReq,
        Data::SetGroupWholeBanReq(_) => FrameType::TSetGroupWholeBanReq,
        Data::SetGroupAdminReq(_) => FrameType::TSetGroupAdminReq,
        Data::SetGroupAnonymousReq(_) => FrameType::TSetGroupAnonymousReq,
        Data::SetGroupCardReq(_) => FrameType::TSetGroupCardReq,
        Data::SetGroupNameReq(_) => FrameType::TSetGroupNameReq,
        Data::SetGroupLeaveReq(_) => FrameType::TSetGroupLeaveReq,
        Data::SetGroupSpecialTitleReq(_) => FrameType::TSetGroupSpecialTitleReq,
        Data::SetFriendAddRequestReq(_) => FrameType::TSetFriendAddRequestReq,
        Data::SetGroupAddRequestReq(_) => FrameType::TSetGroupAddRequestReq,
        Data::GetLoginInfoReq(_) => FrameType::TGetLoginInfoReq,
        Data::GetStrangerInfoReq(_) => FrameType::TGetStrangerInfoReq,
        Data::GetFriendListReq(_) => FrameType::TGetFriendListReq,
        Data::GetGroupInfoReq(_) => FrameType::TGetGroupInfoReq,
        Data::GetGroupListReq(_) => FrameType::TGetGroupListReq,
        Data::GetGroupMemberInfoReq(_) => FrameType::TGetGroupMemberInfoReq,
        Data::GetGroupMemberListReq(_) => FrameType::TGetGroupMemberListReq,
        Data::GetGroupHonorInfoReq(_) => FrameType::TGetGroupHonorInfoReq,
        Data::GetCookiesReq(_) => FrameType::TGetCookiesReq,
        Data::GetCsrfTokenReq(_) => FrameType::TGetCsrfTokenReq,
        Data::GetCredentialsReq(_) => FrameType::TGetCredentialsReq,
        Data::GetRecordReq(_) => FrameType::TGetRecordReq,
        Data::GetImageReq(_) => FrameType::TGetImageReq,
        Data::CanSendImageReq(_) => FrameType::TCanSendImageReq,
        Data::CanSendRecordReq(_) => FrameType::TCanSendRecordReq,
        Data::GetStatusReq(_) => FrameType::TGetStatusReq,
        Data::GetVersionInfoReq(_) => FrameType::TGetVersionInfoReq,
        Data::SetRestartReq(_) => FrameType::TSetRestartReq,
        Data::CleanCacheReq(_) => FrameType::TCleanCacheReq,
        _ => FrameType::Tunknown,
    }
}
/// Reading a discriminant back from its wire number gives that discriminant.
pub proof fn lemma_code_round_trip(t: FrameType)
    ensures
        type_of_code(code_of(t)) == t,
{
}

/// No two discriminants share a wire number.
pub proof fn lemma_codes_distinct(a: FrameType, b: FrameType)
    requires
        code_of(a) == code_of(b),
    ensures
        a == b,
{
    lemma_code_round_trip(a);
    lemma_code_round_trip(b);
}

} // verus!
