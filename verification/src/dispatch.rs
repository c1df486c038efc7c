//! Planning of the outbound webhook dispatches and interpretation of
//! their outcomes: when a channel is skipped, what is sent where, which
//! response counts as success, and the per-channel report lines. A
//! channel's failure is isolated: it only yields a report line and never
//! touches the other channel or the run's outcome.

use vstd::prelude::*;

use crate::message::build_dingtalk_payload;
use crate::message::build_wechat_payload;
use crate::message::dingtalk_payload_spec;
use crate::message::wechat_payload_spec;
use crate::reading::StationReading;
use crate::text::trim_spec;
use crate::text::trim_str;

verus! {

/// One planned webhook call: where to POST and the JSON body to send.
pub struct DispatchRequest {
    pub url: String,
    pub body: String,
}

/// The two outbound notification channels.
#[derive(Clone, Copy)]
pub enum ChannelKind {
    WechatWork,
    DingTalk,
}

/// The channel-A endpoint, parameterized by the trimmed key.
pub open spec fn wechat_url_spec(key: Seq<char>) -> Seq<char> {
    "https://qyapi.weixin.qq.com/cgi-bin/webhook/send?key="@ + trim_spec(key)
}

/// The channel-B endpoint, parameterized by the trimmed token.
pub open spec fn dingtalk_url_spec(token: Seq<char>) -> Seq<char> {
    "https://oapi.dingtalk.com/robot/send?access_token="@ + trim_spec(token)
}

/// Plans the channel-A dispatch: nothing when the problem list is empty
/// or the credential is blank (the dispatch is then a no-op), else the
/// endpoint and the exact payload for the list under the given
/// timestamp.
pub fn build_wechat_request(stations: &Vec<StationReading>, webhook_key: &str, time: &str) -> (r:
    Option<DispatchRequest>)
    ensures
        (r is Some) <==> (stations@.len() > 0 && trim_spec(webhook_key@).len() > 0),
        r matches Some(req) ==> req.url@ == wechat_url_spec(webhook_key@) && req.body@
            == wechat_payload_spec(stations@, time@),
{
    if stations.len() == 0 {
        return None;
    }
    let key = trim_str(webhook_key);
    if key.as_str().unicode_len() == 0 {
        return None;
    }
    let mut url: String = "https://qyapi.weixin.qq.com/cgi-bin/webhook/send?key=".to_owned();
    url.append(key.as_str());
    let body = build_wechat_payload(stations, time);
    proof {
        assert(url@ =~= wechat_url_spec(webhook_key@));
    }
    Some(DispatchRequest { url, body })
}

/// Plans the channel-B dispatch, under the same no-op rule as channel A.
pub fn build_dingtalk_request(stations: &Vec<StationReading>, access_token: &str, time: &str) -> (r:
    Option<DispatchRequest>)
    ensures
        (r is Some) <==> (stations@.len() > 0 && trim_spec(access_token@).len() > 0),
        r matches Some(req) ==> req.url@ == dingtalk_url_spec(access_token@) && req.body@
            == dingtalk_payload_spec(stations@, time@),
{
    if stations.len() == 0 {
        return None;
    }
    let token = trim_str(access_token);
    if token.as_str().unicode_len() == 0 {
        return None;
    }
    let mut url: String = "https://oapi.dingtalk.com/robot/send?access_token=".to_owned();
    url.append(token.as_str());
    let body = build_dingtalk_payload(stations, time);
    proof {
        assert(url@ =~= dingtalk_url_spec(access_token@));
    }
    Some(DispatchRequest { url, body })
}

/// Whether an HTTP status allows the step that saw it to count as
/// successful: both the upstream fetch and a webhook dispatch accept
/// exactly the OK status.
pub fn status_is_ok(status: u16) -> (r: bool)
    ensures
        r == (status == 200),
{
    status == 200
}

/// The detail text reported when a channel's webhook answered with a
/// non-OK status; the caller renders the status text.
pub open spec fn status_error_detail_spec(kind: ChannelKind, status_text: Seq<char>) -> Seq<char> {
    match kind {
        ChannelKind::WechatWork => "wechat work webhook request failed with status: "@
            + status_text,
        ChannelKind::DingTalk => "dingtalk webhook request failed with status: "@ + status_text,
    }
}

/// Renders `status_error_detail_spec` for a concrete response.
pub fn status_error_detail(kind: &ChannelKind, status_text: &str) -> (r: String)
    ensures
        r@ == status_error_detail_spec(*kind, status_text@),
{
    let mut out: String = match kind {
        ChannelKind::WechatWork => "wechat work webhook request failed with status: ".to_owned(),
        ChannelKind::DingTalk => "dingtalk webhook request failed with status: ".to_owned(),
    };
    out.append(status_text);
    out
}

/// The line printed on standard output when a channel's dispatch went
/// through.
pub open spec fn success_line_spec(kind: ChannelKind) -> Seq<char> {
    match kind {
        ChannelKind::WechatWork => "已成功发送警报到企业微信"@,
        ChannelKind::DingTalk => "已成功发送警报到钉钉"@,
    }
}

/// Renders `success_line_spec` for a channel.
pub fn dispatch_success_line(kind: &ChannelKind) -> (r: String)
    ensures
        r@ == success_line_spec(*kind),
{
    match kind {
        ChannelKind::WechatWork => "已成功发送警报到企业微信".to_owned(),
        ChannelKind::DingTalk => "已成功发送警报到钉钉".to_owned(),
    }
}

/// The line reported on standard error when a channel's dispatch failed;
/// the run itself still goes on and its outcome is unchanged.
pub open spec fn failure_line_spec(kind: ChannelKind, detail: Seq<char>) -> Seq<char> {
    match kind {
        ChannelKind::WechatWork => "Failed to send alert to WeChat Work: "@ + detail,
        ChannelKind::DingTalk => "Failed to send alert to DingTalk: "@ + detail,
    }
}

/// Renders `failure_line_spec` for a channel and a failure detail.
pub fn dispatch_failure_line(kind: &ChannelKind, detail: &str) -> (r: String)
    ensures
        r@ == failure_line_spec(*kind, detail@),
{
    let mut out: String = match kind {
        ChannelKind::WechatWork => "Failed to send alert to WeChat Work: ".to_owned(),
        ChannelKind::DingTalk => "Failed to send alert to DingTalk: ".to_owned(),
    };
    out.append(detail);
    out
}

} // verus!
