//! Rendering of the alert messages: the shared content (heading with the
//! resolved timestamp, one block per station, closing advisory) in each
//! channel's markdown dialect, and the JSON payload envelopes around it.

use vstd::prelude::*;

use crate::json::escape_json;
use crate::json::escape_spec;
use crate::reading::StationReading;
use crate::reading::get_missing_factors;
use crate::reading::missing_factors_spec;
use crate::text::dec_spec;
use crate::text::join_spec;
use crate::text::join_strs;
use crate::text::trim_spec;
use crate::text::trim_str;
use crate::text::usize_to_decimal;

verus! {

/// Text for a station's missing-factor list: the labels joined by the
/// separator glyph, or the fixed placeholder when the list is empty.
pub open spec fn factors_text_spec(factors: Seq<Seq<char>>) -> Seq<char> {
    if factors.len() == 0 {
        "无"@
    } else {
        join_spec(factors, "、"@)
    }
}

/// Formats a missing-factor list for display, exactly as
/// `factors_text_spec` says.
pub fn format_missing_factors(factors: &[&str]) -> (r: String)
    ensures
        r@ == factors_text_spec(factors.deep_view()),
{
    proof {
        assert(factors.deep_view().len() == factors@.len());
    }
    if factors.len() == 0 {
        "无".to_owned()
    } else {
        join_strs(factors, "、")
    }
}

/// The display name of a station: its trimmed name, or the fixed
/// placeholder when the feed published none.
pub open spec fn display_name_spec(st: StationReading) -> Seq<char> {
    match st.position_name {
        Option::None => "Unknown"@,
        Option::Some(n) => trim_spec(n@),
    }
}

/// Renders `display_name_spec` for a concrete reading.
pub fn display_name(station: &StationReading) -> (r: String)
    ensures
        r@ == display_name_spec(*station),
{
    match &station.position_name {
        Option::None => "Unknown".to_owned(),
        Option::Some(n) => trim_str(n.as_str()),
    }
}

/// The factor-list text of one station.
pub open spec fn station_factors_text_spec(st: StationReading) -> Seq<char> {
    factors_text_spec(missing_factors_spec(st))
}

fn station_factors_text(station: &StationReading) -> (r: String)
    ensures
        r@ == station_factors_text_spec(*station),
{
    let factors = get_missing_factors(station);
    let fs = factors.as_slice();
    proof {
        assert(fs.deep_view() =~~= factors.deep_view());
    }
    format_missing_factors(fs)
}

/// The closing advisory line shared by both channels.
pub open spec fn advisory_spec() -> Seq<char> {
    "> 请相关技术人员尽快检查设备状态和数据传输链路。（缺失数据基于总站发布平台）"@
}

/// One station's block in the channel-A (markdown card) dialect.
pub open spec fn wechat_station_block_spec(st: StationReading) -> Seq<char> {
    "**"@ + display_name_spec(st) + "**\n<font color=\"warning\">缺失因子: "@
        + station_factors_text_spec(st) + "</font>\n\n"@
}

/// The concatenated station blocks in the channel-A dialect, in list
/// order.
pub open spec fn wechat_blocks_spec(stations: Seq<StationReading>) -> Seq<char>
    decreases stations.len(),
{
    if stations.len() == 0 {
        Seq::empty()
    } else {
        wechat_blocks_spec(stations.drop_last()) + wechat_station_block_spec(stations.last())
    }
}

/// The channel-A heading and introduction, with the resolved timestamp.
pub open spec fn wechat_header_spec(time: Seq<char>) -> Seq<char> {
    "## 🚨 广州市空气质量监测站点数据异常警报("@ + time + ")\n"@
        + "以下站点存在数据缺失问题，请及时关注：\n\n"@
}

/// The full channel-A message content.
pub open spec fn wechat_content_spec(stations: Seq<StationReading>, time: Seq<char>) -> Seq<char> {
    wechat_header_spec(time) + wechat_blocks_spec(stations) + advisory_spec()
}

fn append_wechat_block(out: &mut String, station: &StationReading)
    ensures
        final(out)@ == old(out)@ + wechat_station_block_spec(*station),
{
    out.append("**");
    let name = display_name(station);
    out.append(name.as_str());
    out.append("**\n<font color=\"warning\">缺失因子: ");
    let factors = station_factors_text(station);
    out.append(factors.as_str());
    out.append("</font>\n\n");
    proof {
        assert(out@ =~= old(out)@ + wechat_station_block_spec(*station));
    }
}

/// Renders the full channel-A message content, exactly as
/// `wechat_content_spec` says.
pub fn build_wechat_content(stations: &Vec<StationReading>, time: &str) -> (r: String)
    ensures
        r@ == wechat_content_spec(stations@, time@),
{
    let mut out: String = "## 🚨 广州市空气质量监测站点数据异常警报(".to_owned();
    out.append(time);
    out.append(")\n");
    out.append("以下站点存在数据缺失问题，请及时关注：\n\n");
    proof {
        assert(out@ =~= wechat_header_spec(time@));
    }
    let mut i: usize = 0;
    while i < stations.len()
        invariant
            i <= stations@.len(),
            out@ == wechat_header_spec(time@) + wechat_blocks_spec(stations@.take(i as int)),
        decreases stations@.len() - i,
    {
        append_wechat_block(&mut out, &stations[i]);
        proof {
            assert(stations@.take(i + 1).drop_last() =~= stations@.take(i as int));
            assert(stations@.take(i + 1).last() == stations@[i as int]);
        }
        i = i + 1;
    }
    proof {
        assert(stations@.take(stations@.len() as int) =~= stations@);
    }
    out.append("> 请相关技术人员尽快检查设备状态和数据传输链路。（缺失数据基于总站发布平台）");
    proof {
        assert(out@ =~= wechat_content_spec(stations@, time@));
    }
    out
}

/// The channel-A JSON payload: a single markdown message wrapping the
/// content, with no addressing metadata.
pub open spec fn wechat_payload_spec(stations: Seq<StationReading>, time: Seq<char>) -> Seq<char> {
    "{\"msgtype\":\"markdown\",\"markdown\":{\"content\":\""@
        + escape_spec(wechat_content_spec(stations, time)) + "\"}}"@
}

/// Renders the channel-A JSON payload, exactly as `wechat_payload_spec`
/// says.
pub fn build_wechat_payload(stations: &Vec<StationReading>, time: &str) -> (r: String)
    ensures
        r@ == wechat_payload_spec(stations@, time@),
{
    let content = build_wechat_content(stations, time);
    let escaped = escape_json(content.as_str());
    let mut out: String = "{\"msgtype\":\"markdown\",\"markdown\":{\"content\":\"".to_owned();
    out.append(escaped.as_str());
    out.append("\"}}");
    proof {
        assert(out@ =~= wechat_payload_spec(stations@, time@));
    }
    out
}

/// The channel-B message title, with the resolved timestamp.
pub open spec fn dingtalk_title_spec(time: Seq<char>) -> Seq<char> {
    "广州市空气质量监测站点数据异常警报("@ + time + ")"@
}

/// Renders the channel-B title, exactly as `dingtalk_title_spec` says.
pub fn build_dingtalk_title(time: &str) -> (r: String)
    ensures
        r@ == dingtalk_title_spec(time@),
{
    let mut out: String = "广州市空气质量监测站点数据异常警报(".to_owned();
    out.append(time);
    out.append(")");
    proof {
        assert(out@ =~= dingtalk_title_spec(time@));
    }
    out
}

/// One station's block in the channel-B (markdown list) dialect.
pub open spec fn dingtalk_station_block_spec(st: StationReading) -> Seq<char> {
    "- **"@ + display_name_spec(st) + "**\n  - 缺失因子: "@ + station_factors_text_spec(st)
        + "\n\n"@
}

/// The concatenated station blocks in the channel-B dialect, in list
/// order.
pub open spec fn dingtalk_blocks_spec(stations: Seq<StationReading>) -> Seq<char>
    decreases stations.len(),
{
    if stations.len() == 0 {
        Seq::empty()
    } else {
        dingtalk_blocks_spec(stations.drop_last()) + dingtalk_station_block_spec(stations.last())
    }
}

/// The channel-B heading and introduction, with the resolved timestamp.
pub open spec fn dingtalk_header_spec(time: Seq<char>) -> Seq<char> {
    "### 🚨 广州市空气质量监测站点数据异常警报\n"@ + "#### "@ + time + "\n"@
        + "以下站点存在数据缺失问题，请及时关注：\n\n"@
}

/// The full channel-B message body.
pub open spec fn dingtalk_text_spec(stations: Seq<StationReading>, time: Seq<char>) -> Seq<char> {
    dingtalk_header_spec(time) + dingtalk_blocks_spec(stations) + advisory_spec()
}

fn append_dingtalk_block(out: &mut String, station: &StationReading)
    ensures
        final(out)@ == old(out)@ + dingtalk_station_block_spec(*station),
{
    out.append("- **");
    let name = display_name(station);
    out.append(name.as_str());
    out.append("**\n  - 缺失因子: ");
    let factors = station_factors_text(station);
    out.append(factors.as_str());
    out.append("\n\n");
    proof {
        assert(out@ =~= old(out)@ + dingtalk_station_block_spec(*station));
    }
}

/// Renders the full channel-B message body, exactly as
/// `dingtalk_text_spec` says.
pub fn build_dingtalk_text(stations: &Vec<StationReading>, time: &str) -> (r: String)
    ensures
        r@ == dingtalk_text_spec(stations@, time@),
{
    let mut out: String = "### 🚨 广州市空气质量监测站点数据异常警报\n".to_owned();
    out.append("#### ");
    out.append(time);
    out.append("\n");
    out.append("以下站点存在数据缺失问题，请及时关注：\n\n");
    proof {
        assert(out@ =~= dingtalk_header_spec(time@));
    }
    let mut i: usize = 0;
    while i < stations.len()
        invariant
            i <= stations@.len(),
            out@ == dingtalk_header_spec(time@) + dingtalk_blocks_spec(stations@.take(i as int)),
        decreases stations@.len() - i,
    {
        append_dingtalk_block(&mut out, &stations[i]);
        proof {
            assert(stations@.take(i + 1).drop_last() =~= stations@.take(i as int));
            assert(stations@.take(i + 1).last() == stations@[i as int]);
        }
        i = i + 1;
    }
    proof {
        assert(stations@.take(stations@.len() as int) =~= stations@);
    }
    out.append("> 请相关技术人员尽快检查设备状态和数据传输链路。（缺失数据基于总站发布平台）");
    proof {
        assert(out@ =~= dingtalk_text_spec(stations@, time@));
    }
    out
}

/// The channel-B JSON payload: a markdown message with a separate title
/// and body, plus a mention block that mentions nobody and not everyone.
pub open spec fn dingtalk_payload_spec(stations: Seq<StationReading>, time: Seq<char>) -> Seq<
    char,
> {
    "{\"msgtype\":\"markdown\",\"markdown\":{\"title\":\""@
        + escape_spec(dingtalk_title_spec(time)) + "\",\"text\":\""@
        + escape_spec(dingtalk_text_spec(stations, time)) + "\"},\"at\":{\"isAtAll\":false}}"@
}

/// Renders the channel-B JSON payload, exactly as `dingtalk_payload_spec`
/// says.
pub fn build_dingtalk_payload(stations: &Vec<StationReading>, time: &str) -> (r: String)
    ensures
        r@ == dingtalk_payload_spec(stations@, time@),
{
    let title = build_dingtalk_title(time);
    let text = build_dingtalk_text(stations, time);
    let escaped_title = escape_json(title.as_str());
    let escaped_text = escape_json(text.as_str());
    let mut out: String = "{\"msgtype\":\"markdown\",\"markdown\":{\"title\":\"".to_owned();
    out.append(escaped_title.as_str());
    out.append("\",\"text\":\"");
    out.append(escaped_text.as_str());
    out.append("\"},\"at\":{\"isAtAll\":false}}");
    proof {
        assert(out@ =~= dingtalk_payload_spec(stations@, time@));
    }
    out
}

/// The standard-output summary of a run: the all-clear line when no
/// problem station was found, else the line with the anomaly count.
pub open spec fn run_summary_spec(count: nat) -> Seq<char> {
    if count == 0 {
        "所有（非忽略名单）站点数据正常"@
    } else {
        "发现 "@ + dec_spec(count) + " 个异常站点（已排除忽略名单）"@
    }
}

/// Renders the run summary, exactly as `run_summary_spec` says.
pub fn run_summary(count: usize) -> (r: String)
    ensures
        r@ == run_summary_spec(count as nat),
{
    if count == 0 {
        "所有（非忽略名单）站点数据正常".to_owned()
    } else {
        let mut out: String = "发现 ".to_owned();
        let n = usize_to_decimal(count);
        out.append(n.as_str());
        out.append(" 个异常站点（已排除忽略名单）");
        proof {
            assert(out@ =~= run_summary_spec(count as nat));
        }
        out
    }
}

} // verus!
