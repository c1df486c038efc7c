use aqi_alert::config::Config;
use aqi_alert::config::config_has_any_credential;
use aqi_alert::config::parse_config_lines;
use aqi_alert::dispatch::ChannelKind;
use aqi_alert::dispatch::build_dingtalk_request;
use aqi_alert::dispatch::build_wechat_request;
use aqi_alert::dispatch::dispatch_failure_line;
use aqi_alert::dispatch::dispatch_success_line;
use aqi_alert::dispatch::status_error_detail;
use aqi_alert::dispatch::status_is_ok;
use aqi_alert::json::escape_json;
use aqi_alert::message::build_dingtalk_payload;
use aqi_alert::message::build_dingtalk_title;
use aqi_alert::message::build_wechat_payload;
use aqi_alert::message::format_missing_factors;
use aqi_alert::message::run_summary;
use aqi_alert::reading::StationReading;
use aqi_alert::reading::filter_problem_stations;
use aqi_alert::reading::get_missing_factors;
use aqi_alert::reading::has_missing_data;
use aqi_alert::reading::is_ignored_station;
use aqi_alert::reading::is_missing;
use aqi_alert::text::trim_str;
use aqi_alert::text::usize_to_decimal;
use aqi_alert::timestamp::resolve_timestamp;

fn some(v: &str) -> Option<String> {
    Some(v.to_string())
}

fn full_reading(name: &str) -> StationReading {
    StationReading {
        position_name: some(name),
        quality: some("优"),
        aqi: some("42"),
        o3: some("80"),
        no2: some("12"),
        pm10: some("30"),
        pm25: some("18"),
        so2: some("5"),
        co: some("0.6"),
        latitude: some("23.1"),
        longitude: some("113.3"),
        time_point: some("2024-05-06T07:00:00+08:00"),
    }
}

fn blank_reading(name: &str) -> StationReading {
    StationReading {
        position_name: some(name),
        quality: None,
        aqi: some(""),
        o3: some(" "),
        no2: some("—"),
        pm10: None,
        pm25: some(""),
        so2: None,
        co: some("—"),
        latitude: None,
        longitude: None,
        time_point: None,
    }
}

fn json_escaped(s: &str) -> String {
    s.replace('\\', "\\\\").replace('"', "\\\"").replace('\n', "\\n").replace('\r', "\\r").replace(
        '\t', "\\t",
    )
}

#[test]
fn missing_on_absent_blank_and_sentinel() {
    assert!(is_missing(&None));
    assert!(is_missing(&some("")));
    assert!(is_missing(&some("   ")));
    assert!(is_missing(&some("\u{3000}\t")));
    assert!(is_missing(&some("—")));
    assert!(is_missing(&some("  —  ")));
    assert!(!is_missing(&some("85")));
    assert!(!is_missing(&some("0")));
    assert!(!is_missing(&some("-")));
    assert!(!is_missing(&some("— —")));
}

#[test]
fn has_missing_data_on_any_field() {
    let mut st = full_reading("甲");
    assert!(!has_missing_data(&st));
    st.so2 = some("—");
    assert!(has_missing_data(&st));
    let mut st2 = full_reading("乙");
    st2.aqi = None;
    assert!(has_missing_data(&st2));
    // Quality and coordinates are not required fields.
    let mut st3 = full_reading("丙");
    st3.quality = None;
    st3.latitude = None;
    assert!(!has_missing_data(&st3));
}

#[test]
fn ignore_list_matches_trimmed_names() {
    assert!(is_ignored_station(&full_reading("帽峰山")));
    assert!(is_ignored_station(&full_reading("  帽峰山  ")));
    assert!(is_ignored_station(&full_reading("帽峰山森林公园")));
    assert!(!is_ignored_station(&full_reading("帽峰山东")));
    assert!(!is_ignored_station(&full_reading("体育西")));
    let mut nameless = full_reading("x");
    nameless.position_name = None;
    assert!(!is_ignored_station(&nameless));
}

#[test]
fn ignored_station_never_reported() {
    let batch = vec![blank_reading("帽峰山"), blank_reading("帽峰山森林公园"), blank_reading("天河")];
    let problems = filter_problem_stations(&batch);
    assert_eq!(problems.len(), 1);
    assert_eq!(problems[0].position_name, some("天河"));
}

#[test]
fn factor_order_is_fixed() {
    let st = blank_reading("甲");
    assert_eq!(get_missing_factors(&st), vec!["AQI", "PM2.5", "PM10", "O3", "NO2", "SO2", "CO"]);
    let mut st2 = full_reading("乙");
    st2.so2 = some("—");
    st2.aqi = some("");
    assert_eq!(get_missing_factors(&st2), vec!["AQI", "SO2"]);
    let st3 = full_reading("丙");
    assert_eq!(get_missing_factors(&st3), Vec::<&str>::new());
}

#[test]
fn factors_join_with_glyph_or_placeholder() {
    assert_eq!(format_missing_factors(&[]), "无");
    assert_eq!(format_missing_factors(&["AQI"]), "AQI");
    assert_eq!(format_missing_factors(&["AQI", "SO2", "CO"]), "AQI、SO2、CO");
}

#[test]
fn scenario_one_problem_one_ignored() {
    let mut a = full_reading("A");
    a.aqi = some("");
    let b = blank_reading("帽峰山");
    let batch = vec![a, b];
    let problems = filter_problem_stations(&batch);
    assert_eq!(problems.len(), 1);
    assert_eq!(problems[0].position_name, some("A"));
    assert_eq!(get_missing_factors(&problems[0]), vec!["AQI"]);
}

#[test]
fn empty_list_means_no_dispatch_and_all_clear() {
    let none: Vec<StationReading> = Vec::new();
    assert!(build_wechat_request(&none, "k", "T").is_none());
    assert!(build_dingtalk_request(&none, "tok", "T").is_none());
    assert_eq!(run_summary(0), "所有（非忽略名单）站点数据正常");
}

#[test]
fn blank_credentials_mean_no_dispatch_but_count_reported() {
    let problems = vec![blank_reading("天河")];
    assert!(build_wechat_request(&problems, "", "T").is_none());
    assert!(build_wechat_request(&problems, "   ", "T").is_none());
    assert!(build_dingtalk_request(&problems, "", "T").is_none());
    assert!(build_dingtalk_request(&problems, " \t ", "T").is_none());
    assert_eq!(run_summary(2), "发现 2 个异常站点（已排除忽略名单）");
    assert_eq!(run_summary(17), "发现 17 个异常站点（已排除忽略名单）");
}

#[test]
fn wechat_request_url_and_payload() {
    let mut st = full_reading("甲");
    st.aqi = some("—");
    let problems = vec![st];
    let req = build_wechat_request(&problems, " key-1 ", "2024-05-06 07:00:00").unwrap();
    assert_eq!(req.url, "https://qyapi.weixin.qq.com/cgi-bin/webhook/send?key=key-1");
    let content = "## 🚨 广州市空气质量监测站点数据异常警报(2024-05-06 07:00:00)\n\
                   以下站点存在数据缺失问题，请及时关注：\n\n\
                   **甲**\n<font color=\"warning\">缺失因子: AQI</font>\n\n\
                   > 请相关技术人员尽快检查设备状态和数据传输链路。（缺失数据基于总站发布平台）";
    let expected = format!(
        "{{\"msgtype\":\"markdown\",\"markdown\":{{\"content\":\"{}\"}}}}",
        json_escaped(content)
    );
    assert_eq!(req.body, expected);
}

#[test]
fn dingtalk_request_url_and_payload() {
    let mut st = full_reading("乙");
    st.co = None;
    st.so2 = some(" ");
    let problems = vec![st];
    let req = build_dingtalk_request(&problems, "tok-9", "T9").unwrap();
    assert_eq!(req.url, "https://oapi.dingtalk.com/robot/send?access_token=tok-9");
    let title = "广州市空气质量监测站点数据异常警报(T9)";
    let text = "### 🚨 广州市空气质量监测站点数据异常警报\n#### T9\n\
                以下站点存在数据缺失问题，请及时关注：\n\n\
                - **乙**\n  - 缺失因子: SO2、CO\n\n\
                > 请相关技术人员尽快检查设备状态和数据传输链路。（缺失数据基于总站发布平台）";
    let expected = format!(
        "{{\"msgtype\":\"markdown\",\"markdown\":{{\"title\":\"{}\",\"text\":\"{}\"}},\"at\":{{\"isAtAll\":false}}}}",
        json_escaped(title),
        json_escaped(text)
    );
    assert_eq!(req.body, expected);
}

#[test]
fn payload_renders_unknown_station_name() {
    let mut st = blank_reading("x");
    st.position_name = None;
    let problems = vec![st];
    let req = build_wechat_request(&problems, "k", "T").unwrap();
    assert!(req.body.contains("**Unknown**"));
}

#[test]
fn dingtalk_title_carries_timestamp() {
    assert_eq!(build_dingtalk_title("now"), "广州市空气质量监测站点数据异常警报(now)");
}

#[test]
fn channel_outcomes_are_isolated() {
    // Channel A answers 500, channel B answers 200: A yields only an error
    // line, B a success line; neither touches the run's outcome.
    assert!(!status_is_ok(500));
    assert!(status_is_ok(200));
    assert!(!status_is_ok(204));
    let detail = status_error_detail(&ChannelKind::WechatWork, "500 Internal Server Error");
    assert_eq!(detail, "wechat work webhook request failed with status: 500 Internal Server Error");
    assert_eq!(
        dispatch_failure_line(&ChannelKind::WechatWork, &detail),
        "Failed to send alert to WeChat Work: wechat work webhook request failed with status: 500 Internal Server Error"
    );
    assert_eq!(
        status_error_detail(&ChannelKind::DingTalk, "404"),
        "dingtalk webhook request failed with status: 404"
    );
    assert_eq!(
        dispatch_failure_line(&ChannelKind::DingTalk, "x"),
        "Failed to send alert to DingTalk: x"
    );
    assert_eq!(dispatch_success_line(&ChannelKind::WechatWork), "已成功发送警报到企业微信");
    assert_eq!(dispatch_success_line(&ChannelKind::DingTalk), "已成功发送警报到钉钉");
}

#[test]
fn timestamp_unknown_when_absent_or_blank() {
    let empty: Vec<StationReading> = Vec::new();
    assert_eq!(resolve_timestamp(&empty), "Unknown");
    let mut st = blank_reading("甲");
    st.time_point = None;
    assert_eq!(resolve_timestamp(&vec![st]), "Unknown");
    let mut st2 = blank_reading("乙");
    st2.time_point = some("   ");
    assert_eq!(resolve_timestamp(&vec![st2]), "Unknown");
}

#[test]
fn timestamp_unparsable_passes_through_trimmed() {
    let mut st = blank_reading("甲");
    st.time_point = some("  2024/05/06 早上  ");
    assert_eq!(resolve_timestamp(&vec![st]), "2024/05/06 早上");
}

#[test]
fn timestamp_valid_renders_local_wall_clock() {
    let raw = "2024-05-06T07:08:09+08:00";
    let mut st = full_reading("甲");
    st.time_point = some(raw);
    let rendered = resolve_timestamp(&vec![st]);
    let expected = chrono::DateTime::parse_from_rfc3339(raw)
        .unwrap()
        .with_timezone(&chrono::Local)
        .format("%Y-%m-%d %H:%M:%S")
        .to_string();
    assert_eq!(rendered, expected);
    assert_eq!(rendered.len(), 19);
    let bytes = rendered.as_bytes();
    assert_eq!(bytes[4], b'-');
    assert_eq!(bytes[7], b'-');
    assert_eq!(bytes[10], b' ');
    assert_eq!(bytes[13], b':');
    assert_eq!(bytes[16], b':');
}

#[test]
fn timestamp_comes_from_first_station_only() {
    let mut first = blank_reading("甲");
    first.time_point = some("raw-first");
    let mut second = blank_reading("乙");
    second.time_point = some("2024-05-06T07:08:09+08:00");
    assert_eq!(resolve_timestamp(&vec![first, second]), "raw-first");
}

#[test]
fn config_last_matching_line_wins() {
    let lines: Vec<String> = vec![
        "# a comment".to_string(),
        "".to_string(),
        "   ".to_string(),
        "WEBHOOK_KEY= first ".to_string(),
        "OTHER=ignored".to_string(),
        "DINGTALK_ACCESS_TOKEN=tok".to_string(),
        "  WEBHOOK_KEY=final  ".to_string(),
    ];
    let cfg = parse_config_lines(&lines);
    assert_eq!(cfg.webhook_key, "final");
    assert_eq!(cfg.dingtalk_access_token, "tok");
}

#[test]
fn config_commented_key_is_ignored() {
    let lines: Vec<String> = vec!["#WEBHOOK_KEY=hidden".to_string()];
    let cfg = parse_config_lines(&lines);
    assert_eq!(cfg.webhook_key, "");
    assert_eq!(cfg.dingtalk_access_token, "");
}

#[test]
fn config_needs_at_least_one_credential() {
    let both_empty = Config { webhook_key: String::new(), dingtalk_access_token: String::new() };
    assert!(!config_has_any_credential(&both_empty));
    let only_key = Config { webhook_key: "k".to_string(), dingtalk_access_token: String::new() };
    assert!(config_has_any_credential(&only_key));
    let only_token = Config { webhook_key: String::new(), dingtalk_access_token: "t".to_string() };
    assert!(config_has_any_credential(&only_token));
}

#[test]
fn json_escaping_covers_specials() {
    assert_eq!(escape_json("plain 中文 🚨"), "plain 中文 🚨");
    assert_eq!(escape_json("a\"b\\c\nd\re\tf"), "a\\\"b\\\\c\\nd\\re\\tf");
    assert_eq!(escape_json("\u{8}\u{c}"), "\\b\\f");
    assert_eq!(escape_json("\u{1}\u{1f}"), "\\u0001\\u001f");
}

#[test]
fn trim_handles_unicode_whitespace() {
    assert_eq!(trim_str(" \u{3000}x y\u{a0} "), "x y");
    assert_eq!(trim_str(""), "");
    assert_eq!(trim_str(" \t\r\n"), "");
}

#[test]
fn decimal_rendering_is_exact() {
    assert_eq!(usize_to_decimal(0), "0");
    assert_eq!(usize_to_decimal(7), "7");
    assert_eq!(usize_to_decimal(10), "10");
    assert_eq!(usize_to_decimal(904), "904");
    assert_eq!(usize_to_decimal(123456789), "123456789");
}
