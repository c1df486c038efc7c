//! Resolution of the two channel credentials from the lines of a
//! key=value configuration file, and the validity rule on the result.

use vstd::prelude::*;

use crate::text::str_starts_with;
use crate::text::trim_spec;
use crate::text::trim_str;

verus! {

/// The resolved process configuration: one credential per channel, each
/// possibly empty. A channel is enabled exactly when its credential is
/// non-empty.
pub struct Config {
    pub webhook_key: String,
    pub dingtalk_access_token: String,
}

/// Whether a trimmed configuration line carries `prefix`.
pub open spec fn line_matches(t: Seq<char>, prefix: Seq<char>) -> bool {
    t.len() >= prefix.len() && t.subrange(0, prefix.len() as int) == prefix
}

/// The value a `prefix`-keyed entry resolves to over the file's lines:
/// the trimmed remainder of the last line whose trimmed text begins with
/// the prefix, or empty when no line does.
pub open spec fn resolved_value(lines: Seq<Seq<char>>, prefix: Seq<char>) -> Seq<char>
    decreases lines.len(),
{
    if lines.len() == 0 {
        Seq::empty()
    } else {
        let t = trim_spec(lines.last());
        if line_matches(t, prefix) {
            trim_spec(t.subrange(prefix.len() as int, t.len() as int))
        } else {
            resolved_value(lines.drop_last(), prefix)
        }
    }
}

fn extract_value(t: &str, prefix: &str) -> (r: String)
    requires
        line_matches(t@, prefix@),
    ensures
        r@ == trim_spec(t@.subrange(prefix@.len() as int, t@.len() as int)),
{
    let n = t.unicode_len();
    let p = prefix.unicode_len();
    let rest = t.substring_char(p, n);
    trim_str(rest)
}

/// Resolves both credentials from the configuration file's lines: blank
/// lines and comment lines are ignored, recognized keys overwrite on
/// every occurrence, so the last matching line of each key wins.
pub fn parse_config_lines(lines: &Vec<String>) -> (r: Config)
    ensures
        r.webhook_key@ == resolved_value(lines.deep_view(), "WEBHOOK_KEY="@),
        r.dingtalk_access_token@ == resolved_value(lines.deep_view(), "DINGTALK_ACCESS_TOKEN="@),
{
    let mut cfg = Config { webhook_key: String::new(), dingtalk_access_token: String::new() };
    let mut i: usize = 0;
    while i < lines.len()
        invariant
            i <= lines@.len(),
            lines.deep_view().len() == lines@.len(),
            cfg.webhook_key@ == resolved_value(lines.deep_view().take(i as int), "WEBHOOK_KEY="@),
            cfg.dingtalk_access_token@ == resolved_value(
                lines.deep_view().take(i as int),
                "DINGTALK_ACCESS_TOKEN="@,
            ),
        decreases lines@.len() - i,
    {
        let t = trim_str(lines[i].as_str());
        // A blank line or a comment line starting with `#` begins with
        // neither key, so both tests reject it and it is ignored.
        if str_starts_with(t.as_str(), "WEBHOOK_KEY=") {
            cfg.webhook_key = extract_value(t.as_str(), "WEBHOOK_KEY=");
        }
        if str_starts_with(t.as_str(), "DINGTALK_ACCESS_TOKEN=") {
            cfg.dingtalk_access_token = extract_value(t.as_str(), "DINGTALK_ACCESS_TOKEN=");
        }
        proof {
            let dv = lines.deep_view();
            let post = dv.take(i + 1);
            assert(post.drop_last() =~~= dv.take(i as int));
            assert(post.last() == dv[i as int]);
            assert(dv[i as int] == lines@[i as int]@);
        }
        i = i + 1;
    }
    proof {
        assert(lines.deep_view().take(lines@.len() as int) =~~= lines.deep_view());
    }
    cfg
}

/// Whether the configuration carries any credential at all; a run with
/// neither is refused before any fetch.
pub fn config_has_any_credential(cfg: &Config) -> (r: bool)
    ensures
        r == (cfg.webhook_key@.len() > 0 || cfg.dingtalk_access_token@.len() > 0),
{
    !cfg.webhook_key.as_str().is_empty() || !cfg.dingtalk_access_token.as_str().is_empty()
}

} // verus!
