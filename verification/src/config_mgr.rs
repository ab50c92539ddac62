//! Configuration management over an RNacos (Nacos v1) server: request
//! shapes, URL building, the long-polling listener protocol and the local
//! cache of configuration contents.

use vstd::prelude::*;
use crate::text::{
    chars_of, contains, contains_text, first_at, find_from, is_prefix_of, occurs_at, string_append, string_from_chars,
    string_push, to_owned_string, trim_suffix_all,
};

verus! {

/// The group a configuration belongs to when none is named.
pub open spec fn default_group() -> Seq<char> {
    "DEFAULT_GROUP"@
}

/// Settings of the configuration service.
#[derive(Debug, Clone)]
pub struct AppConfig {
    pub http_addr: String,
    pub log_level: String,
    pub rnacos_addr: String,
    pub rnacos_namespace: String,
}

pub open spec fn or_default(v: Option<String>, d: Seq<char>) -> Seq<char> {
    match v {
        Some(s) => s@,
        None => d,
    }
}

fn value_or(v: Option<String>, d: &str) -> (r: String)
    ensures
        r@ == or_default(v, d@),
{
    match v {
        Some(s) => s,
        None => to_owned_string(d),
    }
}

impl AppConfig {
    /// The settings from the given environment values, with defaults for
    /// those that are missing.
    pub fn with_defaults(
        http_addr: Option<String>,
        log_level: Option<String>,
        rnacos_addr: Option<String>,
        rnacos_namespace: Option<String>,
    ) -> (c: AppConfig)
        ensures
            c.http_addr@ == or_default(http_addr, "0.0.0.0:9095"@),
            c.log_level@ == or_default(log_level, "info"@),
            c.rnacos_addr@ == or_default(rnacos_addr, "http://rnacos:8848"@),
            c.rnacos_namespace@ == or_default(rnacos_namespace, "public"@),
    {
        AppConfig {
            http_addr: value_or(http_addr, "0.0.0.0:9095"),
            log_level: value_or(log_level, "info"),
            rnacos_addr: value_or(rnacos_addr, "http://rnacos:8848"),
            rnacos_namespace: value_or(rnacos_namespace, "public"),
        }
    }
}

// ---- request and response shapes ------------------------------------------

#[derive(Debug)]
pub struct GetConfigQuery {
    pub data_id: String,
    pub group: Option<String>,
}

#[derive(Debug)]
pub struct GetConfigResponse {
    pub data_id: String,
    pub group: String,
    pub content: String,
    pub cached: bool,
}

#[derive(Debug)]
pub struct PublishConfigRequest {
    pub data_id: String,
    pub group: Option<String>,
    pub content: String,
    pub content_type: Option<String>,
}

#[derive(Debug)]
pub struct PublishConfigResponse {
    pub success: bool,
    pub data_id: String,
    pub group: String,
}

#[derive(Debug)]
pub struct DeleteConfigQuery {
    pub data_id: String,
    pub group: Option<String>,
}

#[derive(Debug)]
pub struct WatchRequest {
    pub data_ids: Vec<WatchItem>,
    pub timeout_ms: Option<u64>,
}

#[derive(Debug)]
pub struct WatchItem {
    pub data_id: String,
    pub group: Option<String>,
}

#[derive(Debug)]
pub struct WatchResponse {
    pub changed: Vec<WatchItem>,
}

#[derive(Debug)]
pub struct PreloadRequest {
    pub configs: Vec<PreloadItem>,
}

#[derive(Debug)]
pub struct PreloadItem {
    pub data_id: String,
    pub group: Option<String>,
}

#[derive(Debug)]
pub struct ConfigListResponse {
    pub configs: Vec<ConfigSummary>,
}

/// A configuration item stored in RNacos.
#[derive(Debug, Clone)]
pub struct ConfigItem {
    pub data_id: String,
    pub group: String,
    pub content: String,
    pub content_type: String,
    pub desc: String,
    pub version: i64,
}

/// Summary of a configuration item, as listed.
#[derive(Debug, Clone)]
pub struct ConfigSummary {
    pub data_id: String,
    pub group: String,
    pub version: i64,
}

impl ConfigSummary {
    /// A summary from the fields of a listed item; missing fields read as
    /// empty texts and version 0.
    pub fn from_fields(data_id: Option<&str>, group: Option<&str>, version: Option<i64>) -> (s: ConfigSummary)
        ensures
            s.data_id@ == (match data_id {
                Some(d) => d@,
                None => Seq::<char>::empty(),
            }),
            s.group@ == (match group {
                Some(g) => g@,
                None => Seq::<char>::empty(),
            }),
            s.version == (match version {
                Some(v) => v,
                None => 0i64,
            }),
    {
        ConfigSummary {
            data_id: match data_id {
                Some(d) => to_owned_string(d),
                None => String::new(),
            },
            group: match group {
                Some(g) => to_owned_string(g),
                None => String::new(),
            },
            version: match version {
                Some(v) => v,
                None => 0,
            },
        }
    }
}

// ---- the configuration list ------------------------------------------------

/// What `serde_json::from_str::<serde_json::Value>` reads from the body of a
/// configuration list: `None` when the body is no JSON; otherwise `None`
/// inside when its `pages` member is missing or no array, and else each page:
/// `None` when it is no array, else, for each of its items, its `dataId` and
/// `group` when they are strings and its `version` when it is an integer that
/// fits in an `i64`.
pub uninterp spec fn json_config_pages(body: Seq<char>) -> Option<Option<Seq<Option<Seq<(Option<Seq<char>>, Option<Seq<char>>, Option<i64>)>>>>>;

pub open spec fn opt_text(o: Option<String>) -> Option<Seq<char>> {
    match o {
        Some(s) => Some(s@),
        None => None,
    }
}

pub open spec fn item_fields(i: (Option<String>, Option<String>, Option<i64>)) -> (Option<Seq<char>>, Option<Seq<char>>, Option<i64>) {
    (opt_text(i.0), opt_text(i.1), i.2)
}

pub open spec fn page_fields(p: Option<Vec<(Option<String>, Option<String>, Option<i64>)>>) -> Option<Seq<(Option<Seq<char>>, Option<Seq<char>>, Option<i64>)>> {
    match p {
        Some(v) => Some(v@.map_values(|i: (Option<String>, Option<String>, Option<i64>)| item_fields(i))),
        None => None,
    }
}

pub open spec fn pages_fields(r: Option<Option<Vec<Option<Vec<(Option<String>, Option<String>, Option<i64>)>>>>>) -> Option<Option<Seq<Option<Seq<(Option<Seq<char>>, Option<Seq<char>>, Option<i64>)>>>>> {
    match r {
        None => None,
        Some(None) => Some(None),
        Some(Some(ps)) => Some(Some(ps@.map_values(|p: Option<Vec<(Option<String>, Option<String>, Option<i64>)>>| page_fields(p)))),
    }
}

/// `serde_json::from_str` of a configuration list body, read into its pages.
#[verifier::external_body]
fn parse_config_pages(body: &str) -> (r: Option<Option<Vec<Option<Vec<(Option<String>, Option<String>, Option<i64>)>>>>>)
    ensures
        pages_fields(r) == json_config_pages(body@),
{
    let data: serde_json::Value = match serde_json::from_str(body) {
        Ok(v) => v,
        Err(_) => return None,
    };
    let item = |i: &serde_json::Value| (i["dataId"].as_str().map(String::from), i["group"].as_str().map(String::from), i["version"].as_i64());
    let page = |p: &serde_json::Value| p.as_array().map(|items| items.iter().map(item).collect());
    Some(data["pages"].as_array().map(|pages| pages.iter().map(page).collect()))
}

/// A listed item as a summary: missing texts read as empty, a missing
/// version as 0.
pub open spec fn summary_of(f: (Option<Seq<char>>, Option<Seq<char>>, Option<i64>)) -> (Seq<char>, Seq<char>, i64) {
    (
        match f.0 { Some(d) => d, None => Seq::empty() },
        match f.1 { Some(g) => g, None => Seq::empty() },
        match f.2 { Some(v) => v, None => 0 },
    )
}

/// The summaries of the items of the pages that are arrays, in order.
pub open spec fn flatten_pages(pages: Seq<Option<Seq<(Option<Seq<char>>, Option<Seq<char>>, Option<i64>)>>>) -> Seq<(Seq<char>, Seq<char>, i64)>
    decreases pages.len(),
{
    if pages.len() == 0 {
        Seq::empty()
    } else {
        flatten_pages(pages.drop_last()) + match pages.last() {
            Some(items) => items.map_values(|f: (Option<Seq<char>>, Option<Seq<char>>, Option<i64>)| summary_of(f)),
            None => Seq::empty(),
        }
    }
}

/// The configurations a list body names: none when the body is no JSON, no
/// configuration when it has no array of pages.
pub open spec fn listed_configs(body: Seq<char>) -> Option<Seq<(Seq<char>, Seq<char>, i64)>> {
    match json_config_pages(body) {
        None => None,
        Some(None) => Some(Seq::empty()),
        Some(Some(pages)) => Some(flatten_pages(pages)),
    }
}

pub open spec fn summary_view(s: ConfigSummary) -> (Seq<char>, Seq<char>, i64) {
    (s.data_id@, s.group@, s.version)
}

fn summary_from_item(item: &(Option<String>, Option<String>, Option<i64>)) -> (s: ConfigSummary)
    ensures
        summary_view(s) == summary_of(item_fields(*item)),
{
    let d = match &item.0 {
        Some(t) => Some(t.as_str()),
        None => None,
    };
    let g = match &item.1 {
        Some(t) => Some(t.as_str()),
        None => None,
    };
    ConfigSummary::from_fields(d, g, item.2)
}

/// The configurations a list body names, or `None` when it is no JSON.
pub fn config_list_from_body(body: &str) -> (r: Option<Vec<ConfigSummary>>)
    ensures
        r is None <==> json_config_pages(body@) is None,
        r matches Some(v) ==> listed_configs(body@) == Some(v@.map_values(|s: ConfigSummary| summary_view(s))),
{
    let parsed = parse_config_pages(body);
    let pages = match parsed {
        None => return None,
        Some(None) => {
            let v: Vec<ConfigSummary> = Vec::new();
            proof {
                assert(v@.map_values(|s: ConfigSummary| summary_view(s)) =~= Seq::<(Seq<char>, Seq<char>, i64)>::empty());
            }
            return Some(v);
        },
        Some(Some(p)) => p,
    };
    let ghost pv = pages@.map_values(|p: Option<Vec<(Option<String>, Option<String>, Option<i64>)>>| page_fields(p));
    let mut out: Vec<ConfigSummary> = Vec::new();
    let mut i: usize = 0;
    while i < pages.len()
        invariant
            i <= pages.len(),
            pv == pages@.map_values(|p: Option<Vec<(Option<String>, Option<String>, Option<i64>)>>| page_fields(p)),
            out@.map_values(|s: ConfigSummary| summary_view(s)) == flatten_pages(pv.take(i as int)),
        decreases pages.len() - i,
    {
        proof {
            assert(pv.take(i + 1).drop_last() =~= pv.take(i as int));
            assert(pv.take(i + 1).last() == page_fields(pages@[i as int]));
        }
        match &pages[i] {
            None => {
                proof {
                    assert(flatten_pages(pv.take(i + 1)) =~= flatten_pages(pv.take(i as int)));
                }
            },
            Some(items) => {
                let ghost before = out@.map_values(|s: ConfigSummary| summary_view(s));
                let ghost iv = items@.map_values(|x: (Option<String>, Option<String>, Option<i64>)| item_fields(x));
                let mut j: usize = 0;
                while j < items.len()
                    invariant
                        j <= items.len(),
                        iv == items@.map_values(|x: (Option<String>, Option<String>, Option<i64>)| item_fields(x)),
                        out@.map_values(|s: ConfigSummary| summary_view(s))
                            == before + iv.take(j as int).map_values(|f: (Option<Seq<char>>, Option<Seq<char>>, Option<i64>)| summary_of(f)),
                    decreases items.len() - j,
                {
                    let s = summary_from_item(&items[j]);
                    let ghost old_out = out@;
                    out.push(s);
                    proof {
                        assert(out@.drop_last() =~= old_out);
                        assert(iv.take(j + 1).map_values(|f: (Option<Seq<char>>, Option<Seq<char>>, Option<i64>)| summary_of(f))
                            =~= iv.take(j as int).map_values(|f: (Option<Seq<char>>, Option<Seq<char>>, Option<i64>)| summary_of(f)).push(summary_of(iv[j as int])));
                        assert(out@.map_values(|s: ConfigSummary| summary_view(s))
                            =~= old_out.map_values(|s: ConfigSummary| summary_view(s)).push(summary_view(s)));
                    }
                    j = j + 1;
                }
                proof {
                    assert(iv.take(items.len() as int) =~= iv);
                    assert(flatten_pages(pv.take(i + 1)) =~= before + iv.map_values(|f: (Option<Seq<char>>, Option<Seq<char>>, Option<i64>)| summary_of(f)));
                }
            },
        }
        i = i + 1;
    }
    proof {
        assert(pv.take(pages.len() as int) =~= pv);
    }
    Some(out)
}

/// Identifies a configuration: data id and group.
#[derive(Debug, Clone)]
pub struct ConfigKey {
    pub data_id: String,
    pub group: String,
}

/// The group named, or the default group.
pub fn group_or_default(group: Option<&str>) -> (r: String)
    ensures
        r@ == (match group {
            Some(g) => g@,
            None => default_group(),
        }),
{
    match group {
        Some(g) => to_owned_string(g),
        None => to_owned_string("DEFAULT_GROUP"),
    }
}

/// The key of a watched item, in the default group when none is named.
pub fn key_of_item(data_id: &String, group: &Option<String>) -> (k: ConfigKey)
    ensures
        k.data_id@ == data_id@,
        k.group@ == (match group {
            Some(g) => g@,
            None => default_group(),
        }),
{
    let g = match group {
        Some(g) => to_owned_string(g.as_str()),
        None => to_owned_string("DEFAULT_GROUP"),
    };
    ConfigKey { data_id: to_owned_string(data_id.as_str()), group: g }
}

/// How long a watch waits when the request names no timeout.
pub const DEFAULT_WATCH_TIMEOUT_MS: u64 = 30000;

pub fn watch_timeout(timeout_ms: Option<u64>) -> (r: u64)
    ensures
        r == (match timeout_ms {
            Some(t) => t,
            None => DEFAULT_WATCH_TIMEOUT_MS,
        }),
{
    match timeout_ms {
        Some(t) => t,
        None => DEFAULT_WATCH_TIMEOUT_MS,
    }
}

// ---- URLs -------------------------------------------------------------------

/// The escape of one character in a query parameter.
pub open spec fn escape_char(c: char) -> Seq<char> {
    if c == ' ' {
        seq!['%', '2', '0']
    } else if c == '/' {
        seq!['%', '2', 'F']
    } else if c == '&' {
        seq!['%', '2', '6']
    } else if c == '=' {
        seq!['%', '3', 'D']
    } else if c == '?' {
        seq!['%', '3', 'F']
    } else {
        seq![c]
    }
}

/// A text with space, `/`, `&`, `=` and `?` escaped, the other characters kept.
pub open spec fn url_escape(s: Seq<char>) -> Seq<char>
    decreases s.len(),
{
    if s.len() == 0 {
        Seq::empty()
    } else {
        url_escape(s.drop_last()) + escape_char(s.last())
    }
}

/// Escapes a value for a query string.
pub fn urlencoding(s: &str) -> (r: String)
    ensures
        r@ == url_escape(s@),
{
    let v = chars_of(s);
    let mut r = String::new();
    let mut i: usize = 0;
    while i < v.len()
        invariant
            i <= v.len(),
            v@ == s@,
            r@ == url_escape(v@.take(i as int)),
        decreases v.len() - i,
    {
        let c = v[i];
        if c == ' ' {
            string_append(&mut r, "%20");
        } else if c == '/' {
            string_append(&mut r, "%2F");
        } else if c == '&' {
            string_append(&mut r, "%26");
        } else if c == '=' {
            string_append(&mut r, "%3D");
        } else if c == '?' {
            string_append(&mut r, "%3F");
        } else {
            string_push(&mut r, c);
        }
        proof {
            reveal_strlit("%20");
            reveal_strlit("%2F");
            reveal_strlit("%26");
            reveal_strlit("%3D");
            reveal_strlit("%3F");
            assert(v@.take(i + 1).drop_last() =~= v@.take(i as int));
            assert(r@ =~= url_escape(v@.take(i as int)) + escape_char(c));
        }
        i = i + 1;
    }
    proof {
        assert(v@.take(v.len() as int) =~= v@);
    }
    r
}

/// The characters a query value must not carry unescaped.
pub open spec fn query_special(c: char) -> bool {
    c == ' ' || c == '/' || c == '&' || c == '=' || c == '?'
}

/// An escaped value holds none of space, `/`, `&`, `=` and `?`, so it cannot
/// end its query parameter or start another.
pub proof fn lemma_url_escape_safe(s: Seq<char>)
    ensures
        forall|i: int| 0 <= i < url_escape(s).len() ==> !query_special(#[trigger] url_escape(s)[i]),
    decreases s.len(),
{
    if s.len() > 0 {
        lemma_url_escape_safe(s.drop_last());
        let front = url_escape(s.drop_last());
        let e = escape_char(s.last());
        assert forall|i: int| 0 <= i < url_escape(s).len() implies !query_special(#[trigger] url_escape(s)[i]) by {
            if i < front.len() {
                assert(url_escape(s)[i] == front[i]);
            } else {
                assert(url_escape(s)[i] == e[i - front.len()]);
            }
        }
    }
}

/// The configuration API under an RNacos address.
pub fn base_url(rnacos_addr: &str) -> (r: String)
    ensures
        r@ == rnacos_addr@ + "/nacos/v1/cs"@,
{
    let mut r = to_owned_string(rnacos_addr);
    string_append(&mut r, "/nacos/v1/cs");
    r
}

/// The URL that reads or deletes one configuration.
pub fn config_url(base: &str, data_id: &str, group: &str, tenant: &str) -> (r: String)
    ensures
        r@ == base@ + "/configs?dataId="@ + url_escape(data_id@) + "&group="@ + url_escape(group@) + "&tenant="@ + tenant@,
{
    let mut r = to_owned_string(base);
    string_append(&mut r, "/configs?dataId=");
    string_append(&mut r, urlencoding(data_id).as_str());
    string_append(&mut r, "&group=");
    string_append(&mut r, urlencoding(group).as_str());
    string_append(&mut r, "&tenant=");
    string_append(&mut r, tenant);
    r
}

/// The URL that lists the configurations of a group.
pub fn list_url(base: &str, group: &str, tenant: &str) -> (r: String)
    ensures
        r@ == base@ + "/configs?group="@ + url_escape(group@) + "&tenant="@ + tenant@,
{
    let mut r = to_owned_string(base);
    string_append(&mut r, "/configs?group=");
    string_append(&mut r, urlencoding(group).as_str());
    string_append(&mut r, "&tenant=");
    string_append(&mut r, tenant);
    r
}

/// Whether the server's answer to a publish or delete reports success.
pub fn reports_success(body: &str) -> (r: bool)
    ensures
        r == contains_text(body@, "true"@),
{
    contains(body, "true")
}

// ---- the listener protocol ------------------------------------------------------

/// Separates the entries of a listening request and of its answer.
pub open spec fn entry_separator() -> char {
    '\u{2}'
}

/// Separates the fields of an entry.
pub open spec fn field_separator() -> Seq<char> {
    seq!['[', '[']
}

/// The line announcing one watched configuration: data id, group and tenant.
pub open spec fn listening_line(data_id: Seq<char>, group: Seq<char>, tenant: Seq<char>) -> Seq<char> {
    data_id + field_separator() + group + field_separator() + tenant + seq![']', ']', ']']
}

/// The lines of the watched keys, joined by the entry separator.
pub open spec fn listening_lines(keys: Seq<ConfigKey>, tenant: Seq<char>) -> Seq<char>
    decreases keys.len(),
{
    if keys.len() == 0 {
        Seq::empty()
    } else if keys.len() == 1 {
        listening_line(keys[0].data_id@, keys[0].group@, tenant)
    } else {
        listening_lines(keys.drop_last(), tenant) + seq![entry_separator()]
            + listening_line(keys.last().data_id@, keys.last().group@, tenant)
    }
}

/// The `Listening-Configs` value for the watched keys.
pub fn listening_configs(watched: &[ConfigKey], tenant: &str) -> (r: String)
    ensures
        r@ == listening_lines(watched@, tenant@),
{
    let mut r = String::new();
    let mut i: usize = 0;
    while i < watched.len()
        invariant
            i <= watched.len(),
            r@ == listening_lines(watched@.take(i as int), tenant@),
        decreases watched.len() - i,
    {
        if i > 0 {
            string_push(&mut r, '\u{2}');
        }
        let k = &watched[i];
        string_append(&mut r, k.data_id.as_str());
        string_append(&mut r, "[[");
        string_append(&mut r, k.group.as_str());
        string_append(&mut r, "[[");
        string_append(&mut r, tenant);
        string_append(&mut r, "]]]");
        proof {
            reveal_strlit("[[");
            reveal_strlit("]]]");
            let t = watched@.take(i + 1);
            assert(t.drop_last() =~= watched@.take(i as int));
            assert(t.last() == watched@[i as int]);
            if i == 0 {
                assert(r@ =~= listening_lines(t, tenant@));
            } else {
                assert(r@ =~= listening_lines(t, tenant@));
            }
        }
        i = i + 1;
    }
    proof {
        assert(watched@.take(watched.len() as int) =~= watched@);
    }
    r
}

/// `s` cut at every `c`: the pieces in order, one more than there are `c`.
pub open spec fn split_char(s: Seq<char>, c: char) -> Seq<Seq<char>>
    decreases s.len(),
{
    if s.len() == 0 {
        seq![Seq::empty()]
    } else if s.last() == c {
        split_char(s.drop_last(), c).push(Seq::empty())
    } else {
        let r = split_char(s.drop_last(), c);
        r.update(r.len() - 1, r.last().push(s.last()))
    }
}

/// The piece of `s` before the first occurrence of `p` (all of `s` when `p`
/// does not occur).
pub open spec fn before_text(s: Seq<char>, p: Seq<char>) -> Seq<char> {
    if exists|i: int| first_at(s, p, i) {
        s.take(choose|i: int| first_at(s, p, i))
    } else {
        s
    }
}

/// The key an answer entry names: the text before the first field separator
/// is the data id; the text between the first and the second separator,
/// without trailing `]]`, is the group. An entry without separator names none.
pub open spec fn key_of_entry(e: Seq<char>) -> Option<(Seq<char>, Seq<char>)> {
    if exists|i: int| first_at(e, field_separator(), i) {
        let i = choose|i: int| first_at(e, field_separator(), i);
        let rest = e.skip(i + 2);
        Some((e.take(i), trim_suffix_all(before_text(rest, field_separator()), seq![']', ']'])))
    } else {
        None
    }
}

/// The keys named by the non-empty entries, in order.
pub open spec fn keys_of_entries(entries: Seq<Seq<char>>) -> Seq<(Seq<char>, Seq<char>)>
    decreases entries.len(),
{
    if entries.len() == 0 {
        Seq::empty()
    } else {
        let rest = keys_of_entries(entries.drop_last());
        if entries.last().len() > 0 && key_of_entry(entries.last()) is Some {
            rest.push(key_of_entry(entries.last())->0)
        } else {
            rest
        }
    }
}

/// The keys of the configurations an answer reports as changed.
pub open spec fn changed_keys(body: Seq<char>) -> Seq<(Seq<char>, Seq<char>)> {
    keys_of_entries(split_char(body, entry_separator()))
}

pub open spec fn key_view(k: ConfigKey) -> (Seq<char>, Seq<char>) {
    (k.data_id@, k.group@)
}

proof fn lemma_first_unique(s: Seq<char>, p: Seq<char>, i: int)
    requires
        first_at(s, p, i),
    ensures
        (choose|j: int| first_at(s, p, j)) == i,
{
    let j = choose|j: int| first_at(s, p, j);
    assert(first_at(s, p, j));
    if j < i {
        assert(!occurs_at(s, p, j));
    } else if i < j {
        assert(!occurs_at(s, p, i));
    }
}

/// The new length of `v[..n]` once all trailing copies of `p` are removed.
fn trim_suffix_len(v: &[char], n: usize, p: &[char]) -> (m: usize)
    requires
        n <= v.len(),
        p.len() > 0,
    ensures
        m <= n,
        v@.take(m as int) == trim_suffix_all(v@.take(n as int), p@),
{
    let mut m = n;
    while m >= p.len() && matches_suffix(v, m, p)
        invariant
            m <= n <= v.len(),
            p.len() > 0,
            trim_suffix_all(v@.take(m as int), p@) == trim_suffix_all(v@.take(n as int), p@),
        decreases m,
    {
        proof {
            let t = v@.take(m as int);
            assert(t.skip(t.len() - p@.len()) =~= p@);
            assert(t.take(t.len() - p@.len()) =~= v@.take(m - p.len()));
        }
        m = m - p.len();
    }
    proof {
        let t = v@.take(m as int);
        if p@.len() <= t.len() && t.skip(t.len() - p@.len()) == p@ {
            assert(v@.subrange(m - p.len(), m as int) =~= t.skip(t.len() - p@.len()));
        }
    }
    m
}

/// Whether `v[..m]` ends with `p`.
fn matches_suffix(v: &[char], m: usize, p: &[char]) -> (r: bool)
    requires
        p.len() <= m <= v.len(),
    ensures
        r == (v@.subrange(m - p.len(), m as int) == p@),
{
    let r = crate::text::matches_at(v, p, m - p.len());
    r
}

/// The key named by one answer entry.
fn entry_key(e: &[char]) -> (r: Option<ConfigKey>)
    ensures
        match key_of_entry(e@) {
            Some(k) => r matches Some(c) && key_view(c) == k,
            None => r is None,
        },
{
    let sep_a: [char; 2] = ['[', '['];
    let close_a: [char; 2] = [']', ']'];
    let sep: &[char] = &sep_a;
    let close: &[char] = &close_a;
    proof {
        assert(sep@ =~= field_separator());
        assert(close@ =~= seq![']', ']']);
    }
    match find_from(e, sep, 0) {
        None => {
            proof {
                if exists|i: int| first_at(e@, field_separator(), i) {
                    let i = choose|i: int| first_at(e@, field_separator(), i);
                    assert(occurs_at(e@, sep@, i));
                }
            }
            None
        },
        Some(i) => {
            proof {
                assert(first_at(e@, field_separator(), i as int));
                lemma_first_unique(e@, field_separator(), i as int);
            }
            let rest_start = i + 2;
            let rest: Vec<char> = vstd::slice::slice_to_vec(&e[rest_start..e.len()]);
            let group_len = match find_from(rest.as_slice(), sep, 0) {
                Some(j) => {
                    proof {
                        assert(first_at(rest@, field_separator(), j as int));
                        lemma_first_unique(rest@, field_separator(), j as int);
                    }
                    j
                },
                None => {
                    proof {
                        if exists|j: int| first_at(rest@, field_separator(), j) {
                            let j = choose|j: int| first_at(rest@, field_separator(), j);
                            assert(occurs_at(rest@, sep@, j));
                        }
                    }
                    rest.len()
                },
            };
            let m = trim_suffix_len(rest.as_slice(), group_len, close);
            let data_id = string_from_chars(&e[0..i]);
            let group = string_from_chars(&rest.as_slice()[0..m]);
            proof {
                assert(rest@ =~= e@.skip(i + 2));
                assert(e@.subrange(0, i as int) =~= e@.take(i as int));
                assert(rest@.subrange(0, m as int) =~= rest@.take(m as int));
                assert(rest@.take(group_len as int) == before_text(rest@, field_separator()));
            }
            Some(ConfigKey { data_id, group })
        },
    }
}

/// The keys of the configurations a listener answer reports as changed.
pub fn parse_changed(body: &str) -> (r: Vec<ConfigKey>)
    ensures
        r@.map_values(|k: ConfigKey| key_view(k)) == changed_keys(body@),
{
    let v = chars_of(body);
    let mut r: Vec<ConfigKey> = Vec::new();
    let mut cur: Vec<char> = Vec::new();
    let mut i: usize = 0;
    proof {
        assert(v@.take(0) =~= Seq::<char>::empty());
        assert(cur@ =~= Seq::<char>::empty());
    }
    while i < v.len()
        invariant
            i <= v.len(),
            v@ == body@,
            split_char(v@.take(i as int), entry_separator()).len() >= 1,
            cur@ == split_char(v@.take(i as int), entry_separator()).last(),
            r@.map_values(|k: ConfigKey| key_view(k))
                == keys_of_entries(split_char(v@.take(i as int), entry_separator()).drop_last()),
        decreases v.len() - i,
    {
        let c = v[i];
        let ghost prev = split_char(v@.take(i as int), entry_separator());
        proof {
            assert(v@.take(i + 1).drop_last() =~= v@.take(i as int));
            assert(v@.take(i + 1).last() == c);
        }
        if c == '\u{2}' {
            let ghost before = r@.map_values(|k: ConfigKey| key_view(k));
            if cur.len() > 0 {
                match entry_key(cur.as_slice()) {
                    Some(k) => {
                        r.push(k);
                        proof {
                            assert(r@.map_values(|k: ConfigKey| key_view(k)) =~= before.push(key_of_entry(cur@)->0));
                        }
                    },
                    None => {},
                }
            }
            proof {
                let next = split_char(v@.take(i + 1), entry_separator());
                assert(next == prev.push(Seq::<char>::empty()));
                assert(next.drop_last() =~= prev);
                assert(prev =~= prev.drop_last().push(prev.last()));
            }
            cur = Vec::new();
            proof {
                assert(cur@ =~= Seq::<char>::empty());
            }
        } else {
            cur.push(c);
            proof {
                let next = split_char(v@.take(i + 1), entry_separator());
                assert(next.drop_last() =~= prev.drop_last());
                assert(next.last() =~= prev.last().push(c));
            }
        }
        i = i + 1;
    }
    proof {
        assert(v@.take(v.len() as int) =~= v@);
    }
    let ghost all = split_char(v@, entry_separator());
    let ghost before = r@.map_values(|k: ConfigKey| key_view(k));
    if cur.len() > 0 {
        match entry_key(cur.as_slice()) {
            Some(k) => {
                r.push(k);
                proof {
                    assert(r@.map_values(|k: ConfigKey| key_view(k)) =~= before.push(key_of_entry(cur@)->0));
                }
            },
            None => {},
        }
    }
    proof {
        assert(all =~= all.drop_last().push(all.last()));
    }
    r
}

// ---- reading back what the listener request announces ----------------------

/// `s` holds no `c`.
pub open spec fn free_of(s: Seq<char>, c: char) -> bool {
    forall|i: int| 0 <= i < s.len() ==> s[i] != c
}

/// A field that a listening line carries without ambiguity: no entry
/// separator, no field separator inside, and no `[` at its end (which would
/// run into the separator that follows it).
pub open spec fn plain_field(s: Seq<char>) -> bool {
    &&& free_of(s, entry_separator())
    &&& !contains_text(s, field_separator())
    &&& !(s.len() > 0 && s.last() == '[')
}

/// A key that the listener protocol reads back unchanged: plain data id and
/// group, and a group that does not end in `]]` (the answer's closing
/// brackets are trimmed).
pub open spec fn listenable(k: ConfigKey) -> bool {
    &&& plain_field(k.data_id@)
    &&& plain_field(k.group@)
    &&& !(k.group@.len() >= 2 && k.group@.skip(k.group@.len() - 2) == seq![']', ']'])
}

proof fn lemma_split_free(b: Seq<char>, c: char)
    requires
        free_of(b, c),
    ensures
        split_char(b, c) == seq![b],
    decreases b.len(),
{
    if b.len() == 0 {
        assert(b =~= Seq::<char>::empty());
    } else {
        assert(free_of(b.drop_last(), c));
        lemma_split_free(b.drop_last(), c);
        assert(b.last() != c);
        assert(b.drop_last().push(b.last()) =~= b);
        assert(split_char(b, c) =~= seq![b]);
    }
}

proof fn lemma_split_after_separator(x: Seq<char>, b: Seq<char>, c: char)
    requires
        free_of(b, c),
    ensures
        split_char(x + seq![c] + b, c) == split_char(x, c).push(b),
    decreases b.len(),
{
    let s = x + seq![c] + b;
    if b.len() == 0 {
        assert(s.drop_last() =~= x);
        assert(s.last() == c);
        assert(b =~= Seq::<char>::empty());
    } else {
        assert(free_of(b.drop_last(), c));
        lemma_split_after_separator(x, b.drop_last(), c);
        assert(s.drop_last() =~= x + seq![c] + b.drop_last());
        assert(s.last() == b.last());
        assert(b.last() != c);
        assert(b.drop_last().push(b.last()) =~= b);
        assert(split_char(s, c) =~= split_char(x, c).push(b));
    }
}

/// The field separator that follows a plain field is the first one.
proof fn lemma_separator_after(field: Seq<char>, rest: Seq<char>)
    requires
        plain_field(field),
        is_prefix_of(field_separator(), rest),
    ensures
        first_at(field + rest, field_separator(), field.len() as int),
        (choose|i: int| first_at(field + rest, field_separator(), i)) == field.len(),
{
    let s = field + rest;
    let p = field_separator();
    assert(s.subrange(field.len() as int, field.len() + 2int) =~= rest.take(2));
    assert forall|j: int| 0 <= j < field.len() implies !occurs_at(s, p, j) by {
        if j + 2 <= field.len() {
            assert(s.subrange(j, j + 2) =~= field.subrange(j, j + 2));
            if occurs_at(s, p, j) {
                assert(occurs_at(field, p, j));
            }
        } else {
            assert(s[j] == field.last());
            assert(s.subrange(j, j + 2)[0] == s[j]);
        }
    }
    lemma_first_unique(s, p, field.len() as int);
}

/// A listening line holds no entry separator.
proof fn lemma_line_free(data_id: Seq<char>, group: Seq<char>, tenant: Seq<char>)
    requires
        free_of(data_id, entry_separator()),
        free_of(group, entry_separator()),
        free_of(tenant, entry_separator()),
    ensures
        listening_line(data_id, group, tenant).len() > 0,
        free_of(listening_line(data_id, group, tenant), entry_separator()),
{
    let line = listening_line(data_id, group, tenant);
    let a = data_id + field_separator();
    let b = a + group + field_separator();
    let t = b + tenant;
    assert(line == t + seq![']', ']', ']']);
    assert forall|i: int| 0 <= i < a.len() implies a[i] != entry_separator() by {
        if i < data_id.len() {
            assert(a[i] == data_id[i]);
        }
    }
    assert forall|i: int| 0 <= i < b.len() implies b[i] != entry_separator() by {
        if i < a.len() {
            assert(b[i] == a[i]);
        } else if i < a.len() + group.len() {
            assert(b[i] == group[i - a.len()]);
        }
    }
    assert forall|i: int| 0 <= i < t.len() implies t[i] != entry_separator() by {
        if i < b.len() {
            assert(t[i] == b[i]);
        } else {
            assert(t[i] == tenant[i - b.len()]);
        }
    }
    assert forall|i: int| 0 <= i < line.len() implies line[i] != entry_separator() by {
        if i < t.len() {
            assert(line[i] == t[i]);
        }
    }
}

/// The text before the field separator that follows a plain field is the field.
proof fn lemma_before_field(field: Seq<char>, tail: Seq<char>)
    requires
        plain_field(field),
    ensures
        before_text(field + (field_separator() + tail), field_separator()) == field,
{
    let sep = field_separator();
    let s = field + (sep + tail);
    assert((sep + tail).take(2) =~= sep);
    lemma_separator_after(field, sep + tail);
    assert(s.take(field.len() as int) =~= field);
}

/// An entry that starts with a plain field and a separator names that field
/// as its data id and reads its group from the rest.
proof fn lemma_entry_key(data_id: Seq<char>, rest: Seq<char>)
    requires
        plain_field(data_id),
    ensures
        key_of_entry(data_id + (field_separator() + rest))
            == Some((data_id, trim_suffix_all(before_text(rest, field_separator()), seq![']', ']']))),
{
    let sep = field_separator();
    let e = data_id + (sep + rest);
    assert((sep + rest).take(2) =~= sep);
    lemma_separator_after(data_id, sep + rest);
    assert(e.skip(data_id.len() + 2int) =~= rest);
    assert(e.take(data_id.len() as int) =~= data_id);
}

proof fn lemma_line_shape(data_id: Seq<char>, group: Seq<char>, tenant: Seq<char>)
    ensures
        listening_line(data_id, group, tenant)
            == data_id + (field_separator() + (group + (field_separator() + (tenant + seq![']', ']', ']'])))),
{
    assert(listening_line(data_id, group, tenant)
        =~= data_id + (field_separator() + (group + (field_separator() + (tenant + seq![']', ']', ']'])))));
}

proof fn lemma_untrimmed(group: Seq<char>)
    requires
        !(group.len() >= 2 && group.skip(group.len() - 2) == seq![']', ']']),
    ensures
        trim_suffix_all(group, seq![']', ']']) == group,
{
}

/// A listening line names its data id and group.
#[verifier::spinoff_prover]
proof fn lemma_line_key(data_id: Seq<char>, group: Seq<char>, tenant: Seq<char>)
    requires
        plain_field(data_id),
        plain_field(group),
        !(group.len() >= 2 && group.skip(group.len() - 2) == seq![']', ']']),
    ensures
        key_of_entry(listening_line(data_id, group, tenant)) == Some((data_id, group)),
{
    let tail = tenant + seq![']', ']', ']'];
    let rest = group + (field_separator() + tail);
    lemma_line_shape(data_id, group, tenant);
    lemma_entry_key(data_id, rest);
    lemma_before_field(group, tail);
    lemma_untrimmed(group);
}

/// What the listener protocol reads from the lines of a listening request is
/// the request's keys, in order, when each key is listenable and the tenant
/// holds no entry separator.
pub proof fn lemma_listening_lines_read_back(keys: Seq<ConfigKey>, tenant: Seq<char>)
    requires
        forall|i: int| 0 <= i < keys.len() ==> listenable(#[trigger] keys[i]),
        free_of(tenant, entry_separator()),
    ensures
        changed_keys(listening_lines(keys, tenant)) == keys.map_values(|k: ConfigKey| key_view(k)),
    decreases keys.len(),
{
    let c = entry_separator();
    let body = listening_lines(keys, tenant);
    let entries = split_char(body, c);
    let views = keys.map_values(|k: ConfigKey| key_view(k));
    if keys.len() == 0 {
        assert(body =~= Seq::<char>::empty());
        assert(entries =~= seq![Seq::<char>::empty()]);
        assert(entries.drop_last() =~= Seq::<Seq<char>>::empty());
        assert(keys_of_entries(entries) == keys_of_entries(entries.drop_last()));
        assert(views =~= Seq::<(Seq<char>, Seq<char>)>::empty());
    } else {
        let last = keys.last();
        assert(listenable(keys[keys.len() - 1]));
        lemma_line_key(last.data_id@, last.group@, tenant);
        lemma_line_free(last.data_id@, last.group@, tenant);
        let line = listening_line(last.data_id@, last.group@, tenant);
        let front = keys.drop_last();
        let front_views = front.map_values(|k: ConfigKey| key_view(k));
        if keys.len() == 1 {
            assert(body == line);
            lemma_split_free(line, c);
            assert(entries.drop_last() =~= Seq::<Seq<char>>::empty());
            assert(keys_of_entries(entries.drop_last()) =~= Seq::<(Seq<char>, Seq<char>)>::empty());
            assert(front_views =~= Seq::<(Seq<char>, Seq<char>)>::empty());
            assert(keys_of_entries(entries.drop_last()) == front_views);
        } else {
            assert forall|i: int| 0 <= i < front.len() implies listenable(#[trigger] front[i]) by {
                assert(front[i] == keys[i]);
            }
            lemma_listening_lines_read_back(front, tenant);
            assert(body == listening_lines(front, tenant) + seq![c] + line);
            lemma_split_after_separator(listening_lines(front, tenant), line, c);
            assert(entries.drop_last() =~= split_char(listening_lines(front, tenant), c));
            assert(keys_of_entries(entries.drop_last()) == front_views);
        }
        assert(entries.len() > 0);
        assert(entries.last() == line);
        assert(key_of_entry(entries.last()) == Some(key_view(last)));
        assert(keys_of_entries(entries) == keys_of_entries(entries.drop_last()).push(key_view(last)));
        assert(views =~= front_views.push(key_view(last)));
    }
}

} // verus!
