//! What every API backend is configured with, and how its requests are addressed.

use vstd::prelude::*;
use vstd::string::*;
use reqwest::header::HeaderValue;
use crate::requests::stop_sequence::opt_view;
use crate::text::{has_prefix, starts_with};

verus! {

/// Where an API is reached and where its key is found.
#[derive(Debug, Clone, PartialEq, Eq)]
pub struct ApiConfig {
    pub host: String,
    pub port: Option<String>,
    /// The environment variable that holds the API key.
    pub api_key_env_var: String,
}

/// How a backend logs.
#[derive(Debug, Clone, PartialEq, Eq)]
pub struct LoggingConfig {
    pub logger_name: String,
}

/// A header's name and value.
pub type HeaderEntry = (String, String);

/// The name and value of each entry.
pub open spec fn entry_views(entries: Seq<HeaderEntry>) -> Seq<(Seq<char>, Seq<char>)> {
    entries.map_values(|e: HeaderEntry| (e.0@, e.1@))
}

/// The address of `path` on a host. A host that begins with `http` is
/// taken as it is, with the port after a colon where one is set; any
/// other host is reached over https, and the port is not used.
pub open spec fn url_for(host: Seq<char>, port: Option<Seq<char>>, path: Seq<char>) -> Seq<char> {
    if has_prefix(host, "http"@) {
        match port {
            Some(p) => host + ":"@ + p + path,
            None => host + path,
        }
    } else {
        "https://"@ + host + path
    }
}

/// Whether a text can be the value of a header: it holds no control
/// character but the tabulator.
pub open spec fn valid_header_value(value: Seq<char>) -> bool {
    forall|i: int|
        0 <= i < value.len() ==> {
            let code = (#[trigger] value[i]) as u32;
            (code >= 32 && code != 127) || code == 9
        }
}

/// `HeaderValue::from_str` of the http crate, as reqwest hands it on: it
/// accepts a text exactly when each of its bytes is 32 or more and not
/// 127, or is the tabulator.
#[verifier::external_body]
pub(crate) fn header_value_is_valid(value: &str) -> (valid: bool)
    ensures
        valid == valid_header_value(value@),
{
    HeaderValue::from_str(value).is_ok()
}

/// The value of the header that authorizes a request with `key`.
pub open spec fn bearer(key: Seq<char>) -> Seq<char> {
    "Bearer "@ + key
}

/// The header `name` with `value`, where the value is wanted and valid.
pub open spec fn optional_entry(name: Seq<char>, value: Seq<char>, wanted: bool) -> Seq<
    (Seq<char>, Seq<char>),
> {
    if wanted && valid_header_value(value) {
        seq![(name, value)]
    } else {
        Seq::empty()
    }
}

/// The header that authorizes a request, where a key is given and makes a valid value.
pub open spec fn authorization_entry(api_key: Option<Seq<char>>) -> Seq<(Seq<char>, Seq<char>)> {
    match api_key {
        Some(key) => optional_entry("authorization"@, bearer(key), true),
        None => Seq::empty(),
    }
}

impl ApiConfig {
    /// The address of `path` on the configured host.
    pub fn url(&self, path: &str) -> (url: String)
        ensures
            url@ == url_for(self.host@, opt_view(self.port), path@),
    {
        if starts_with(self.host.as_str(), "http") {
            match &self.port {
                Some(port) => self.host.clone().concat(":").concat(port.as_str()).concat(path),
                None => self.host.clone().concat(path),
            }
        } else {
            "https://".to_owned().concat(self.host.as_str()).concat(path)
        }
    }
}

/// Adds the header `name` with `value` where the value is valid.
pub fn push_valid(entries: &mut Vec<HeaderEntry>, name: &str, value: &str)
    ensures
        entry_views(final(entries)@) == entry_views(old(entries)@) + optional_entry(
            name@,
            value@,
            true,
        ),
{
    let ghost before = entry_views(entries@);
    if header_value_is_valid(value) {
        entries.push((name.to_owned(), value.to_owned()));
        assert(entry_views(entries@) =~= before + seq![(name@, value@)]);
    } else {
        assert(entry_views(entries@) =~= before + Seq::empty());
    }
}

/// Adds the header that authorizes a request with `api_key`.
pub fn push_authorization(entries: &mut Vec<HeaderEntry>, api_key: Option<&str>)
    ensures
        entry_views(final(entries)@) == entry_views(old(entries)@) + authorization_entry(
            match api_key {
                Some(k) => Some(k@),
                None => None,
            },
        ),
{
    let ghost before = entry_views(entries@);
    match api_key {
        Some(key) => {
            let value = "Bearer ".to_owned().concat(key);
            push_valid(entries, "authorization", value.as_str());
        },
        None => {
            assert(entry_views(entries@) =~= before + Seq::empty());
        },
    }
}

/// Adds copies of `extra` after `entries`.
pub fn push_all(entries: &mut Vec<HeaderEntry>, extra: &Vec<HeaderEntry>)
    ensures
        entry_views(final(entries)@) == entry_views(old(entries)@) + entry_views(extra@),
{
    let ghost before = entry_views(entries@);
    let mut i: usize = 0;
    assert(entry_views(entries@) =~= before + entry_views(extra@).take(0));
    while i < extra.len()
        invariant
            i <= extra.len(),
            entry_views(entries@) == before + entry_views(extra@).take(i as int),
        decreases extra.len() - i,
    {
        let ghost so_far = entry_views(entries@);
        entries.push((extra[i].0.clone(), extra[i].1.clone()));
        assert(entry_views(entries@) =~= so_far.push(entry_views(extra@)[i as int]));
        assert(entry_views(entries@) =~= before + entry_views(extra@).take(i + 1));
        i += 1;
    }
    assert(entry_views(extra@).take(i as int) =~= entry_views(extra@));
}

} // verus!
