//! Notification settings, as the `DISCORD_*` environment variables give them.
use vstd::prelude::*;
use vstd::string::*;

use crate::discord::message::opt_view;
use crate::startup::setting_or;
use crate::text::{split_on, split_string, string_of, trim, trim_string, views};

verus! {

/// Configuration for the notification client.
#[derive(Clone, Debug)]
pub struct NotificationConfig {
    pub webhook_url: Option<String>,
    pub username: String,
    pub cluster_name: String,
    pub environment: String,
    pub notify_on_startup: bool,
    pub notify_on_failure: bool,
    pub failure_mention_role: Option<String>,
    pub failure_mention_users: Vec<String>,
}

/// A setting that counts only when it is present and not empty.
pub open spec fn nonempty_setting(v: Option<String>) -> Option<Seq<char>> {
    match v {
        Some(s) => if s@.len() > 0 {
            Some(s@)
        } else {
            None
        },
        None => None,
    }
}

/// A switch: on when unset, else on exactly for `true` and `1`.
pub open spec fn switch_setting(v: Option<String>) -> bool {
    match v {
        Some(s) => s@ == "true"@ || s@ == "1"@,
        None => true,
    }
}

/// The texts that are not empty, in order.
pub open spec fn non_empty_texts(texts: Seq<Seq<char>>) -> Seq<Seq<char>>
    decreases texts.len(),
{
    if texts.len() == 0 {
        Seq::<Seq<char>>::empty()
    } else {
        let init = non_empty_texts(texts.drop_last());
        if texts.last().len() > 0 {
            init.push(texts.last())
        } else {
            init
        }
    }
}

/// The entries of a comma-separated list: each trimmed of white space, the empty ones
/// left out.
pub open spec fn comma_list(raw: Seq<char>) -> Seq<Seq<char>> {
    non_empty_texts(split_on(raw, ',').map_values(|p: Seq<char>| trim(p)))
}

fn keep_some(v: Option<String>) -> (r: Option<String>)
    ensures
        opt_view(r) == nonempty_setting(v),
{
    match v {
        Some(s) => if s.as_str().is_empty() {
            None
        } else {
            Some(s)
        },
        None => None,
    }
}

fn text_is(s: &String, lit: &str) -> (r: bool)
    ensures
        r == (s@ == lit@),
{
    let t = string_of(lit);
    s.eq(&t)
}

fn switch_of(v: Option<String>) -> (r: bool)
    ensures
        r == switch_setting(v),
{
    match v {
        Some(s) => text_is(&s, "true") || text_is(&s, "1"),
        None => true,
    }
}

/// The entries of a comma-separated list, trimmed, the empty ones left out.
pub fn parse_comma_list(raw: &str) -> (r: Vec<String>)
    ensures
        views(r@) == comma_list(raw@),
{
    let pieces = split_string(raw, ',');
    let ghost trimmed = split_on(raw@, ',').map_values(|p: Seq<char>| trim(p));
    let mut out: Vec<String> = Vec::new();
    let n = pieces.len();
    let mut i: usize = 0;
    while i < n
        invariant
            n == pieces@.len(),
            0 <= i <= n,
            views(pieces@) == split_on(raw@, ','),
            trimmed == split_on(raw@, ',').map_values(|p: Seq<char>| trim(p)),
            views(out@) == non_empty_texts(trimmed.subrange(0, i as int)),
        decreases n - i,
    {
        let t = trim_string(pieces[i].as_str());
        let ghost pre = trimmed.subrange(0, i as int);
        let ghost next = trimmed.subrange(0, i + 1);
        assert(next.drop_last() =~= pre);
        assert(views(pieces@)[i as int] == pieces@[i as int]@);
        assert(next.last() == t@);
        if !t.as_str().is_empty() {
            out.push(t);
            assert(views(out@) =~= non_empty_texts(next));
        }
        i = i + 1;
    }
    assert(trimmed.subrange(0, n as int) =~= trimmed);
    out
}

impl NotificationConfig {
    /// The configuration from the values of `DISCORD_WEBHOOK_URL`, `DISCORD_USERNAME`,
    /// `DISCORD_CLUSTER_NAME`, `DISCORD_ENVIRONMENT`, `DISCORD_NOTIFY_ON_STARTUP`,
    /// `DISCORD_NOTIFY_ON_FAILURE`, `DISCORD_FAILURE_MENTION_ROLE` and
    /// `DISCORD_FAILURE_MENTION_USERS` (`None` where unset or not Unicode).
    pub fn from_env_values(
        webhook_url: Option<String>,
        username: Option<String>,
        cluster_name: Option<String>,
        environment: Option<String>,
        notify_on_startup: Option<String>,
        notify_on_failure: Option<String>,
        failure_mention_role: Option<String>,
        failure_mention_users: Option<String>,
    ) -> (r: Self)
        ensures
            opt_view(r.webhook_url) == nonempty_setting(webhook_url),
            r.username@ == setting_or(username, "Pleme Deploy"@),
            r.cluster_name@ == setting_or(cluster_name, "unknown"@),
            r.environment@ == setting_or(environment, "unknown"@),
            r.notify_on_startup == switch_setting(notify_on_startup),
            r.notify_on_failure == switch_setting(notify_on_failure),
            opt_view(r.failure_mention_role) == nonempty_setting(failure_mention_role),
            views(r.failure_mention_users@) == comma_list(
                setting_or(failure_mention_users, Seq::<char>::empty()),
            ),
    {
        let users_raw = match failure_mention_users {
            Some(u) => u,
            None => String::new(),
        };
        let users = parse_comma_list(users_raw.as_str());
        NotificationConfig {
            webhook_url: keep_some(webhook_url),
            username: match username {
                Some(u) => u,
                None => string_of("Pleme Deploy"),
            },
            cluster_name: match cluster_name {
                Some(c) => c,
                None => string_of("unknown"),
            },
            environment: match environment {
                Some(e) => e,
                None => string_of("unknown"),
            },
            notify_on_startup: switch_of(notify_on_startup),
            notify_on_failure: switch_of(notify_on_failure),
            failure_mention_role: keep_some(failure_mention_role),
            failure_mention_users: users,
        }
    }
}

} // verus!
