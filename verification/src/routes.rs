//! The pure decisions of the HTTP layer: which alias hosts redirect where,
//! what the bare hosts answer, and the login callback's query shape. The
//! HTTP plumbing itself lives outside the library and only calls in.

use vstd::prelude::*;
use crate::strutil::str_eq;

verus! {

/// The redirect target for a known alias host, nothing for others.
pub open spec fn redirect_target_spec(host: Seq<char>) -> Option<Seq<char>> {
    if host == "coreyja.tv"@ || host == "coreyja.tube"@ {
        Some("https://coreyja.com/videos"@)
    } else if host == "coreyja.blog"@ {
        Some("https://coreyja.com/posts"@)
    } else if host == "coreyja.club"@ {
        Some("https://discord.gg/CpAPpXrgUq"@)
    } else if host == "beta.coreyja.com"@ {
        Some("https://coreyja.com"@)
    } else {
        None
    }
}

/// Where a request for `host` redirects, if anywhere.
pub fn redirect_target(host: &str) -> (r: Option<String>)
    ensures
        match r {
            Some(u) => redirect_target_spec(host@) == Some(u@),
            None => redirect_target_spec(host@) is None,
        },
{
    if str_eq(host, "coreyja.tv") || str_eq(host, "coreyja.tube") {
        Some("https://coreyja.com/videos".to_string())
    } else if str_eq(host, "coreyja.blog") {
        Some("https://coreyja.com/posts".to_string())
    } else if str_eq(host, "coreyja.club") {
        Some("https://discord.gg/CpAPpXrgUq".to_string())
    } else if str_eq(host, "beta.coreyja.com") {
        Some("https://coreyja.com".to_string())
    } else {
        None
    }
}

/// The body served for `host` when nothing redirects it.
pub open spec fn host_message_spec(host: Seq<char>) -> Seq<char> {
    if host == "redirects.coreyja.domains"@ {
        "I have lots of domains. Some of them just redirect to others."@
    } else {
        "This is not one of the hosts I know about."@
    }
}

/// What the root route answers for `host`.
pub fn host_message(host: &str) -> (m: String)
    ensures
        m@ == host_message_spec(host@),
{
    if str_eq(host, "redirects.coreyja.domains") {
        "I have lots of domains. Some of them just redirect to others.".to_string()
    } else {
        "This is not one of the hosts I know about.".to_string()
    }
}

/// The query parameters the identity provider sends to the login callback.
pub struct LoginCallback {
    state: String,
}

impl View for LoginCallback {
    type V = Seq<char>;

    closed spec fn view(&self) -> Seq<char> {
        self.state@
    }
}

impl LoginCallback {
    /// A callback carrying the signed state token.
    pub fn new(state: String) -> (c: LoginCallback)
        ensures
            c@ == state@,
    {
        LoginCallback { state }
    }

    /// The signed state token the identity provider echoes back.
    pub fn state(&self) -> (s: &String)
        ensures
            s@ == self@,
    {
        &self.state
    }
}

} // verus!
