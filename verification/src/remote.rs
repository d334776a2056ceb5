//! Addresses of remote repositories, as far as they are text.

use crate::text::{fields_of, split, views};
use vstd::prelude::*;

verus! {

/// The parts of a repository address of the form `user@host:owner/name`.
#[derive(Debug)]
pub struct Remote {
    /// What follows the first `@`, up to a second one.
    pub repository: String,
    /// The host: what stands in `repository` before its first `:`.
    pub host: String,
    /// The address that is cloned.
    pub url: String,
}

/// What a `Remote` stands for.
pub struct RemoteView {
    pub repository: Seq<char>,
    pub host: Seq<char>,
    pub url: Seq<char>,
}

impl View for Remote {
    type V = RemoteView;

    open spec fn view(&self) -> RemoteView {
        RemoteView { repository: self.repository@, host: self.host@, url: self.url@ }
    }
}

/// The parts of an address. An address without `@`, or without `:` after
/// the `@`, has none. The address that is cloned names the path between the
/// first and the second `:` of the repository, for the user `git` at
/// `github.com`.
pub open spec fn remote_of(url: Seq<char>) -> Option<RemoteView> {
    let parts = fields_of(url, '@');
    if parts.len() <= 1 {
        None
    } else {
        let inner = fields_of(parts[1], ':');
        if inner.len() <= 1 {
            None
        } else {
            Some(
                RemoteView {
                    repository: parts[1],
                    host: inner[0],
                    url: "git@github.com:"@ + inner[1],
                },
            )
        }
    }
}

/// Takes a repository address apart.
pub fn parse_remote(url: &str) -> (remote: Option<Remote>)
    ensures
        match remote_of(url@) {
            Some(expected) => remote is Some && remote->Some_0@ == expected,
            None => remote is None,
        },
{
    let parts = split(url, '@');
    if parts.len() <= 1 {
        return None;
    }
    let inner = split(parts[1].as_str(), ':');
    if inner.len() <= 1 {
        return None;
    }
    let mut address = String::from_str("git@github.com:");
    address.append(inner[1].as_str());
    Some(Remote { repository: parts[1].clone(), host: inner[0].clone(), url: address })
}

} // verus!
