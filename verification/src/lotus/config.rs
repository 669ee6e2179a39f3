//! Where the full node is and how to speak to it.

use vstd::prelude::*;

verus! {

/// The content type that is declared where none is given.
pub const DEFAULT_CONTENT_TYPE: &'static str = "application/json";

/// The address of the node, the content type to declare and the access
/// token; an empty token means none.
#[derive(Debug, Clone)]
pub struct LotusConfig {
    pub host_url: String,
    pub content_type: String,
    pub token: String,
}

impl LotusConfig {
    /// A configuration; a content type that is left out is JSON, a token
    /// that is left out is empty.
    pub fn new(host_url: String, content_type: Option<String>, token: Option<String>) -> (config:
        LotusConfig)
        ensures
            config.host_url == host_url,
            config.content_type@ == match content_type {
                Some(given) => given@,
                None => DEFAULT_CONTENT_TYPE@,
            },
            config.token@ == match token {
                Some(given) => given@,
                None => Seq::<char>::empty(),
            },
    {
        LotusConfig {
            host_url,
            content_type: match content_type {
                Some(given) => given,
                None => DEFAULT_CONTENT_TYPE.to_owned(),
            },
            token: match token {
                Some(given) => given,
                None => String::new(),
            },
        }
    }

    /// The token to authorize with, if there is one.
    pub fn bearer(&self) -> (token: Option<&str>)
        ensures
            match token {
                Some(t) => t@ == self.token@ && self.token@.len() > 0,
                None => self.token@.len() == 0,
            },
    {
        if self.token.as_str().is_empty() {
            None
        } else {
            Some(self.token.as_str())
        }
    }
}

} // verus!
