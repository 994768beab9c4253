/* SPDX-License-Identifier: MIT
 * Copyright (c) 2023 Louis Mayencourt
 */

//! The mailbox between the HTTP server, which receives a submitted
//! configuration on a thread of its own, and the orchestrator, which polls
//! for it: a flag and a value that is handed over once.

use vstd::prelude::*;
use crate::configuration_server::ConfigurationServer;

verus! {

/// A submission that waits to be fetched.
pub struct ServerGlobalData {
    pub configuration_received: bool,
    pub uri: Option<String>,
}

/// The text of an optional string.
pub open spec fn uri_text(uri: Option<String>) -> Option<Seq<char>> {
    match uri {
        Some(uri) => Some(uri@),
        None => None,
    }
}

impl ServerGlobalData {
    /// A mailbox that holds nothing.
    pub fn new() -> (data: Self)
        ensures
            !data.configuration_received,
            data.uri is None,
    {
        ServerGlobalData { configuration_received: false, uri: None }
    }

    /// Put the URI of a request into the mailbox, in place of what it held.
    pub fn receive(&mut self, uri: String)
        ensures
            final(self).configuration_received,
            uri_text(final(self).uri) == Some(uri@),
    {
        self.uri = Some(uri);
        self.configuration_received = true;
    }
}

impl ConfigurationServer for ServerGlobalData {
    fn is_configuration_received(&self) -> (received: bool)
        ensures
            received == self.configuration_received,
    {
        self.configuration_received
    }

    /// Fetch what the mailbox holds. The mailbox is empty afterwards: a
    /// submission is handed over once.
    fn get_config_uri(&mut self) -> (uri: Option<String>)
        ensures
            uri == old(self).uri,
            final(self).uri is None,
            !final(self).configuration_received,
    {
        let uri = self.uri.take();
        self.configuration_received = false;
        uri
    }
}

} // verus!
