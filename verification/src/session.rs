//! Sessions: the `herdr session` commands.

use vstd::prelude::*;
use crate::client::{CommandLine, HerdrClient, runs};
use crate::text::{args3, args4};

verus! {

/// The session commands of a client.
#[derive(Clone, Copy, Debug)]
pub struct SessionClient<'a> {
    client: &'a HerdrClient,
}

impl HerdrClient {
    /// The session commands of this client.
    pub fn session(&self) -> (s: SessionClient<'_>)
        ensures
            s.binary() == self.spec_binary(),
    {
        SessionClient::new(self)
    }
}

impl<'a> SessionClient<'a> {
    /// The binary the commands run.
    pub closed spec fn binary(&self) -> Seq<char> {
        self.client.spec_binary()
    }

    /// The sub-client that builds its commands for `client`.
    pub fn new(client: &'a HerdrClient) -> (s: Self)
        ensures
            s.binary() == client.spec_binary(),
    {
        SessionClient { client }
    }

    /// `session list --json`.
    pub fn list_command(&self) -> (c: CommandLine)
        ensures
            runs(c, self.binary(), seq!["session"@, "list"@, "--json"@]),
    {
        self.client.command(args3("session", "list", "--json"))
    }

    /// `session attach NAME`.
    pub fn attach_command(&self, name: &str) -> (c: CommandLine)
        ensures
            runs(c, self.binary(), seq!["session"@, "attach"@, name@]),
    {
        self.client.command(args3("session", "attach", name))
    }

    /// `session stop NAME --json`.
    pub fn stop_command(&self, name: &str) -> (c: CommandLine)
        ensures
            runs(c, self.binary(), seq!["session"@, "stop"@, name@, "--json"@]),
    {
        self.client.command(args4("session", "stop", name, "--json"))
    }

    /// `session delete NAME --json`.
    pub fn delete_command(&self, name: &str) -> (c: CommandLine)
        ensures
            runs(c, self.binary(), seq!["session"@, "delete"@, name@, "--json"@]),
    {
        self.client.command(args4("session", "delete", name, "--json"))
    }
}

} // verus!
