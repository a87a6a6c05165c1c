//! The command line as plain values, and what a run derives from it.

use crate::display::prompt_for;
use crate::display::prompt_text;
use vstd::prelude::*;
use vstd::string::*;

verus! {

/// The arguments of a run: where the peer listens, where this process
/// listens, and optionally a user name and a shared password.
#[derive(Clone, Debug)]
pub struct Cli {
    pub peer_ip: String,
    pub peer_port: String,
    pub local_port: String,
    pub username: Option<String>,
    pub password: Option<String>,
}

/// What a run works with, derived once from the arguments.
#[derive(Debug, PartialEq, Eq)]
pub struct Settings {
    /// The prompt that heads every line sent.
    pub prompt: String,
    /// The shared password; empty for an unencrypted run.
    pub password: String,
    /// Whether sessions are encrypted.
    pub encrypted: bool,
    /// Whether the user is to be warned that no password was given.
    pub warn_unencrypted: bool,
    /// Where to connect to.
    pub peer_address: String,
    /// Where to listen.
    pub listen_address: String,
}

/// The name shown in the prompt: the one given, else the local address.
pub open spec fn shown_name(cli: Cli, local_ip: Seq<char>) -> Seq<char> {
    match cli.username {
        Some(name) => name@,
        None => local_ip,
    }
}

/// The password of the run: the one given, else none at all.
pub open spec fn shared_password(cli: Cli) -> Seq<char> {
    match cli.password {
        Some(password) => password@,
        None => Seq::empty(),
    }
}

impl Cli {
    /// Derives the settings of a run. Without a user name the local address
    /// stands in for it. Without a password, or with an empty one, the run is
    /// unencrypted; the warning is owed only where none was given.
    pub fn settings(&self, local_ip: &str) -> (settings: Settings)
        ensures
            settings.prompt@ == prompt_text(shown_name(*self, local_ip@), local_ip@),
            settings.password@ == shared_password(*self),
            settings.encrypted == (shared_password(*self).len() > 0),
            settings.warn_unencrypted == (self.password is None),
            settings.peer_address@ == self.peer_ip@ + ":"@ + self.peer_port@,
            settings.listen_address@ == "0.0.0.0:"@ + self.local_port@,
    {
        let prompt = match &self.username {
            Some(name) => prompt_for(name.as_str(), local_ip),
            None => prompt_for(local_ip, local_ip),
        };
        let password = match &self.password {
            Some(password) => password.clone(),
            None => String::new(),
        };
        let encrypted = !password.as_str().is_empty();
        let mut peer_address = self.peer_ip.clone();
        peer_address.append(":");
        peer_address.append(self.peer_port.as_str());
        let mut listen_address = String::from_str("0.0.0.0:");
        listen_address.append(self.local_port.as_str());
        Settings {
            prompt,
            password,
            encrypted,
            warn_unencrypted: self.password.is_none(),
            peer_address,
            listen_address,
        }
    }
}

} // verus!
