//! What the bot keeps between runs: the credentials of its account and the
//! id of the status it posted last.

use vstd::prelude::*;
use vstd::string::*;

verus! {

/// Credentials of a registered Mastodon application.
#[derive(Debug)]
pub struct Credentials {
    /// Base url of the instance
    pub base: String,
    /// The client's id given by the instance
    pub client_id: String,
    /// The client's secret given by the instance
    pub client_secret: String,
    /// Url to redirect back to the application
    pub redirect: String,
    /// The client's access token
    pub token: String,
}

/// What a `Credentials` holds, as sequences of characters.
pub struct CredentialsView {
    pub base: Seq<char>,
    pub client_id: Seq<char>,
    pub client_secret: Seq<char>,
    pub redirect: Seq<char>,
    pub token: Seq<char>,
}

impl View for Credentials {
    type V = CredentialsView;

    open spec fn view(&self) -> CredentialsView {
        CredentialsView {
            base: self.base@,
            client_id: self.client_id@,
            client_secret: self.client_secret@,
            redirect: self.redirect@,
            token: self.token@,
        }
    }
}

impl Clone for Credentials {
    fn clone(&self) -> (copy: Credentials)
        ensures
            copy@ == self@,
    {
        Credentials {
            base: self.base.clone(),
            client_id: self.client_id.clone(),
            client_secret: self.client_secret.clone(),
            redirect: self.redirect.clone(),
            token: self.token.clone(),
        }
    }
}

/// Mastodon config
#[derive(Debug)]
pub struct Config {
    pub mastodon: Credentials,
    last_status_id: String,
}

/// What a `Config` holds.
pub struct ConfigView {
    pub mastodon: CredentialsView,
    /// Id of the status posted last; empty where none was posted yet.
    pub last_status_id: Seq<char>,
}

impl ConfigView {
    /// This config after the status `id` was posted.
    pub open spec fn posted(self, id: Seq<char>) -> ConfigView {
        ConfigView { mastodon: self.mastodon, last_status_id: id }
    }
}

impl View for Config {
    type V = ConfigView;

    closed spec fn view(&self) -> ConfigView {
        ConfigView { mastodon: self.mastodon@, last_status_id: self.last_status_id@ }
    }
}

impl Clone for Config {
    fn clone(&self) -> (copy: Config)
        ensures
            copy@ == self@,
    {
        Config { mastodon: self.mastodon.clone(), last_status_id: self.last_status_id.clone() }
    }
}

impl Config {
    /// Create a new config
    pub fn new(mastodon: Credentials, last_status_id: String) -> (config: Config)
        ensures
            config@ == (ConfigView { mastodon: mastodon@, last_status_id: last_status_id@ }),
    {
        Config { mastodon, last_status_id }
    }

    /// The credentials of the account.
    pub fn credentials(&self) -> (mastodon: &Credentials)
        ensures
            mastodon@ == self@.mastodon,
    {
        &self.mastodon
    }

    /// Get the last status id
    pub fn get_last_status_id(&self) -> (id: String)
        ensures
            id@ == self@.last_status_id,
    {
        self.last_status_id.clone()
    }

    /// Set the last status id
    pub fn set_last_status_id(&mut self, id: String)
        ensures
            final(self)@ == old(self)@.posted(id@),
    {
        self.last_status_id = id;
    }
}

} // verus!
