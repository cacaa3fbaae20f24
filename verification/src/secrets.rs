//! The credentials with which the metadata service is asked.

use vstd::prelude::*;
use vstd::string::StringExecFns;
use crate::error::{viewed, Error};
use crate::json::{json_node, node_at, Node, NodeView};

verus! {

/// The caller's credentials. They are handed on as they are: nothing is read
/// into any of the three.
#[derive(Debug, Clone, PartialEq)]
pub struct Secrets {
    client_id: String,
    client_secret: String,
    oauth_token: String,
}

/// [`Secrets`] over sequences of characters.
pub ghost struct SecretsView {
    pub client_id: Seq<char>,
    pub client_secret: Seq<char>,
    pub oauth_token: Seq<char>,
}

impl View for Secrets {
    type V = SecretsView;

    closed spec fn view(&self) -> SecretsView {
        SecretsView {
            client_id: self.client_id@,
            client_secret: self.client_secret@,
            oauth_token: self.oauth_token@,
        }
    }
}

impl Default for Secrets {
    fn default() -> (r: Secrets)
        ensures
            r@ == (SecretsView {
                client_id: Seq::empty(),
                client_secret: Seq::empty(),
                oauth_token: Seq::empty(),
            }),
    {
        Secrets {
            client_id: String::new(),
            client_secret: String::new(),
            oauth_token: String::new(),
        }
    }
}

impl Secrets {
    /// Credentials of these three parts.
    pub fn new(client_id: String, client_secret: String, oauth_token: String) -> (r: Secrets)
        ensures
            r@ == (SecretsView {
                client_id: client_id@,
                client_secret: client_secret@,
                oauth_token: oauth_token@,
            }),
    {
        Secrets { client_id, client_secret, oauth_token }
    }

    /// The id under which the caller is registered.
    pub fn client_id(&self) -> (r: &str)
        ensures
            r@ == self@.client_id,
    {
        self.client_id.as_str()
    }

    /// The secret that belongs to the id.
    pub fn client_secret(&self) -> (r: &str)
        ensures
            r@ == self@.client_secret,
    {
        self.client_secret.as_str()
    }

    /// The token that is sent as authorization.
    pub fn oauth_token(&self) -> (r: &str)
        ensures
            r@ == self@.oauth_token,
    {
        self.oauth_token.as_str()
    }
}

/// The credentials made of the three values found in a credentials file:
/// each must be a string.
pub open spec fn secrets_of_nodes(
    client_id: NodeView,
    client_secret: NodeView,
    oauth_token: NodeView,
) -> Result<SecretsView, Error> {
    match (client_id, client_secret, oauth_token) {
        (
            NodeView::Text(client_id),
            NodeView::Text(client_secret),
            NodeView::Text(oauth_token),
        ) => Ok(SecretsView { client_id, client_secret, oauth_token }),
        _ => Err(Error::Config),
    }
}

/// The credentials that the text of a credentials file holds.
pub open spec fn decoded_secrets(doc: Seq<char>) -> Result<SecretsView, Error> {
    secrets_of_nodes(
        json_node(doc, "/client_id"@),
        json_node(doc, "/client_secret"@),
        json_node(doc, "/oauth_token"@),
    )
}

/// Builds the credentials from the three values found in a credentials file.
pub fn secrets_from_nodes(client_id: Node, client_secret: Node, oauth_token: Node) -> (r: Result<
    Secrets,
    Error,
>)
    ensures
        viewed(r) == secrets_of_nodes(client_id@, client_secret@, oauth_token@),
{
    match (client_id, client_secret, oauth_token) {
        (Node::Text(client_id), Node::Text(client_secret), Node::Text(oauth_token)) => Ok(
            Secrets::new(client_id, client_secret, oauth_token),
        ),
        _ => Err(Error::Config),
    }
}

/// Decodes the text of a credentials file: a JSON object with the keys
/// `client_id`, `client_secret` and `oauth_token`, each a string.
pub fn decode_secrets(text: &str) -> (r: Result<Secrets, Error>)
    ensures
        viewed(r) == decoded_secrets(text@),
{
    secrets_from_nodes(
        node_at(text, "/client_id"),
        node_at(text, "/client_secret"),
        node_at(text, "/oauth_token"),
    )
}

/// Where the credentials file lies below the home directory `home`.
pub open spec fn secrets_path_of(home: Seq<char>) -> Seq<char> {
    home + "/.TwitchLink/secrets.json"@
}

/// Composes the path of the credentials file below the home directory.
pub fn secrets_path(home: &str) -> (r: String)
    ensures
        r@ == secrets_path_of(home@),
{
    let mut r = String::from_str(home);
    r.append("/.TwitchLink/secrets.json");
    r
}

} // verus!
