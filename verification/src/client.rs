use vstd::prelude::*;

use crate::error::{Error, ErrorKind};

verus! {

/// The result of resolving a relative route against a base URL string, as
/// `url::Url::parse` followed by `url::Url::join` computes it; `None` when
/// either step fails. A pure function of the two strings.
pub uninterp spec fn url_resolve(base: Seq<char>, route: Seq<char>) -> Option<Seq<char>>;

/// Relies on `url::Url::parse` and `url::Url::join`: both are pure functions
/// of their string inputs, and `String::from` on the joined value returns its
/// serialization. The error text carries the parser's description.
#[verifier::external_body]
fn resolve_route(base: &str, route: &str) -> (r: Result<String, String>)
    ensures
        r matches Ok(u) ==> url_resolve(base@, route@) == Some(u@),
        r is Err ==> url_resolve(base@, route@) is None,
{
    match url::Url::parse(base) {
        Ok(b) => match b.join(route) {
            Ok(j) => Ok(String::from(j)),
            Err(e) => Err(e.to_string()),
        },
        Err(e) => Err(e.to_string()),
    }
}

/// Static configuration for the SMS gateway: the base URL and the three
/// provider values. Built once at process start and shared read-only.
#[derive(Debug, Clone)]
pub struct Client {
    pub base_url: String,
    pub sender: String,
    pub template_id: String,
    pub auth_key: String,
}

impl Client {
    /// Bundle the four configuration values.
    pub fn new(base_url: String, sender: String, template_id: String, auth_key: String) -> (r:
        Client)
        ensures
            r.base_url == base_url,
            r.sender == sender,
            r.template_id == template_id,
            r.auth_key == auth_key,
    {
        Client { base_url, sender, template_id, auth_key }
    }

    /// Resolve a relative route against the configured base URL. Succeeds
    /// exactly when the base parses and the join succeeds; otherwise the
    /// failure is internal, made before any call leaves the process.
    pub fn absolute_url(&self, route: &str) -> (r: Result<String, Error>)
        ensures
            r matches Ok(u) ==> url_resolve(self.base_url@, route@) == Some(u@),
            r is Err ==> url_resolve(self.base_url@, route@) is None,
            r matches Err(e) ==> e.kind == ErrorKind::Internal,
    {
        match resolve_route(self.base_url.as_str(), route) {
            Ok(u) => Ok(u),
            Err(msg) => Err(Error::new(msg.as_str(), ErrorKind::Internal)),
        }
    }

    /// Interpret what the HTTP transport handed back for a GET: a body that
    /// was retrieved as text is success as it stands, whatever it holds; a
    /// transport failure becomes an `ApiError` carrying the transport's own
    /// error text.
    pub fn complete_get(outcome: Result<String, String>) -> (r: Result<String, Error>)
        ensures
            outcome matches Ok(body) ==> r matches Ok(b) && b == body,
            outcome matches Err(t) ==> r matches Err(e) && e.message == t && e.kind
                == ErrorKind::ApiError(t),
    {
        match outcome {
            Ok(body) => Ok(body),
            Err(t) => {
                let message = t.clone();
                Err(Error { message, kind: ErrorKind::ApiError(t) })
            },
        }
    }
}

} // verus!
