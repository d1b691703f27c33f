//! Where feeds and items come from: the local store, or an upstream server
//! behind an authenticating client. The choice is made once.

use vstd::prelude::*;

use crate::client::AuthClient;
use crate::client::AuthClientView;
use crate::error::SyncError;
use crate::error::SyncErrorView;
use crate::text::text_of;

verus! {

/// The source of feeds and items.
#[derive(Debug, Clone, PartialEq, Eq)]
pub enum Source {
    Local,
    Upstream(AuthClient),
}

/// The mathematical value of a [`Source`].
pub enum SourceView {
    Local,
    Upstream(AuthClientView),
}

impl View for Source {
    type V = SourceView;

    open spec fn view(&self) -> SourceView {
        match *self {
            Source::Local => SourceView::Local,
            Source::Upstream(client) => SourceView::Upstream(client@),
        }
    }
}

/// The characters of an optional pair of credentials.
pub open spec fn credentials_of(credentials: Option<(String, String)>) -> Option<
    (Seq<char>, Seq<char>),
> {
    match credentials {
        Some((access, secret)) => Some((access@, secret@)),
        None => None,
    }
}

/// The client of the server at `url`, if there are credentials for it.
pub open spec fn client_for(url: Seq<char>, credentials: Option<(Seq<char>, Seq<char>)>) -> Result<
    AuthClientView,
    SyncErrorView,
> {
    match credentials {
        Some((access, secret)) => Ok(AuthClientView { url, access, secret }),
        None => Err(SyncErrorView::ConfigurationMissing),
    }
}

/// The source that a command works on: the local store where no upstream
/// URL is configured, else the upstream server, which needs credentials.
pub open spec fn command_source(
    url: Option<Seq<char>>,
    credentials: Option<(Seq<char>, Seq<char>)>,
) -> Result<SourceView, SyncErrorView> {
    match url {
        Some(base) => match client_for(base, credentials) {
            Ok(client) => Ok(SourceView::Upstream(client)),
            Err(error) => Err(error),
        },
        None => Ok(SourceView::Local),
    }
}

/// The source that the worker polls: the upstream server where both its URL
/// and credentials are configured, else the local store.
pub open spec fn worker_source(
    url: Option<Seq<char>>,
    credentials: Option<(Seq<char>, Seq<char>)>,
) -> SourceView {
    match (url, credentials) {
        (Some(base), Some((access, secret))) => SourceView::Upstream(
            AuthClientView { url: base, access, secret },
        ),
        _ => SourceView::Local,
    }
}

/// The view of a client or of the reason why there is none.
pub open spec fn client_result(client: Result<AuthClient, SyncError>) -> Result<
    AuthClientView,
    SyncErrorView,
> {
    match client {
        Ok(c) => Ok(c@),
        Err(error) => Err(error@),
    }
}

/// The view of a source or of the reason why there is none.
pub open spec fn source_result(source: Result<Source, SyncError>) -> Result<
    SourceView,
    SyncErrorView,
> {
    match source {
        Ok(s) => Ok(s@),
        Err(error) => Err(error@),
    }
}

/// Makes the client of the server at `url`. Without credentials there is
/// none.
pub fn create_auth_client(credentials: Option<(String, String)>, url: String) -> (client: Result<
    AuthClient,
    SyncError,
>)
    ensures
        client_result(client) == client_for(url@, credentials_of(credentials)),
{
    match credentials {
        Some((access, secret)) => Ok(AuthClient::new(url, access, secret)),
        None => Err(SyncError::ConfigurationMissing),
    }
}

/// Chooses the source that a command works on.
pub fn source_for_command(url: Option<String>, credentials: Option<(String, String)>) -> (source:
    Result<Source, SyncError>)
    ensures
        source_result(source) == command_source(text_of(url), credentials_of(credentials)),
{
    match url {
        Some(base) => match create_auth_client(credentials, base) {
            Ok(client) => Ok(Source::Upstream(client)),
            Err(error) => Err(error),
        },
        None => Ok(Source::Local),
    }
}

} // verus!
