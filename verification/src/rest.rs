//! The client: connection info for the two backend identities of the local
//! service, and a client bound at construction to exactly one of them.

use vstd::prelude::*;

use crate::transport::build_authenticated_transport;
use crate::transport::valid_header_text;
use crate::urls::build_url;
use crate::urls::url_of;

verus! {

/// The errors the client surfaces. Construction fails either because the
/// credential cannot stand in a header or because the transport could not be
/// built; each request fails either in transport or because a body that was
/// expected to be JSON is not.
#[derive(Debug)]
pub enum LcuError {
    /// The chosen credential holds a character that cannot stand in an HTTP
    /// header value.
    InvalidCredential(reqwest::header::InvalidHeaderValue),
    /// The transport could not be built.
    Construction(reqwest::Error),
    /// The connection could not be established, or the request could not be
    /// sent or the response received.
    Transport(reqwest::Error),
    /// The response body was not valid JSON although one was expected.
    Decode(serde_json::Error),
}

/// Connection info for the two identities ("default" and "remoting") of the
/// local service: a port and a credential for each. Immutable once built.
#[derive(Clone)]
pub struct LCUClientInfo {
    pub port: u16,
    pub token: String,
    pub remoting_port: u16,
    pub remoting_token: String,
}

/// A client bound to one of the two backend identities. The transport was
/// configured at construction with the identity's credential, and the ghost
/// field records which credential that was; well-formedness says it is the
/// one belonging to the client's mode, so port and credential can never mix.
/// Cloning yields another handle to the same transport and configuration.
#[derive(Clone)]
pub struct RESTClient {
    client: reqwest::Client,
    remoting: bool,
    pub lcu_client_info: LCUClientInfo,
    token_in_transport: Ghost<Seq<char>>,
}

impl RESTClient {
    /// Which identity this client speaks for.
    pub closed spec fn spec_remoting(&self) -> bool {
        self.remoting
    }

    /// The connection info the client keeps.
    pub closed spec fn spec_info(&self) -> LCUClientInfo {
        self.lcu_client_info
    }

    /// The port of the client's identity.
    pub closed spec fn spec_port(&self) -> u16 {
        if self.remoting {
            self.lcu_client_info.remoting_port
        } else {
            self.lcu_client_info.port
        }
    }

    /// The credential of the client's identity.
    pub closed spec fn spec_credential(&self) -> Seq<char> {
        if self.remoting {
            self.lcu_client_info.remoting_token@
        } else {
            self.lcu_client_info.token@
        }
    }

    /// The credential baked into the transport at construction.
    pub closed spec fn spec_transport_credential(&self) -> Seq<char> {
        self.token_in_transport@
    }

    /// The transport handle the client was built with.
    pub closed spec fn spec_transport(&self) -> reqwest::Client {
        self.client
    }

    /// The transport carries exactly the credential of the client's identity.
    pub closed spec fn wf(&self) -> bool {
        self.token_in_transport@ == self.spec_credential()
    }

    /// Build a client for one identity: the remoting credential and port when
    /// `remoting` is set, the default pair otherwise. Fails exactly when the
    /// chosen credential cannot stand in a header, or when the transport
    /// builder fails; the network is not touched.
    pub fn new(lcu_info: LCUClientInfo, remoting: bool) -> (r: Result<RESTClient, LcuError>)
        ensures
            r matches Ok(c) ==> c.wf() && c.spec_remoting() == remoting && c.spec_info()
                == lcu_info,
            r matches Ok(c) ==> c.spec_port() == (if remoting {
                lcu_info.remoting_port
            } else {
                lcu_info.port
            }) && c.spec_credential() == (if remoting {
                lcu_info.remoting_token@
            } else {
                lcu_info.token@
            }),
            !valid_header_text(
                if remoting {
                    lcu_info.remoting_token@
                } else {
                    lcu_info.token@
                },
            ) <==> (r matches Err(e) && e is InvalidCredential),
            valid_header_text(
                if remoting {
                    lcu_info.remoting_token@
                } else {
                    lcu_info.token@
                },
            ) ==> (r is Ok || (r matches Err(e) && e is Construction)),
    {
        let token: &String = if remoting {
            &lcu_info.remoting_token
        } else {
            &lcu_info.token
        };
        let ghost chosen: Seq<char> = token@;
        let client = match build_authenticated_transport(token.as_str()) {
            Ok(c) => c,
            Err(e) => {
                return Err(e);
            },
        };
        Ok(
            RESTClient {
                client,
                remoting,
                lcu_client_info: lcu_info,
                token_in_transport: Ghost(chosen),
            },
        )
    }

    /// The port of the client's identity, read on every request.
    pub fn get_port(&self) -> (p: u16)
        ensures
            p == self.spec_port(),
    {
        if self.remoting {
            self.lcu_client_info.remoting_port
        } else {
            self.lcu_client_info.port
        }
    }

    /// The credential of the client's identity: the one the transport carries
    /// on a well-formed client.
    pub fn chosen_token(&self) -> (t: &String)
        ensures
            t@ == self.spec_credential(),
    {
        if self.remoting {
            &self.lcu_client_info.remoting_token
        } else {
            &self.lcu_client_info.token
        }
    }

    /// The address a request for `endpoint` targets: the local host at the
    /// identity's port, the endpoint appended verbatim.
    pub fn request_url(&self, endpoint: &str) -> (r: String)
        ensures
            r@ == url_of(self.spec_port(), endpoint@),
    {
        build_url(self.get_port(), endpoint)
    }

    /// The transport handle, for the code that performs the network exchange.
    /// Every request it issues carries the credential fixed at construction.
    pub fn transport(&self) -> (t: &reqwest::Client)
        ensures
            *t == self.spec_transport(),
    {
        &self.client
    }
}

/// Port and credential are never mixed: on a well-formed client in remoting
/// mode every request targets the remoting port and the transport carries the
/// remoting credential, and out of remoting mode it targets the default port
/// and carries the default credential.
pub proof fn lemma_identity_never_mixed(c: RESTClient)
    requires
        c.wf(),
    ensures
        c.spec_remoting() ==> c.spec_port() == c.spec_info().remoting_port
            && c.spec_transport_credential() == c.spec_info().remoting_token@,
        !c.spec_remoting() ==> c.spec_port() == c.spec_info().port
            && c.spec_transport_credential() == c.spec_info().token@,
{
}

} // verus!
