//! The client of one tenant and its builder.

use vstd::prelude::*;
use vstd::string::*;
use crate::api::clients::ClientsApi;
use crate::api::connections::ConnectionsApi;
use crate::api::logs::LogsApi;
use crate::api::users::UsersApi;
use crate::endpoint::{parse_url, planned, resolve_url, url_parse, Endpoint, Method};
use crate::error::{yields_view, Auth0Error, Auth0ErrorView};
use crate::retry::RetryConfig;
use crate::text::{has_prefix, starts_with};

verus! {

/// A client secret in a `secrecy::SecretString`: it is wiped from memory
/// when dropped, and no formatting shows it.
#[verifier::external_body]
pub struct ClientSecret {
    inner: secrecy::SecretString,
}

/// The text that a `ClientSecret` holds.
pub uninterp spec fn secret_text(secret: ClientSecret) -> Seq<char>;

/// `secrecy::SecretString::from`: `text` moves into the box.
#[verifier::external_body]
pub(crate) fn seal_secret(text: String) -> (secret: ClientSecret)
    ensures
        secret_text(secret) == text@,
{
    ClientSecret { inner: secrecy::SecretString::from(text) }
}

/// `secrecy::ExposeSecret::expose_secret`: the text inside the box.
#[verifier::external_body]
pub(crate) fn expose_secret(secret: &ClientSecret) -> (text: &str)
    ensures
        text@ == secret_text(*secret),
{
    secrecy::ExposeSecret::expose_secret(&secret.inner)
}

/// What the client authenticates with.
struct Credentials {
    client_id: String,
    client_secret: ClientSecret,
    audience: String,
}

/// A configured client of one tenant.
pub struct ManagementClient {
    base_url: String,
    credentials: Credentials,
    retry: RetryConfig,
}

/// A `ManagementClient` as plain values.
pub struct ManagementClientView {
    /// The base URL, as the `url` crate writes it.
    pub base_url: Seq<char>,
    pub client_id: Seq<char>,
    pub client_secret: Seq<char>,
    pub audience: Seq<char>,
    pub retry: RetryConfig,
}

impl View for ManagementClient {
    type V = ManagementClientView;

    closed spec fn view(&self) -> ManagementClientView {
        ManagementClientView {
            base_url: self.base_url@,
            client_id: self.credentials.client_id@,
            client_secret: secret_text(self.credentials.client_secret),
            audience: self.credentials.audience@,
            retry: self.retry,
        }
    }
}

/// The body of the request to the token endpoint, and its URL.
pub struct TokenRequest<'a> {
    pub url: String,
    pub grant_type: &'a str,
    pub client_id: &'a str,
    pub client_secret: &'a str,
    pub audience: &'a str,
}

/// A `TokenRequest` as plain values.
pub struct TokenRequestView {
    pub url: Seq<char>,
    pub grant_type: Seq<char>,
    pub client_id: Seq<char>,
    pub client_secret: Seq<char>,
    pub audience: Seq<char>,
}

impl<'a> View for TokenRequest<'a> {
    type V = TokenRequestView;

    open spec fn view(&self) -> TokenRequestView {
        TokenRequestView {
            url: self.url@,
            grant_type: self.grant_type@,
            client_id: self.client_id@,
            client_secret: self.client_secret@,
            audience: self.audience@,
        }
    }
}

impl ManagementClient {
    /// A builder with nothing set.
    pub fn builder() -> (b: ManagementClientBuilder)
        ensures
            b@ == ManagementClientBuilderView::empty(),
    {
        ManagementClientBuilder {
            domain: None,
            client_id: None,
            client_secret: None,
            audience: None,
            retry: None,
        }
    }

    /// The base URL of the tenant.
    pub fn base_url(&self) -> (url: &str)
        ensures
            url@ == self@.base_url,
    {
        self.base_url.as_str()
    }

    /// The calls on users.
    pub fn users(&self) -> (api: UsersApi<'_>)
        ensures
            api@ == self@,
    {
        UsersApi::new(self)
    }

    /// The calls on applications.
    pub fn clients(&self) -> (api: ClientsApi<'_>)
        ensures
            api@ == self@,
    {
        ClientsApi::new(self)
    }

    /// The calls on connections.
    pub fn connections(&self) -> (api: ConnectionsApi<'_>)
        ensures
            api@ == self@,
    {
        ConnectionsApi::new(self)
    }

    /// The calls on log events.
    pub fn logs(&self) -> (api: LogsApi<'_>)
        ensures
            api@ == self@,
    {
        LogsApi::new(self)
    }

    /// The retry policy of the token exchange.
    pub fn retry_config(&self) -> (config: RetryConfig)
        ensures
            config == self@.retry,
    {
        self.retry
    }

    /// The request that asks the token endpoint for a token: a
    /// client-credentials grant for this client's audience, posted to
    /// `oauth/token` under the base URL.
    pub open spec fn token_request_spec(self) -> Result<TokenRequestView, Auth0ErrorView> {
        match planned(self@.base_url, Method::Post, "oauth/token"@) {
            Ok(endpoint) => Ok(
                TokenRequestView {
                    url: endpoint.url,
                    grant_type: "client_credentials"@,
                    client_id: self@.client_id,
                    client_secret: self@.client_secret,
                    audience: self@.audience,
                },
            ),
            Err(e) => Err(e),
        }
    }

    /// Builds the request that asks the token endpoint for a token.
    pub fn token_request(&self) -> (r: Result<TokenRequest<'_>, Auth0Error>)
        ensures
            yields_view(r, self.token_request_spec()),
    {
        match resolve_url(self.base_url.as_str(), "oauth/token") {
            Ok(url) => Ok(
                TokenRequest {
                    url,
                    grant_type: "client_credentials",
                    client_id: self.credentials.client_id.as_str(),
                    client_secret: expose_secret(&self.credentials.client_secret),
                    audience: self.credentials.audience.as_str(),
                },
            ),
            Err(e) => Err(Auth0Error::Url(e)),
        }
    }

    /// The call of `method` on `reference`, resolved against the base URL.
    pub fn endpoint(&self, method: Method, reference: &str) -> (r: Result<Endpoint, Auth0Error>)
        ensures
            yields_view(r, planned(self@.base_url, method, reference@)),
    {
        match resolve_url(self.base_url.as_str(), reference) {
            Ok(url) => Ok(Endpoint { method, url }),
            Err(e) => Err(Auth0Error::Url(e)),
        }
    }

    /// A `GET` of `reference`.
    pub fn get(&self, reference: &str) -> (r: Result<Endpoint, Auth0Error>)
        ensures
            yields_view(r, planned(self@.base_url, Method::Get, reference@)),
    {
        self.endpoint(Method::Get, reference)
    }

    /// A `POST` to `reference`.
    pub fn post(&self, reference: &str) -> (r: Result<Endpoint, Auth0Error>)
        ensures
            yields_view(r, planned(self@.base_url, Method::Post, reference@)),
    {
        self.endpoint(Method::Post, reference)
    }

    /// A `PATCH` of `reference`.
    pub fn patch(&self, reference: &str) -> (r: Result<Endpoint, Auth0Error>)
        ensures
            yields_view(r, planned(self@.base_url, Method::Patch, reference@)),
    {
        self.endpoint(Method::Patch, reference)
    }

    /// A `DELETE` of `reference`.
    pub fn delete(&self, reference: &str) -> (r: Result<Endpoint, Auth0Error>)
        ensures
            yields_view(r, planned(self@.base_url, Method::Delete, reference@)),
    {
        self.endpoint(Method::Delete, reference)
    }
}

/// Collects what a `ManagementClient` is made of.
pub struct ManagementClientBuilder {
    domain: Option<String>,
    client_id: Option<String>,
    client_secret: Option<ClientSecret>,
    audience: Option<String>,
    retry: Option<RetryConfig>,
}

/// A `ManagementClientBuilder` as plain values.
pub struct ManagementClientBuilderView {
    pub domain: Option<Seq<char>>,
    pub client_id: Option<Seq<char>>,
    pub client_secret: Option<Seq<char>>,
    pub audience: Option<Seq<char>>,
    pub retry: Option<RetryConfig>,
}

impl ManagementClientBuilderView {
    /// Nothing set.
    pub open spec fn empty() -> Self {
        ManagementClientBuilderView {
            domain: None,
            client_id: None,
            client_secret: None,
            audience: None,
            retry: None,
        }
    }

    /// The text that is parsed as the base URL: the domain itself where it
    /// begins with `http://` or `https://`, and else `https://`, the domain
    /// and `/`.
    pub open spec fn base_url_text(domain: Seq<char>) -> Seq<char> {
        if has_prefix(domain, "http://"@) || has_prefix(domain, "https://"@) {
            domain
        } else {
            "https://"@ + domain + "/"@
        }
    }

    /// The client that these settings make, or why they make none. The
    /// domain, the client id and the client secret are required, and are
    /// missed in this order. The audience is, unless set, the base URL
    /// followed by `api/v2/`; the retry policy is, unless set, the default.
    pub open spec fn built(self) -> Result<ManagementClientView, Auth0ErrorView> {
        if self.domain is None {
            Err(Auth0ErrorView::Configuration("domain is required"@))
        } else if self.client_id is None {
            Err(Auth0ErrorView::Configuration("client_id is required"@))
        } else if self.client_secret is None {
            Err(Auth0ErrorView::Configuration("client_secret is required"@))
        } else {
            match url_parse(Self::base_url_text(self.domain->0)) {
                Ok(base_url) => Ok(
                    ManagementClientView {
                        base_url,
                        client_id: self.client_id->0,
                        client_secret: self.client_secret->0,
                        audience: match self.audience {
                            Some(audience) => audience,
                            None => base_url + "api/v2/"@,
                        },
                        retry: match self.retry {
                            Some(retry) => retry,
                            None => RetryConfig {
                                max_retries: 3,
                                initial_delay_ms: 100,
                                max_delay_ms: 10_000,
                                multiplier_permille: 2000,
                            },
                        },
                    },
                ),
                Err(e) => Err(Auth0ErrorView::Url(e)),
            }
        }
    }
}

impl View for ManagementClientBuilder {
    type V = ManagementClientBuilderView;

    closed spec fn view(&self) -> ManagementClientBuilderView {
        ManagementClientBuilderView {
            domain: match self.domain {
                Some(d) => Some(d@),
                None => None,
            },
            client_id: match self.client_id {
                Some(c) => Some(c@),
                None => None,
            },
            client_secret: match self.client_secret {
                Some(s) => Some(secret_text(s)),
                None => None,
            },
            audience: match self.audience {
                Some(a) => Some(a@),
                None => None,
            },
            retry: self.retry,
        }
    }
}

impl ManagementClientBuilder {
    /// Sets the tenant: a domain such as `tenant.auth0.com`, or a full URL.
    pub fn domain(self, domain: String) -> (b: Self)
        ensures
            b@ == (ManagementClientBuilderView { domain: Some(domain@), ..self@ }),
    {
        let mut b = self;
        b.domain = Some(domain);
        b
    }

    /// Sets the client id.
    pub fn client_id(self, client_id: String) -> (b: Self)
        ensures
            b@ == (ManagementClientBuilderView { client_id: Some(client_id@), ..self@ }),
    {
        let mut b = self;
        b.client_id = Some(client_id);
        b
    }

    /// Sets the client secret.
    pub fn client_secret(self, client_secret: String) -> (b: Self)
        ensures
            b@ == (ManagementClientBuilderView { client_secret: Some(client_secret@), ..self@ }),
    {
        let mut b = self;
        b.client_secret = Some(seal_secret(client_secret));
        b
    }

    /// Sets the audience that tokens are asked for.
    pub fn audience(self, audience: String) -> (b: Self)
        ensures
            b@ == (ManagementClientBuilderView { audience: Some(audience@), ..self@ }),
    {
        let mut b = self;
        b.audience = Some(audience);
        b
    }

    /// Sets the retry policy of the token exchange.
    pub fn retry_config(self, retry: RetryConfig) -> (b: Self)
        ensures
            b@ == (ManagementClientBuilderView { retry: Some(retry), ..self@ }),
    {
        let mut b = self;
        b.retry = Some(retry);
        b
    }

    /// Makes the client, or says what is missing or wrong.
    pub fn build(self) -> (r: Result<ManagementClient, Auth0Error>)
        ensures
            yields_view(r, self@.built()),
    {
        let ManagementClientBuilder { domain, client_id, client_secret, audience, retry } = self;
        let domain = match domain {
            Some(d) => d,
            None => {
                return Err(Auth0Error::Configuration(String::from_str("domain is required")));
            },
        };
        let client_id = match client_id {
            Some(c) => c,
            None => {
                return Err(Auth0Error::Configuration(String::from_str("client_id is required")));
            },
        };
        let client_secret = match client_secret {
            Some(s) => s,
            None => {
                return Err(
                    Auth0Error::Configuration(String::from_str("client_secret is required")),
                );
            },
        };
        let parsed = if starts_with(domain.as_str(), "http://") || starts_with(
            domain.as_str(),
            "https://",
        ) {
            parse_url(domain.as_str())
        } else {
            let text = String::from_str("https://").concat(domain.as_str()).concat("/");
            parse_url(text.as_str())
        };
        let base_url = match parsed {
            Ok(url) => url,
            Err(e) => {
                return Err(Auth0Error::Url(e));
            },
        };
        let audience = match audience {
            Some(a) => a,
            None => base_url.clone().concat("api/v2/"),
        };
        let retry = match retry {
            Some(r) => r,
            None => RetryConfig::default(),
        };
        Ok(
            ManagementClient {
                base_url,
                credentials: Credentials { client_id, client_secret, audience },
                retry,
            },
        )
    }
}

} // verus!
