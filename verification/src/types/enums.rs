//! The closed sets of names that the API uses, each with the text that
//! stands for it in a request or a response.

use vstd::prelude::*;

verus! {

/// The kind of an application.
#[derive(Debug, Clone, Copy, PartialEq, Eq, Structural)]
pub enum AppType {
    /// Regular web application (web backend + frontend)
    RegularWeb,
    /// Single Page Application (SPA)
    Spa,
    /// Native mobile or desktop application
    Native,
    /// Machine-to-machine application
    NonInteractive,
}

impl AppType {
    /// The name as the API writes it.
    pub open spec fn api_text(self) -> Seq<char> {
        match self {
            AppType::RegularWeb => "regular_web"@,
            AppType::Spa => "spa"@,
            AppType::Native => "native"@,
            AppType::NonInteractive => "non_interactive"@,
        }
    }

    /// The name as the API writes it.
    pub fn as_str(&self) -> (s: &'static str)
        ensures
            s@ == self.api_text(),
    {
        match self {
            AppType::RegularWeb => "regular_web",
            AppType::Spa => "spa",
            AppType::Native => "native",
            AppType::NonInteractive => "non_interactive",
        }
    }
}

/// An OAuth 2.0 grant type.
#[derive(Debug, Clone, Copy, PartialEq, Eq, Structural)]
pub enum GrantType {
    /// Authorization Code flow
    AuthorizationCode,
    /// Implicit flow (deprecated)
    Implicit,
    /// Client Credentials flow (machine-to-machine)
    ClientCredentials,
    /// Resource Owner Password flow
    Password,
    /// Refresh Token flow
    RefreshToken,
    /// Device Authorization flow
    DeviceCode,
    /// SAML assertion
    SamlBearer,
}

impl GrantType {
    /// The name as the API writes it.
    pub open spec fn api_text(self) -> Seq<char> {
        match self {
            GrantType::AuthorizationCode => "authorization_code"@,
            GrantType::Implicit => "implicit"@,
            GrantType::ClientCredentials => "client_credentials"@,
            GrantType::Password => "password"@,
            GrantType::RefreshToken => "refresh_token"@,
            GrantType::DeviceCode => "urn:ietf:params:oauth:grant-type:device_code"@,
            GrantType::SamlBearer => "urn:ietf:params:oauth:grant-type:saml2-bearer"@,
        }
    }

    /// The name as the API writes it.
    pub fn as_str(&self) -> (s: &'static str)
        ensures
            s@ == self.api_text(),
    {
        match self {
            GrantType::AuthorizationCode => "authorization_code",
            GrantType::Implicit => "implicit",
            GrantType::ClientCredentials => "client_credentials",
            GrantType::Password => "password",
            GrantType::RefreshToken => "refresh_token",
            GrantType::DeviceCode => "urn:ietf:params:oauth:grant-type:device_code",
            GrantType::SamlBearer => "urn:ietf:params:oauth:grant-type:saml2-bearer",
        }
    }
}

/// How a connection authenticates its users.
#[derive(Debug, Clone, Copy, PartialEq, Eq, Structural)]
pub enum ConnectionStrategy {
    /// Auth0 Database connection
    Auth0Database,
    /// Google OAuth 2.0
    GoogleOAuth2,
    /// GitHub
    GitHub,
    /// LinkedIn
    LinkedIn,
    /// Facebook
    Facebook,
    /// Windows Live/Microsoft
    WindowsLive,
    /// Active Directory Federation Services
    Adfs,
    /// SAML
    Saml,
    /// Azure AD / Entra ID
    AzureAd,
    /// Okta
    Okta,
    /// Ping Identity
    PingIdentity,
    /// OneLogin
    OneLogin,
    /// Salesforce
    Salesforce,
    /// Custom database connection
    Custom,
    /// OIDC-compliant provider
    Oidc,
}

impl ConnectionStrategy {
    /// The name as the API writes it.
    pub open spec fn api_text(self) -> Seq<char> {
        match self {
            ConnectionStrategy::Auth0Database => "auth0"@,
            ConnectionStrategy::GoogleOAuth2 => "google-oauth2"@,
            ConnectionStrategy::GitHub => "github"@,
            ConnectionStrategy::LinkedIn => "linkedin"@,
            ConnectionStrategy::Facebook => "facebook"@,
            ConnectionStrategy::WindowsLive => "windowslive"@,
            ConnectionStrategy::Adfs => "adfs"@,
            ConnectionStrategy::Saml => "samlp"@,
            ConnectionStrategy::AzureAd => "waad"@,
            ConnectionStrategy::Okta => "okta"@,
            ConnectionStrategy::PingIdentity => "ping7"@,
            ConnectionStrategy::OneLogin => "onelogin"@,
            ConnectionStrategy::Salesforce => "salesforce"@,
            ConnectionStrategy::Custom => "custom"@,
            ConnectionStrategy::Oidc => "oidc"@,
        }
    }

    /// The name as the API writes it.
    pub fn as_str(&self) -> (s: &'static str)
        ensures
            s@ == self.api_text(),
    {
        match self {
            ConnectionStrategy::Auth0Database => "auth0",
            ConnectionStrategy::GoogleOAuth2 => "google-oauth2",
            ConnectionStrategy::GitHub => "github",
            ConnectionStrategy::LinkedIn => "linkedin",
            ConnectionStrategy::Facebook => "facebook",
            ConnectionStrategy::WindowsLive => "windowslive",
            ConnectionStrategy::Adfs => "adfs",
            ConnectionStrategy::Saml => "samlp",
            ConnectionStrategy::AzureAd => "waad",
            ConnectionStrategy::Okta => "okta",
            ConnectionStrategy::PingIdentity => "ping7",
            ConnectionStrategy::OneLogin => "onelogin",
            ConnectionStrategy::Salesforce => "salesforce",
            ConnectionStrategy::Custom => "custom",
            ConnectionStrategy::Oidc => "oidc",
        }
    }
}

/// How an application authenticates at the token endpoint.
#[derive(Debug, Clone, Copy, PartialEq, Eq, Structural)]
pub enum TokenAuthMethod {
    /// No authentication (public clients)
    NoAuthentication,
    /// Client credentials in HTTP Basic Authentication header
    ClientSecretBasic,
    /// Client credentials in request body
    ClientSecretPost,
    /// Client assertion (JWT) signed with client secret
    ClientSecretJwt,
    /// Client assertion (JWT) signed with private key
    PrivateKeyJwt,
}

impl TokenAuthMethod {
    /// The name as the API writes it.
    pub open spec fn api_text(self) -> Seq<char> {
        match self {
            TokenAuthMethod::NoAuthentication => "none"@,
            TokenAuthMethod::ClientSecretBasic => "client_secret_basic"@,
            TokenAuthMethod::ClientSecretPost => "client_secret_post"@,
            TokenAuthMethod::ClientSecretJwt => "client_secret_jwt"@,
            TokenAuthMethod::PrivateKeyJwt => "private_key_jwt"@,
        }
    }

    /// The name as the API writes it.
    pub fn as_str(&self) -> (s: &'static str)
        ensures
            s@ == self.api_text(),
    {
        match self {
            TokenAuthMethod::NoAuthentication => "none",
            TokenAuthMethod::ClientSecretBasic => "client_secret_basic",
            TokenAuthMethod::ClientSecretPost => "client_secret_post",
            TokenAuthMethod::ClientSecretJwt => "client_secret_jwt",
            TokenAuthMethod::PrivateKeyJwt => "private_key_jwt",
        }
    }
}

/// Whether an application may be used within organizations.
#[derive(Debug, Clone, Copy, PartialEq, Eq, Structural)]
pub enum OrganizationUsage {
    /// Application cannot be used in organizations
    Deny,
    /// Application can be used in organizations
    Allow,
    /// Application must be used within an organization
    Require,
}

impl OrganizationUsage {
    /// The name as the API writes it.
    pub open spec fn api_text(self) -> Seq<char> {
        match self {
            OrganizationUsage::Deny => "deny"@,
            OrganizationUsage::Allow => "allow"@,
            OrganizationUsage::Require => "require"@,
        }
    }

    /// The name as the API writes it.
    pub fn as_str(&self) -> (s: &'static str)
        ensures
            s@ == self.api_text(),
    {
        match self {
            OrganizationUsage::Deny => "deny",
            OrganizationUsage::Allow => "allow",
            OrganizationUsage::Require => "require",
        }
    }
}

/// How a login asks for the organization.
#[derive(Debug, Clone, Copy, PartialEq, Eq, Structural)]
pub enum OrganizationRequireBehavior {
    /// No organization prompt
    NoPrompt,
    /// Prompt for organization at login
    PreLoginPrompt,
    /// Prompt for organization after successful authentication
    PostLoginPrompt,
}

impl OrganizationRequireBehavior {
    /// The name as the API writes it.
    pub open spec fn api_text(self) -> Seq<char> {
        match self {
            OrganizationRequireBehavior::NoPrompt => "no_prompt"@,
            OrganizationRequireBehavior::PreLoginPrompt => "pre_login_prompt"@,
            OrganizationRequireBehavior::PostLoginPrompt => "post_login_prompt"@,
        }
    }

    /// The name as the API writes it.
    pub fn as_str(&self) -> (s: &'static str)
        ensures
            s@ == self.api_text(),
    {
        match self {
            OrganizationRequireBehavior::NoPrompt => "no_prompt",
            OrganizationRequireBehavior::PreLoginPrompt => "pre_login_prompt",
            OrganizationRequireBehavior::PostLoginPrompt => "post_login_prompt",
        }
    }
}

} // verus!
