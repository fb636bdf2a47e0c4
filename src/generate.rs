//! The generator's templates for clients whose access tokens come from an
//! OAuth token endpoint, and their assembly into a client module.

use vstd::prelude::*;
use crate::text::{is_prefix_of, strip_prefixes, starts_with, trim_start_matches};

verus! {

/// The generated client module up to the host of its token endpoint.
pub const CLIENT_HEAD: &'static str = r##"use std::env;

use schemars::JsonSchema;
use serde::{Deserialize, Serialize};

const TOKEN_ENDPOINT: &str = "https://"##;

/// What follows the token endpoint's host, up to the user-consent endpoint's host.
pub const CLIENT_AFTER_TOKEN_ENDPOINT: &'static str = r##"";
const USER_CONSENT_ENDPOINT: &str = "https://"##;

/// What follows the user-consent endpoint's host, up to the environment constructor.
pub const CLIENT_AFTER_CONSENT_ENDPOINT: &'static str = r##"";

/// Entrypoint for interacting with the API client.
#[derive(Clone)]
pub struct Client {
    token: String,
    // This will expire within a certain amount of time as determined by the
    // expiration date passed back in the initial request.
    refresh_token: String,
    client_id: String,
    client_secret: String,
    redirect_uri: String,

    client: reqwest::Client,
}

#[derive(Debug, JsonSchema, Clone, Default, Serialize, Deserialize)]
pub struct AccessToken {
    #[serde(
        default,
        skip_serializing_if = "String::is_empty",
        deserialize_with = "crate::utils::deserialize_null_string::deserialize"
    )]
    pub token_type: String,

    #[serde(
        default,
        skip_serializing_if = "String::is_empty",
        deserialize_with = "crate::utils::deserialize_null_string::deserialize"
    )]
    pub access_token: String,
    #[serde(default)]
    pub expires_in: i64,

    #[serde(
        default,
        skip_serializing_if = "String::is_empty",
        deserialize_with = "crate::utils::deserialize_null_string::deserialize"
    )]
    pub refresh_token: String,
    #[serde(default, alias = "x_refresh_token_expires_in")]
    pub refresh_token_expires_in: i64,

    #[serde(
        default,
        skip_serializing_if = "String::is_empty",
        deserialize_with = "crate::utils::deserialize_null_string::deserialize"
    )]
    pub scope: String,
}

impl Client {
    /// Create a new Client struct. It takes a type that can convert into
    /// an &str (`String` or `Vec<u8>` for example). As long as the function is
    /// given a valid API key your requests will work.
    pub fn new<I, K, R, T, Q>(
        client_id: I,
        client_secret: K,
        redirect_uri: R,
        token: T,
        refresh_token: Q,
    ) -> Self
    where
        I: ToString,
        K: ToString,
        R: ToString,
        T: ToString,
        Q: ToString,
    {
        let client = reqwest::Client::builder().build();
        match client {
            Ok(c) => {
                // We do not refresh the access token here since we leave that up to the
                // user to do so they can re-save it to their database.
                // TODO: But in the future we should save the expires in date and refresh it
                // if it needs to be refreshed.
                //
                Client {
                    client_id: client_id.to_string(),
                    client_secret: client_secret.to_string(),
                    redirect_uri: redirect_uri.to_string(),
                    token: token.to_string(),
                    refresh_token: refresh_token.to_string(),

                    client: c,
                }
            }
            Err(e) => panic!("creating reqwest client failed: {:?}", e),
        }
    }

    "##;

/// The rest of the generated client module, after the environment constructor.
pub const CLIENT_TAIL: &'static str = r##"

    async fn url_and_auth(
        &self,
        uri: &str,
    ) -> Result<(reqwest::Url, Option<String>)> {
        let parsed_url = uri.parse::<reqwest::Url>();

        let auth = format!("Bearer {}", self.token);
        parsed_url.map(|u| (u, Some(auth))).map_err(Error::from)
    }

    async fn request_raw(
        &self,
        method: reqwest::Method,
        uri: &str,
        body: Option<reqwest::Body>,
    ) -> Result<reqwest::Response>
    {
        let (url, auth) = self.url_and_auth(uri).await?;

        let instance = <&Client>::clone(&self);

        let mut req = instance.client.request(method, url);

        // Set the default headers.
        req = req.header(
            reqwest::header::ACCEPT,
            reqwest::header::HeaderValue::from_static("application/json"),
        );
        req = req.header(
            reqwest::header::CONTENT_TYPE,
            reqwest::header::HeaderValue::from_static("application/json"),
        );

        if let Some(auth_str) = auth {
            req = req.header(http::header::AUTHORIZATION, &*auth_str);
        }

        if let Some(body) = body {
            println!("Body: {:?}", String::from_utf8(body.as_bytes().unwrap().to_vec()).unwrap());
            req = req.body(body);
        }
        println!("Request: {:?}", &req);
        Ok(req.send().await?)
    }

    async fn request<Out>(
        &self,
        method: reqwest::Method,
        uri: &str,
        body: Option<reqwest::Body>,
    ) -> Result<Out>
        where
        Out: serde::de::DeserializeOwned + 'static + Send,
    {
        let response = self.request_raw(method, uri, body).await?;

        let status = response.status();

        let response_body = response.bytes().await?;

        if status.is_success() {
            println!("response payload {}", String::from_utf8_lossy(&response_body));
            let parsed_response = if status == http::StatusCode::NO_CONTENT {
                serde_json::from_str("null")
            } else {
                serde_json::from_slice::<Out>(&response_body)
            };
            parsed_response.map_err(Error::from)
        } else {
            /*println!("error status: {:?}, response payload: {}",
                status,
                String::from_utf8_lossy(&response_body),
            );*/

            let error = if response_body.is_empty() {
                anyhow!("code: {}, empty response", status)
            } else {
                anyhow!(
                    "code: {}, error: {:?}",
                    status,
                    String::from_utf8_lossy(&response_body),
                )
            };

            Err(error)
        }
    }

    /* TODO: make this more DRY */
    #[allow(dead_code)]
    async fn request_with_mime<Out>(
        &self,
        method: reqwest::Method,
        uri: &str,
        content: &[u8],
        mime_type: &str,
    ) -> Result<Out>
        where
        Out: serde::de::DeserializeOwned + 'static + Send,
    {
        let (url, auth) = self.url_and_auth(uri).await?;

        let instance = <&Client>::clone(&self);

        let mut req = instance.client.request(method, url);

        // Set the default headers.
        req = req.header(
            reqwest::header::ACCEPT,
            reqwest::header::HeaderValue::from_static("application/json"),
        );
        req = req.header(
            reqwest::header::CONTENT_TYPE,
            reqwest::header::HeaderValue::from_bytes(mime_type.as_bytes()).unwrap(),
        );
        // We are likely uploading a file so add the right headers.
        req = req.header(
            reqwest::header::HeaderName::from_static("x-upload-content-type"),
            reqwest::header::HeaderValue::from_static("application/octet-stream"),
        );
        req = req.header(
            reqwest::header::HeaderName::from_static("x-upload-content-length"),
            reqwest::header::HeaderValue::from_bytes(format!("{}", content.len()).as_bytes()).unwrap(),
        );

        if let Some(auth_str) = auth {
            req = req.header(http::header::AUTHORIZATION, &*auth_str);
        }

        if content.len() > 1 {
            let b = bytes::Bytes::copy_from_slice(content);
            // We are uploading a file so add that as the body.
            req = req.body(b);
        }

        println!("Request: {:?}", &req);
        let response = req.send().await?;

        let status = response.status();

        let response_body = response.bytes().await?;

        if status.is_success() {
            println!("response payload {}", String::from_utf8_lossy(&response_body));
            let parsed_response = if status == http::StatusCode::NO_CONTENT {
                serde_json::from_str("null")
            } else {
                serde_json::from_slice::<Out>(&response_body)
            };
            parsed_response.map_err(Error::from)
        } else {
            /*println!("error status: {:?}, response payload: {}",
                status,
                String::from_utf8_lossy(&response_body),
            );*/

            let error = if response_body.is_empty() {
                anyhow!("code: {}, empty response", status)
            } else {
                anyhow!(
                    "code: {}, error: {:?}",
                    status,
                    String::from_utf8_lossy(&response_body),
                )
            };

            Err(error)
        }
    }

    async fn request_entity<D>(
        &self,
        method: http::Method,
        uri: &str,
        body: Option<reqwest::Body>,
    ) -> Result<D>
    where
        D: serde::de::DeserializeOwned + 'static + Send,
    {
        let r = self
            .request(method, uri, body)
            .await?;
        Ok(r)
    }

    /// Return a user consent url with an optional set of scopes.
    /// If no scopes are provided, they will not be passed in the url.
    pub fn user_consent_url(&self, scopes: &[String]) -> String {
        let state = uuid::Uuid::new_v4();

        let url = format!(
            "{}?client_id={}&response_type=code&redirect_uri={}&state={}",
            USER_CONSENT_ENDPOINT, self.client_id, self.redirect_uri, state
        );

        if scopes.is_empty() {
            return url;
        }

        // Add the scopes.
        format!("{}&scope={}", url, scopes.join(" "))
    }

    /// Refresh an access token from a refresh token. Client must have a refresh token
    /// for this to work.
    pub async fn refresh_access_token(&mut self) -> Result<AccessToken> {
        if self.refresh_token.is_empty() {
            anyhow!("refresh token cannot be empty");
        }

        let mut headers = reqwest::header::HeaderMap::new();
        headers.append(
            reqwest::header::ACCEPT,
            reqwest::header::HeaderValue::from_static("application/json"),
        );

        let params = [
            ("grant_type", "refresh_token"),
            ("refresh_token", &self.refresh_token),
            ("client_id", &self.client_id),
            ("client_secret", &self.client_secret),
            ("redirect_uri", &self.redirect_uri),
        ];
        let client = reqwest::Client::new();
        let resp = client
            .post(TOKEN_ENDPOINT)
            .headers(headers)
            .form(&params)
            .basic_auth(&self.client_id, Some(&self.client_secret))
            .send()
            .await
            .unwrap();

        // Unwrap the response.
        let t: AccessToken = resp.json().await.unwrap();

        self.token = t.access_token.to_string();
        self.refresh_token = t.refresh_token.to_string();

        Ok(t)
    }

    /// Get an access token from the code returned by the URL paramter sent to the
    /// redirect URL.
    pub async fn get_access_token(&mut self, code: &str, state: &str) -> Result<AccessToken> {
        let mut headers = reqwest::header::HeaderMap::new();
        headers.append(
            reqwest::header::ACCEPT,
            reqwest::header::HeaderValue::from_static("application/json"),
        );

        let params = [
            ("grant_type", "authorization_code"),
            ("code", code),
            ("client_id", &self.client_id),
            ("client_secret", &self.client_secret),
            ("redirect_uri", &self.redirect_uri),
            ("state", state),
        ];
        let client = reqwest::Client::new();
        let resp = client
            .post(TOKEN_ENDPOINT)
            .headers(headers)
            .form(&params)
            .basic_auth(&self.client_id, Some(&self.client_secret))
            .send()
            .await
            .unwrap();

        // Unwrap the response.
        let t: AccessToken = resp.json().await.unwrap();

        self.token = t.access_token.to_string();
        self.refresh_token = t.refresh_token.to_string();

        Ok(t)
    }

    #[allow(dead_code)]
    async fn get<D>(&self, uri: &str,  message: Option<reqwest::Body>) -> Result<D>
    where
        D: serde::de::DeserializeOwned + 'static + Send,
    {
        self.request_entity(
            http::Method::GET,
            &(DEFAULT_HOST.to_string() + uri),
            message,
        ).await
    }

    #[allow(dead_code)]
    async fn get_all_pages<D>(&self, uri: &str,  message: Option<reqwest::Body>) -> Result<Vec<D>>
    where
        D: serde::de::DeserializeOwned + 'static + Send,
    {
        // TODO: implement this.
        self.request_entity(
            http::Method::GET,
            &(DEFAULT_HOST.to_string() + uri),
            message,
        ).await
    }

    #[allow(dead_code)]
    async fn post<D>(&self, uri: &str, message: Option<reqwest::Body>) -> Result<D>
    where
        D: serde::de::DeserializeOwned + 'static + Send,
    {
        self.request_entity(
            http::Method::POST,
            &(DEFAULT_HOST.to_string() + uri),
            message,
        ).await
    }

    #[allow(dead_code)]
    async fn patch<D>(&self, uri: &str, message: Option<reqwest::Body>) -> Result<D>
    where
        D: serde::de::DeserializeOwned + 'static + Send,
    {
        self.request_entity(
            http::Method::PATCH,
            &(DEFAULT_HOST.to_string() + uri),
            message,
        ).await
    }

    #[allow(dead_code)]
    async fn put<D>(&self, uri: &str, message: Option<reqwest::Body>) -> Result<D>
    where
        D: serde::de::DeserializeOwned + 'static + Send,
    {
        self.request_entity(
            http::Method::PUT,
            &(DEFAULT_HOST.to_string() + uri),
            message,
        ).await
    }

    #[allow(dead_code)]
    async fn delete<D>(&self, uri: &str, message: Option<reqwest::Body>) -> Result<D>
    where
        D: serde::de::DeserializeOwned + 'static + Send,
    {
        self.request_entity(
            http::Method::DELETE,
            &(DEFAULT_HOST.to_string() + uri),
            message,
        ).await
    }"##;

/// The environment constructor of Google clients, which reads a service key.
pub const GOOGLE_NEW_FROM_ENV: &'static str = r##"
/// Create a new Client struct from environment variables. It
/// takes a type that can convert into
/// an &str (`String` or `Vec<u8>` for example). As long as the function is
/// given a valid API key and your requests will work.
/// We pass in the token and refresh token to the client so if you are storing
/// it in a database, you can get it first.
pub async fn new_from_env<T, R>(token: T, refresh_token: R) -> Self
where
    T: ToString,
    R: ToString,
{
    let google_key = env::var("GOOGLE_KEY_ENCODED").unwrap_or_default();
    let b = base64::decode(google_key).unwrap();
    // Save the google key to a tmp file.
    let mut file_path = env::temp_dir();
    file_path.push("google_key.json");
    // Create the file and write to it.
    let mut file = std::fs::File::create(file_path.clone()).unwrap();
    file.write_all(&b).unwrap();
    // Set the Google credential file to the temp path.
    let google_credential_file = file_path.to_str().unwrap().to_string();

    let secret = yup_oauth2::read_application_secret(google_credential_file)
        .await
        .expect("failed to read google credential file");

    let client = reqwest::Client::builder().build();
    match client {
        Ok(c) => {
            // We do not refresh the access token here since we leave that up to the
            // user to do so they can re-save it to their database.
            // TODO: But in the future we should save the expires in date and refresh it
            // if it needs to be refreshed.
            //
            Client {
                client_id: secret.client_id.to_string(),
                client_secret: secret.client_secret.to_string(),
                redirect_uri: secret.redirect_uris[0].to_string(),
                token: token.to_string(),
                refresh_token: refresh_token.to_string(),

                client: c,
            }
        },
        Err(e) => panic!("creating reqwest client failed: {:?}", e),
    }
}
"##;

/// The environment constructor of other clients, up to the first variable prefix.
pub const ENV_HEAD: &'static str = r##"
/// Create a new Client struct from environment variables. It
/// takes a type that can convert into
/// an &str (`String` or `Vec<u8>` for example). As long as the function is
/// given a valid API key and your requests will work.
/// We pass in the token and refresh token to the client so if you are storing
/// it in a database, you can get it first.
pub fn new_from_env<T, R>(token: T, refresh_token: R) -> Self
where
    T: ToString,
    R: ToString,
{
    let client_id = env::var(""##;

/// What follows the prefix of the client id variable.
pub const ENV_AFTER_CLIENT_ID: &'static str = r##"_CLIENT_ID").unwrap();
    let client_secret = env::var(""##;

/// What follows the prefix of the client secret variable.
pub const ENV_AFTER_CLIENT_SECRET: &'static str = r##"_CLIENT_SECRET").unwrap();
    let redirect_uri = env::var(""##;

/// What follows the prefix of the redirect URI variable.
pub const ENV_TAIL: &'static str = r##"_REDIRECT_URI").unwrap();

    Client::new(
        client_id,
        client_secret,
        redirect_uri,
        token,
        refresh_token,
    )
}"##;

/// The upper-case form of `s`.
pub uninterp spec fn upper_of(s: Seq<char>) -> Seq<char>;

/// Relies on `str::to_uppercase`: the upper-case form, which depends on the
/// characters alone.
#[verifier::external_body]
fn uppercase(s: &str) -> (r: String)
    ensures
        r@ == upper_of(s@),
{
    s.to_uppercase()
}

/// The environment constructor of a client whose environment variables
/// start with `prefix`.
pub open spec fn env_constructor(prefix: Seq<char>) -> Seq<char> {
    ENV_HEAD@ + prefix + ENV_AFTER_CLIENT_ID@ + prefix + ENV_AFTER_CLIENT_SECRET@ + prefix + ENV_TAIL@
}

/// The environment constructor for clients of the service `proper_name`.
pub open spec fn new_from_env_for(proper_name: Seq<char>) -> Seq<char> {
    if is_prefix_of("Google"@, proper_name) {
        GOOGLE_NEW_FROM_ENV@
    } else {
        env_constructor(upper_of(proper_name))
    }
}

/// The client module for the service `proper_name`, whose endpoints are
/// given with or without their `https://` scheme.
pub open spec fn client_module(proper_name: Seq<char>, token_endpoint: Seq<char>, user_consent_endpoint: Seq<char>) -> Seq<char> {
    CLIENT_HEAD@ + strip_prefixes(token_endpoint, "https://"@) + CLIENT_AFTER_TOKEN_ENDPOINT@
        + strip_prefixes(user_consent_endpoint, "https://"@) + CLIENT_AFTER_CONSENT_ENDPOINT@
        + new_from_env_for(proper_name) + CLIENT_TAIL@
}

/// The environment constructor that reads `<prefix>_CLIENT_ID`,
/// `<prefix>_CLIENT_SECRET` and `<prefix>_REDIRECT_URI`.
pub fn env_constructor_with_prefix(prefix: &str) -> (r: String)
    ensures
        r@ == env_constructor(prefix@),
{
    let mut r = String::from_str(ENV_HEAD);
    r.append(prefix);
    r.append(ENV_AFTER_CLIENT_ID);
    r.append(prefix);
    r.append(ENV_AFTER_CLIENT_SECRET);
    r.append(prefix);
    r.append(ENV_TAIL);
    r
}

/// The environment constructor of a client of `proper_name`, whose
/// variables carry the upper-case name.
pub fn basic_new_from_env(proper_name: &str) -> (r: String)
    ensures
        r@ == env_constructor(upper_of(proper_name@)),
{
    let upper = uppercase(proper_name);
    env_constructor_with_prefix(upper.as_str())
}

/// Generates the client module for the service `proper_name`, with its token
/// and user-consent endpoints.
pub fn generate_client_generic_token(proper_name: &str, token_endpoint: &str, user_consent_endpoint: &str) -> (r: String)
    ensures
        r@ == client_module(proper_name@, token_endpoint@, user_consent_endpoint@),
{
    let new_from_env = if starts_with(proper_name, "Google") {
        String::from_str(GOOGLE_NEW_FROM_ENV)
    } else {
        basic_new_from_env(proper_name)
    };
    let mut r = String::from_str(CLIENT_HEAD);
    r.append(trim_start_matches(token_endpoint, "https://"));
    r.append(CLIENT_AFTER_TOKEN_ENDPOINT);
    r.append(trim_start_matches(user_consent_endpoint, "https://"));
    r.append(CLIENT_AFTER_CONSENT_ENDPOINT);
    r.append(new_from_env.as_str());
    r.append(CLIENT_TAIL);
    r
}

} // verus!
