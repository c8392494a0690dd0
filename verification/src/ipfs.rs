//! IPFS storage clients: which provider, with which credentials, and how an
//! upload is addressed and answered. The HTTP exchange itself is made by the
//! caller with the request built here, and its JSON reply is read back here.

use vstd::prelude::*;
use crate::json::JsonValue;
use crate::string_map::StringMap;
use crate::text::owned;

verus! {

/// The IPFS pinning services a client can be made for.
#[derive(Debug, PartialEq, Eq, Clone, Copy)]
pub enum IPFSProvider {
    Infura,
    Pinata,
    Custom,
}

/// The character of a six-bit value in the standard base64 alphabet.
pub open spec fn base64_char(v: int) -> char {
    if v < 26 {
        ((65 + v) as u8) as char
    } else if v < 52 {
        ((97 + v - 26) as u8) as char
    } else if v < 62 {
        ((48 + v - 52) as u8) as char
    } else if v == 62 {
        '+'
    } else {
        '/'
    }
}

/// The standard base64 text of some bytes: each three bytes give four
/// characters, and a last one or two bytes give two or three, padded with `=`.
pub open spec fn base64_of(data: Seq<u8>) -> Seq<char>
    decreases data.len(),
{
    let b0 = data[0] as int;
    let b1 = data[1] as int;
    let b2 = data[2] as int;
    if data.len() == 0 {
        Seq::empty()
    } else if data.len() == 1 {
        seq![base64_char(b0 / 4), base64_char((b0 % 4) * 16), '=', '=']
    } else if data.len() == 2 {
        seq![base64_char(b0 / 4), base64_char((b0 % 4) * 16 + b1 / 16), base64_char((b1 % 16) * 4), '=']
    } else {
        seq![
            base64_char(b0 / 4),
            base64_char((b0 % 4) * 16 + b1 / 16),
            base64_char((b1 % 16) * 4 + b2 / 64),
            base64_char(b2 % 64),
        ] + base64_of(data.skip(3))
    }
}

/// The standard base64 text (with padding) of the UTF-8 bytes of a text.
pub open spec fn base64_standard(text: Seq<char>) -> Seq<char> {
    base64_of(vstd::utf8::encode_utf8(text))
}

/// Standard base64 encoding with padding (`base64::engine::general_purpose::STANDARD`
/// `encode`); trusted to return the standard base64 text of the text's UTF-8
/// bytes, as `base64_standard` spells it out.
#[verifier::external_body]
fn base64_encode_text(text: &str) -> (res: String)
    ensures
        res@ == base64_standard(text@),
{
    base64::Engine::encode(&base64::engine::general_purpose::STANDARD, text)
}

/// An HTTP POST to make for an upload: where, with which headers, carrying what.
pub struct UploadRequest {
    pub url: String,
    pub headers: StringMap,
    pub body: Vec<u8>,
}

/// The content of an upload request.
pub struct UploadRequestView {
    pub url: Seq<char>,
    pub headers: Seq<(Seq<char>, Seq<char>)>,
    pub body: Seq<u8>,
}

impl View for UploadRequest {
    type V = UploadRequestView;

    open spec fn view(&self) -> UploadRequestView {
        UploadRequestView { url: self.url@, headers: self.headers@, body: self.body@ }
    }
}

/// A client of an IPFS pinning service: it addresses an upload and reads the
/// content identifier out of the service's JSON reply.
pub trait IPFSClient {
    /// The request that uploads `file_data`.
    spec fn spec_upload_request(&self, file_data: Seq<u8>) -> UploadRequestView;

    /// The member of the reply that holds the content identifier.
    spec fn spec_hash_field(&self) -> Seq<char>;

    /// What an upload reports, given the identifier found in the reply.
    spec fn spec_upload_result(&self, hash: Seq<char>) -> Seq<char>;

    fn upload_request(&self, file_data: Vec<u8>) -> (req: UploadRequest)
        ensures
            req@ == self.spec_upload_request(file_data@);

    fn upload_result(&self, response: &JsonValue) -> (res: String)
        requires
            response@.str_at(self.spec_hash_field()) is Some,
        ensures
            res@ == self.spec_upload_result(response@.str_at(self.spec_hash_field()).unwrap());
}

/// A service at a URL of the user's choice, with headers of the user's choice.
pub struct CustomIPFSClient {
    pub api_url: String,
    pub headers: StringMap,
}

/// Infura's IPFS API, authenticated by project id and secret.
pub struct InfuraIPFSClient {
    pub project_id: String,
    pub project_secret: String,
}

/// Pinata's pinning API, authenticated by key and secret key.
pub struct PinataIPFSClient {
    pub api_key: String,
    pub secret_api_key: String,
}

pub open spec fn infura_url() -> Seq<char> {
    "https://ipfs.infura.io:5001/api/v0/add"@
}

pub open spec fn pinata_url() -> Seq<char> {
    "https://api.pinata.cloud/pinning/pinFileToIPFS"@
}

/// The basic authorization header value for an Infura project.
pub open spec fn infura_authorization(project_id: Seq<char>, project_secret: Seq<char>) -> Seq<char> {
    "Basic "@ + base64_standard(project_id + ":"@ + project_secret)
}

impl IPFSClient for CustomIPFSClient {
    open spec fn spec_upload_request(&self, file_data: Seq<u8>) -> UploadRequestView {
        UploadRequestView { url: self.api_url@, headers: self.headers@, body: file_data }
    }

    open spec fn spec_hash_field(&self) -> Seq<char> {
        "Hash"@
    }

    open spec fn spec_upload_result(&self, hash: Seq<char>) -> Seq<char> {
        hash
    }

    fn upload_request(&self, file_data: Vec<u8>) -> (req: UploadRequest) {
        UploadRequest { url: self.api_url.clone(), headers: self.headers.copy(), body: file_data }
    }

    fn upload_result(&self, response: &JsonValue) -> (res: String) {
        owned(response.str_member("Hash").unwrap())
    }
}

impl IPFSClient for InfuraIPFSClient {
    open spec fn spec_upload_request(&self, file_data: Seq<u8>) -> UploadRequestView {
        UploadRequestView {
            url: infura_url(),
            headers: seq![("Authorization"@, infura_authorization(self.project_id@, self.project_secret@))],
            body: file_data,
        }
    }

    open spec fn spec_hash_field(&self) -> Seq<char> {
        "Hash"@
    }

    open spec fn spec_upload_result(&self, hash: Seq<char>) -> Seq<char> {
        "ipfs://"@ + hash
    }

    fn upload_request(&self, file_data: Vec<u8>) -> (req: UploadRequest) {
        let mut credentials = self.project_id.clone();
        credentials.append(":");
        credentials.append(self.project_secret.as_str());
        let mut auth = owned("Basic ");
        let encoded = base64_encode_text(credentials.as_str());
        auth.append(encoded.as_str());
        let mut headers = StringMap::new();
        headers.insert(owned("Authorization"), auth);
        let req = UploadRequest { url: owned("https://ipfs.infura.io:5001/api/v0/add"), headers, body: file_data };
        assert(req@.headers =~= seq![("Authorization"@, infura_authorization(self.project_id@, self.project_secret@))]);
        req
    }

    fn upload_result(&self, response: &JsonValue) -> (res: String) {
        let mut out = owned("ipfs://");
        out.append(response.str_member("Hash").unwrap());
        out
    }
}

impl IPFSClient for PinataIPFSClient {
    open spec fn spec_upload_request(&self, file_data: Seq<u8>) -> UploadRequestView {
        UploadRequestView {
            url: pinata_url(),
            headers: seq![("pinata_api_key"@, self.api_key@), ("pinata_secret_api_key"@, self.secret_api_key@)],
            body: file_data,
        }
    }

    open spec fn spec_hash_field(&self) -> Seq<char> {
        "IpfsHash"@
    }

    open spec fn spec_upload_result(&self, hash: Seq<char>) -> Seq<char> {
        hash
    }

    fn upload_request(&self, file_data: Vec<u8>) -> (req: UploadRequest) {
        let mut headers = StringMap::new();
        headers.insert(owned("pinata_api_key"), self.api_key.clone());
        assert(headers@ =~= seq![("pinata_api_key"@, self.api_key@)]);
        proof {
            reveal_strlit("pinata_api_key");
            reveal_strlit("pinata_secret_api_key");
            assert("pinata_api_key"@.len() != "pinata_secret_api_key"@.len());
            assert(!(exists|i: int| crate::assoc::key_at(headers@, "pinata_secret_api_key"@, i)));
        }
        headers.insert(owned("pinata_secret_api_key"), self.secret_api_key.clone());
        let req = UploadRequest { url: owned("https://api.pinata.cloud/pinning/pinFileToIPFS"), headers, body: file_data };
        assert(req@.headers =~= seq![("pinata_api_key"@, self.api_key@), ("pinata_secret_api_key"@, self.secret_api_key@)]);
        req
    }

    fn upload_result(&self, response: &JsonValue) -> (res: String) {
        owned(response.str_member("IpfsHash").unwrap())
    }
}

/// A client made by the factory: one of the three services.
pub enum IPFSClientHandle {
    Infura(InfuraIPFSClient),
    Pinata(PinataIPFSClient),
    Custom(CustomIPFSClient),
}

impl IPFSClient for IPFSClientHandle {
    open spec fn spec_upload_request(&self, file_data: Seq<u8>) -> UploadRequestView {
        match self {
            IPFSClientHandle::Infura(c) => c.spec_upload_request(file_data),
            IPFSClientHandle::Pinata(c) => c.spec_upload_request(file_data),
            IPFSClientHandle::Custom(c) => c.spec_upload_request(file_data),
        }
    }

    open spec fn spec_hash_field(&self) -> Seq<char> {
        match self {
            IPFSClientHandle::Infura(c) => c.spec_hash_field(),
            IPFSClientHandle::Pinata(c) => c.spec_hash_field(),
            IPFSClientHandle::Custom(c) => c.spec_hash_field(),
        }
    }

    open spec fn spec_upload_result(&self, hash: Seq<char>) -> Seq<char> {
        match self {
            IPFSClientHandle::Infura(c) => c.spec_upload_result(hash),
            IPFSClientHandle::Pinata(c) => c.spec_upload_result(hash),
            IPFSClientHandle::Custom(c) => c.spec_upload_result(hash),
        }
    }

    fn upload_request(&self, file_data: Vec<u8>) -> (req: UploadRequest) {
        match self {
            IPFSClientHandle::Infura(c) => c.upload_request(file_data),
            IPFSClientHandle::Pinata(c) => c.upload_request(file_data),
            IPFSClientHandle::Custom(c) => c.upload_request(file_data),
        }
    }

    fn upload_result(&self, response: &JsonValue) -> (res: String) {
        match self {
            IPFSClientHandle::Infura(c) => c.upload_result(response),
            IPFSClientHandle::Pinata(c) => c.upload_result(response),
            IPFSClientHandle::Custom(c) => c.upload_result(response),
        }
    }
}

/// Makes IPFS clients from a provider and its settings.
pub struct IPFSClientFactory;

impl IPFSClientFactory {
    /// A client for `provider`, reading its credentials from `config`: Infura
    /// needs `project_id` and `project_secret`, Pinata `api_key` and
    /// `secret_api_key`, a custom service `api_url` (every other setting becomes
    /// a header). A missing setting is reported by name, the first one first.
    pub fn create_client(provider: IPFSProvider, config: StringMap) -> (res: Result<IPFSClientHandle, String>)
        ensures
            provider == IPFSProvider::Infura ==> match res {
                Ok(IPFSClientHandle::Infura(c)) =>
                    config.spec_get("project_id"@) == Some(c.project_id@)
                        && config.spec_get("project_secret"@) == Some(c.project_secret@),
                Ok(_) => false,
                Err(e) =>
                    (config.spec_get("project_id"@) is None && e@ == "Project ID missing"@)
                        || (config.spec_get("project_id"@) is Some && config.spec_get("project_secret"@) is None
                            && e@ == "Project Secret missing"@),
            },
            provider == IPFSProvider::Pinata ==> match res {
                Ok(IPFSClientHandle::Pinata(c)) =>
                    config.spec_get("api_key"@) == Some(c.api_key@)
                        && config.spec_get("secret_api_key"@) == Some(c.secret_api_key@),
                Ok(_) => false,
                Err(e) =>
                    (config.spec_get("api_key"@) is None && e@ == "API Key missing"@)
                        || (config.spec_get("api_key"@) is Some && config.spec_get("secret_api_key"@) is None
                            && e@ == "Secret API Key missing"@),
            },
            provider == IPFSProvider::Custom ==> match res {
                Ok(IPFSClientHandle::Custom(c)) =>
                    config.spec_get("api_url"@) == Some(c.api_url@)
                        && c.headers@ == crate::string_map::without_key(config@, "api_url"@),
                Ok(_) => false,
                Err(e) => config.spec_get("api_url"@) is None && e@ == "API URL missing"@,
            },
    {
        match provider {
            IPFSProvider::Infura => {
                let project_id = match config.get("project_id") {
                    Some(v) => v.clone(),
                    None => return Err(owned("Project ID missing")),
                };
                let project_secret = match config.get("project_secret") {
                    Some(v) => v.clone(),
                    None => return Err(owned("Project Secret missing")),
                };
                Ok(IPFSClientHandle::Infura(InfuraIPFSClient { project_id, project_secret }))
            },
            IPFSProvider::Pinata => {
                let api_key = match config.get("api_key") {
                    Some(v) => v.clone(),
                    None => return Err(owned("API Key missing")),
                };
                let secret_api_key = match config.get("secret_api_key") {
                    Some(v) => v.clone(),
                    None => return Err(owned("Secret API Key missing")),
                };
                Ok(IPFSClientHandle::Pinata(PinataIPFSClient { api_key, secret_api_key }))
            },
            IPFSProvider::Custom => {
                let api_url = match config.get("api_url") {
                    Some(v) => v.clone(),
                    None => return Err(owned("API URL missing")),
                };
                let headers = config.without("api_url");
                Ok(IPFSClientHandle::Custom(CustomIPFSClient { api_url, headers }))
            },
        }
    }
}

} // verus!
