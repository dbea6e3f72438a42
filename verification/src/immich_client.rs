//! What is sent to an Immich server, and how its answers are read.

use vstd::prelude::*;
use vstd::string::*;

use crate::error::{prefixed, LibraryError};
use crate::text::{text_eq, trim_end_char, without_trailing};

verus! {

// ── The client ───────────────────────────────────────────────────────────────

/// Whether a text may be the value of an HTTP header.
pub open spec fn is_header_value(s: Seq<char>) -> bool {
    forall|i: int|
        0 <= i < s.len() ==> (#[trigger] s[i] == '\t' || (s[i] as u32 >= 32 && s[i] as u32 != 127))
}

/// What `reqwest` says of a text that is no header value.
pub const BAD_HEADER_VALUE: &'static str = "failed to parse header value";

/// Calls `reqwest::header::HeaderValue::from_str`, which takes a text whose bytes
/// are all printable, tabs or beyond ASCII, and otherwise gives an error that is
/// always shown in the same words.
#[verifier::external_body]
fn header_value(s: &str) -> (r: Result<(), String>)
    ensures
        r is Ok <==> is_header_value(s@),
        r matches Err(e) ==> e@ == BAD_HEADER_VALUE@,
{
    reqwest::header::HeaderValue::from_str(s).map(|_| ()).map_err(|e| e.to_string())
}

/// The address of a server and the credentials for it.
#[derive(Debug)]
pub struct ImmichClient {
    base_url: String,
    authorization: String,
}

impl ImmichClient {
    /// The address of the server, without a slash at its end.
    pub closed spec fn base(self) -> Seq<char> {
        self.base_url@
    }

    /// The value of the `Authorization` header.
    pub closed spec fn credentials(self) -> Seq<char> {
        self.authorization@
    }

    /// Whether `r` is a client for a server, or the error of a token that is unfit for a
    /// header.
    pub open spec fn connects(
        r: Result<Self, LibraryError>,
        server_url: Seq<char>,
        access_token: Seq<char>,
    ) -> bool {
        if is_header_value("Bearer "@ + access_token) {
            r matches Ok(c) && c.base() == without_trailing(server_url, '/') && c.credentials()
                == "Bearer "@ + access_token
        } else {
            r matches Err(LibraryError::Immich(m)) && m@ == "invalid access token: "@
                + BAD_HEADER_VALUE@
        }
    }

    /// A client for the server with the given root address and session token. The
    /// token must be fit for a header.
    pub fn new(server_url: &str, access_token: &str) -> (r: Result<Self, LibraryError>)
        ensures
            Self::connects(r, server_url@, access_token@),
            match r {
                Ok(c) => is_header_value("Bearer "@ + access_token@) && c.base()
                    == without_trailing(server_url@, '/') && c.credentials() == "Bearer "@
                    + access_token@,
                Err(e) => !is_header_value("Bearer "@ + access_token@) && (e matches
                    LibraryError::Immich(m) && m@ == "invalid access token: "@
                    + BAD_HEADER_VALUE@),
            },
    {
        let authorization = prefixed("Bearer ", access_token);
        match header_value(authorization.as_str()) {
            Ok(_) => Ok(ImmichClient { base_url: trim_end_char(server_url, '/'), authorization }),
            Err(e) => Err(LibraryError::Immich(prefixed("invalid access token: ", e.as_str()))),
        }
    }

    /// The address of the server, without a slash at its end.
    pub fn base_url(&self) -> (r: &str)
        ensures
            r@ == self.base(),
    {
        self.base_url.as_str()
    }

    /// The value of the `Authorization` header.
    pub fn authorization(&self) -> (r: &str)
        ensures
            r@ == self.credentials(),
    {
        self.authorization.as_str()
    }

    /// The full address of an API endpoint, given the address of its server.
    pub open spec fn endpoint(base: Seq<char>, path: Seq<char>) -> Seq<char> {
        base + "/api"@ + path
    }

    /// The full address of an API endpoint.
    pub fn url(&self, path: &str) -> (r: String)
        ensures
            r@ == Self::endpoint(self.base(), path@),
            r@ == self.base() + "/api"@ + path@,
    {
        let mut s = prefixed(self.base_url.as_str(), "/api");
        s.append(path);
        s
    }

    /// The address for logging in to a server, before a session exists.
    pub fn login_url(server_url: &str) -> (r: String)
        ensures
            r@ == without_trailing(server_url@, '/') + "/api/auth/login"@,
            r@ == Self::endpoint(without_trailing(server_url@, '/'), "/auth/login"@),
    {
        let base = trim_end_char(server_url, '/');
        proof {
            reveal_strlit("/api");
            reveal_strlit("/auth/login");
            reveal_strlit("/api/auth/login");
            assert("/api"@ + "/auth/login"@ =~= "/api/auth/login"@);
            assert(Self::endpoint(base@, "/auth/login"@) =~= base@ + ("/api"@ + "/auth/login"@));
        }
        prefixed(base.as_str(), "/api/auth/login")
    }
}

/// The address of a server never ends in a slash, so that an endpoint's address
/// has exactly one before `api`.
pub proof fn base_has_no_trailing_slash(url: Seq<char>)
    ensures
        without_trailing(url, '/').len() > 0 ==> without_trailing(url, '/').last() != '/',
    decreases url.len(),
{
    if url.len() > 0 && url.last() == '/' {
        base_has_no_trailing_slash(url.drop_last());
    }
}

// ── Answers ──────────────────────────────────────────────────────────────────

/// Session data from a successful login.
#[derive(Debug, Clone)]
pub struct LoginResponse {
    /// Session token.
    pub access_token: String,
    /// The server's id of the user.
    pub user_id: String,
    /// Display name of the user.
    pub name: String,
}

/// What became of an upload.
#[derive(Debug, Clone)]
pub struct UploadResponse {
    /// The server's id of the asset.
    pub id: String,
    /// `"created"` or `"duplicate"`.
    pub status: String,
}

/// Version of a server.
#[derive(Debug, Clone)]
pub struct ServerAbout {
    pub version: String,
    pub licensed: bool,
}

impl ServerAbout {
    /// The server as shown.
    pub fn to_string(&self) -> (r: String)
        ensures
            r@ == "Immich "@ + self.version@,
    {
        prefixed("Immich ", self.version.as_str())
    }
}

/// The calls that the client makes.
#[derive(Debug)]
pub enum Call {
    Login,
    Ping,
    About,
    Upload,
    /// Any other endpoint, by method and path.
    Endpoint { method: String, path: String },
}

/// Whether a status says that a call was answered as asked.
pub open spec fn is_success(code: u16) -> bool {
    200 <= code < 300
}

impl Call {
    /// How a call is named in the errors of its transport.
    pub open spec fn unreachable(self) -> Seq<char> {
        match self {
            Call::Login => "login failed: "@,
            Call::Ping => "connection failed: "@,
            Call::About => "connection failed: "@,
            Call::Upload => "upload failed: "@,
            Call::Endpoint { method, path } => method@ + " "@ + path@ + " failed: "@,
        }
    }

    /// How an answer that cannot be read is named.
    pub open spec fn unreadable(self) -> Seq<char> {
        match self {
            Call::Login => "invalid login response: "@,
            Call::Ping => "invalid ping response: "@,
            Call::About => "invalid server about response: "@,
            Call::Upload => "invalid upload response: "@,
            Call::Endpoint { method, path } => method@ + " "@ + path@ + " parse failed: "@,
        }
    }

    /// What is said of a refusal with the given status line and body.
    pub open spec fn refused(self, status: Seq<char>, body: Seq<char>) -> Seq<char> {
        match self {
            Call::Login => "login failed with status "@ + status + ": "@ + body,
            Call::Ping => "ping failed with status "@ + status,
            Call::About => "server about failed with status "@ + status,
            Call::Upload => "upload returned "@ + status + ": "@ + body,
            Call::Endpoint { method, path } => method@ + " "@ + path@ + " returned "@ + status
                + ": "@ + body,
        }
    }

    fn named(&self, rest: &str) -> (r: String)
        requires
            self is Endpoint,
        ensures
            r@ == self->method@ + " "@ + self->path@ + rest@,
    {
        match self {
            Call::Endpoint { method, path } => {
                let mut s = prefixed(method.as_str(), " ");
                s.append(path.as_str());
                s.append(rest);
                s
            },
            _ => String::new(),
        }
    }

    /// The error of a call that got no answer.
    pub fn connection_error(&self, cause: &str) -> (r: LibraryError)
        ensures
            r matches LibraryError::Immich(m) && m@ == self.unreachable() + cause@,
    {
        let mut s = match self {
            Call::Login => "login failed: ".to_owned(),
            Call::Ping => "connection failed: ".to_owned(),
            Call::About => "connection failed: ".to_owned(),
            Call::Upload => "upload failed: ".to_owned(),
            Call::Endpoint { .. } => self.named(" failed: "),
        };
        s.append(cause);
        LibraryError::Immich(s)
    }

    /// The error of a call whose answer cannot be read.
    pub fn parse_error(&self, cause: &str) -> (r: LibraryError)
        ensures
            r matches LibraryError::Immich(m) && m@ == self.unreadable() + cause@,
    {
        let mut s = match self {
            Call::Login => "invalid login response: ".to_owned(),
            Call::Ping => "invalid ping response: ".to_owned(),
            Call::About => "invalid server about response: ".to_owned(),
            Call::Upload => "invalid upload response: ".to_owned(),
            Call::Endpoint { .. } => self.named(" parse failed: "),
        };
        s.append(cause);
        LibraryError::Immich(s)
    }

    /// Takes the status of an answer: success, or the error that it means.
    pub fn check_status(&self, code: u16, status: &str, body: &str) -> (r: Result<
        (),
        LibraryError,
    >)
        ensures
            r is Ok <==> is_success(code),
            r is Ok <==> 200 <= code < 300,
            r matches Err(e) ==> (e matches LibraryError::Immich(m) && m@ == self.refused(
                status@,
                body@,
            )),
    {
        if 200 <= code && code < 300 {
            return Ok(());
        }
        let mut s = match self {
            Call::Login => "login failed with status ".to_owned(),
            Call::Ping => "ping failed with status ".to_owned(),
            Call::About => "server about failed with status ".to_owned(),
            Call::Upload => "upload returned ".to_owned(),
            Call::Endpoint { .. } => self.named(" returned "),
        };
        s.append(status);
        match self {
            Call::Ping => {},
            Call::About => {},
            _ => {
                s.append(": ");
                s.append(body);
            },
        }
        Err(LibraryError::Immich(s))
    }
}

/// Takes the answer to a ping: only `pong` is right.
pub fn check_pong(res: &str) -> (r: Result<(), LibraryError>)
    ensures
        r is Ok <==> res@ == "pong"@,
        r matches Err(e) ==> (e matches LibraryError::Immich(m) && m@
            == "unexpected ping response: "@ + res@),
{
    if text_eq(res, "pong") {
        Ok(())
    } else {
        Err(LibraryError::Immich(prefixed("unexpected ping response: ", res)))
    }
}

/// The error of raw bytes that cannot be read from an answer.
pub fn read_error(path: &str, cause: &str) -> (r: LibraryError)
    ensures
        r matches LibraryError::Immich(m) && m@ == "GET "@ + path@ + " read failed: "@ + cause@,
{
    let mut s = prefixed("GET ", path);
    s.append(" read failed: ");
    s.append(cause);
    LibraryError::Immich(s)
}

// ── Uploads ──────────────────────────────────────────────────────────────────

/// The text that `serde_json` finds under a key of a JSON object: nothing where the
/// bytes are not JSON, and no text where the key is missing or holds something else.
pub uninterp spec fn json_text_member(bytes: Seq<u8>, key: Seq<char>) -> Option<Option<Seq<char>>>;

/// Calls `serde_json::from_slice` for a `serde_json::Value` and looks a key up in it.
/// The claim is that what is found depends on the bytes and the key alone.
#[verifier::external_body]
fn json_member(bytes: &[u8], key: &str) -> (r: Option<Option<String>>)
    ensures
        match r {
            Some(Some(s)) => json_text_member(bytes@, key@) == Some(Some(s@)),
            Some(None) => json_text_member(bytes@, key@) == Some(None::<Seq<char>>),
            None => json_text_member(bytes@, key@) is None,
        },
{
    let value = serde_json::from_slice::<serde_json::Value>(bytes).ok()?;
    Some(value[key].as_str().map(str::to_owned))
}

/// What is said of an answer whose body is not JSON.
pub const UNDECODABLE: &'static str = "error decoding response body";

/// Whether `r` is what an upload came to: the id that was read from the body, empty
/// where there is none, and whether the server had the file already.
pub open spec fn upload_came_to(
    r: Result<UploadResponse, LibraryError>,
    code: u16,
    member: Option<Option<Seq<char>>>,
) -> bool {
    match member {
        None => r matches Err(LibraryError::Immich(m)) && m@ == "invalid upload response: "@
            + UNDECODABLE@,
        Some(id) => r matches Ok(u) && u.id@ == (match id {
            Some(s) => s,
            None => Seq::empty(),
        }) && u.status@ == (if code == 200 {
            "duplicate"@
        } else {
            "created"@
        }),
    }
}

/// Makes the answer to an upload of what was found in its body. Status 200 means
/// that the server has the file already.
pub fn upload_result(code: u16, member: Option<Option<String>>) -> (r: Result<
    UploadResponse,
    LibraryError,
>)
    ensures
        upload_came_to(
            r,
            code,
            match member {
                Some(Some(s)) => Some(Some(s@)),
                Some(None) => Some(None),
                None => None,
            },
        ),
{
    match member {
        None => Err(Call::Upload.parse_error(UNDECODABLE)),
        Some(id) => {
            let status = if code == 200 {
                "duplicate".to_owned()
            } else {
                "created".to_owned()
            };
            let id = match id {
                Some(s) => s,
                None => String::new(),
            };
            Ok(UploadResponse { id, status })
        },
    }
}

/// Reads the successful answer to an upload.
pub fn upload_response(code: u16, body: &[u8]) -> (r: Result<UploadResponse, LibraryError>)
    ensures
        upload_came_to(r, code, json_text_member(body@, "id"@)),
{
    upload_result(code, json_member(body, "id"))
}

/// The name under which a file is uploaded.
pub open spec fn uploaded_name(file_name: Option<String>) -> Seq<char> {
    match file_name {
        Some(n) => n@,
        None => "upload"@,
    }
}

/// The name under which a file is uploaded: its own, or `upload` where it has none.
pub fn upload_name(file_name: &Option<String>) -> (r: String)
    ensures
        r@ == uploaded_name(*file_name),
{
    match file_name {
        Some(n) => n.clone(),
        None => "upload".to_owned(),
    }
}

/// A text field of an upload form, or a header.
#[derive(Debug)]
pub struct FormField {
    pub name: String,
    pub value: String,
}

/// The contents of a form field.
pub open spec fn field(f: FormField) -> (Seq<char>, Seq<char>) {
    (f.name@, f.value@)
}

fn form_field(name: &str, value: &str) -> (r: FormField)
    ensures
        field(r) == (name@, value@),
{
    FormField { name: name.to_owned(), value: value.to_owned() }
}

/// The names and values of fields.
pub open spec fn fields(fs: Seq<FormField>) -> Seq<(Seq<char>, Seq<char>)> {
    fs.map_values(|f: FormField| field(f))
}

/// The names and values of the text fields that go with an uploaded file.
pub open spec fn fields_for(id: Seq<char>, created: Seq<char>, modified: Seq<char>) -> Seq<
    (Seq<char>, Seq<char>),
> {
    seq![
        ("deviceAssetId"@, id),
        ("deviceId"@, "moments"@),
        ("fileCreatedAt"@, created),
        ("fileModifiedAt"@, modified),
    ]
}

/// The names and values of the headers that go with an uploaded file.
pub open spec fn headers_for(checksum: Option<String>) -> Seq<(Seq<char>, Seq<char>)> {
    match checksum {
        Some(hash) => seq![("x-immich-checksum"@, hash@)],
        None => Seq::empty(),
    }
}

/// The text fields that go with an uploaded file.
pub fn upload_fields(
    device_asset_id: &str,
    file_created_at: &str,
    file_modified_at: &str,
) -> (r: Vec<FormField>)
    ensures
        fields(r@) == fields_for(device_asset_id@, file_created_at@, file_modified_at@),
        r@.map_values(|f: FormField| field(f)) == seq![
            ("deviceAssetId"@, device_asset_id@),
            ("deviceId"@, "moments"@),
            ("fileCreatedAt"@, file_created_at@),
            ("fileModifiedAt"@, file_modified_at@),
        ],
{
    let mut r: Vec<FormField> = Vec::new();
    r.push(form_field("deviceAssetId", device_asset_id));
    r.push(form_field("deviceId", "moments"));
    r.push(form_field("fileCreatedAt", file_created_at));
    r.push(form_field("fileModifiedAt", file_modified_at));
    assert(r@.map_values(|f: FormField| field(f)) =~= seq![
        ("deviceAssetId"@, device_asset_id@),
        ("deviceId"@, "moments"@),
        ("fileCreatedAt"@, file_created_at@),
        ("fileModifiedAt"@, file_modified_at@),
    ]);
    r
}

/// The headers that go with an uploaded file: its checksum, where there is one.
pub fn upload_headers(checksum: &Option<String>) -> (r: Vec<FormField>)
    ensures
        fields(r@) == headers_for(*checksum),
        match *checksum {
            Some(hash) => r@.len() == 1 && field(r@[0]) == ("x-immich-checksum"@, hash@),
            None => r@.len() == 0,
        },
{
    let mut r: Vec<FormField> = Vec::new();
    if let Some(hash) = checksum {
        r.push(form_field("x-immich-checksum", hash.as_str()));
    }
    assert(fields(r@) =~= headers_for(*checksum));
    r
}

} // verus!
