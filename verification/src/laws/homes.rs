//! Where a library lives, which server it has, and what is said when something fails.

use vstd::prelude::*;

use crate::bundle::{configures, creates, opens, records, Bundle, LibraryManifest};
use crate::config::{debug_text, LibraryConfig, LocalStorageMode};
use crate::error::{hides_detail, told_to_user, LibraryError};
use crate::immich_client::{
    base_has_no_trailing_slash, fields_for, headers_for, is_header_value, is_success, upload_came_to, uploaded_name, Call, ImmichClient,
    UploadResponse,
};

verus! {

// ── The bundle ───────────────────────────────────────────────────────────────

/// A manifest names the backend of its library and holds the section of that backend alone. Of
/// a server it holds the address, and never the token.
pub proof fn manifests_name_their_backend(m: LibraryManifest, config: LibraryConfig)
    requires
        records(m, config),
    ensures
        m.library.version == 1,
        m.local is Some <==> config is Local,
        m.immich is Some <==> config is Immich,
        config is Local ==> m.library.backend@ == "local"@,
        config is Immich ==> m.library.backend@ == "immich"@ && m.immich->0.server_url
            == config->server_url,
        config matches LibraryConfig::Local { mode: LocalStorageMode::Managed }
            ==> m.local->0.mode@ == "managed"@,
        config matches LibraryConfig::Local { mode: LocalStorageMode::Referenced }
            ==> m.local->0.mode@ == "referenced"@,
{
}

/// A manifest is taken at its word. A local library leaves originals where they are only where
/// its manifest says so; a library on a server needs the address of the server; and no other
/// backend is known.
pub proof fn manifests_are_taken_at_their_word(
    m: LibraryManifest,
    r: Result<LibraryConfig, LibraryError>,
)
    requires
        configures(m, r),
    ensures
        m.library.backend@ == "local"@ ==> r is Ok && r->Ok_0 is Local && (r->Ok_0->mode is Referenced
            <==> m.local is Some && m.local->0.mode@ == "referenced"@),
        m.library.backend@ == "immich"@ && m.immich is Some ==> r is Ok && r->Ok_0 is Immich
            && r->Ok_0->server_url == m.immich->0.server_url && r->Ok_0->access_token@.len() == 0,
        m.library.backend@ == "immich"@ && m.immich is None ==> r is Err && r->Err_0 is Bundle,
        m.library.backend@ != "local"@ && m.library.backend@ != "immich"@ ==> r
            == Err::<LibraryConfig, LibraryError>(LibraryError::InvalidBackend(m.library.backend)),
{
    reveal_strlit("local");
    reveal_strlit("immich");
    assert("local"@.len() != "immich"@.len());
}

/// A bundle is created where there is nothing and opened where there is a directory, and its
/// parts lie in it under their own names.
pub proof fn bundles_have_their_place(
    path: Seq<char>,
    exists: bool,
    is_dir: bool,
    created: Result<Bundle, LibraryError>,
    opened: Result<Bundle, LibraryError>,
)
    requires
        creates(created, path, exists),
        opens(opened, path, is_dir),
        path.len() > 0,
        path.last() != '/',
    ensures
        created is Ok <==> !exists,
        opened is Ok <==> is_dir,
        created is Ok ==> created->Ok_0.path@ == path && created->Ok_0.originals@ == path.push('/')
            + "originals"@ && created->Ok_0.thumbnails@ == path.push('/') + "thumbnails"@
            && created->Ok_0.faces@ == path.push('/') + "faces"@ && created->Ok_0.database@
            == path.push('/') + "database"@,
        opened is Ok ==> opened->Ok_0.path@ == path && opened->Ok_0.originals@ == path.push('/')
            + "originals"@ && opened->Ok_0.thumbnails@ == path.push('/') + "thumbnails"@
            && opened->Ok_0.faces@ == path.push('/') + "faces"@ && opened->Ok_0.database@
            == path.push('/') + "database"@,
{
    reveal_strlit("originals");
    reveal_strlit("thumbnails");
    reveal_strlit("faces");
    reveal_strlit("database");
}

// ── The server ───────────────────────────────────────────────────────────────

/// An answer counts as a success where its status begins with 2.
pub proof fn successes_begin_with_two(code: u16)
    ensures
        is_success(code) <==> code / 100 == 2,
{
}

/// Endpoints with different paths have different addresses, all of them below the server's
/// `/api`.
pub proof fn endpoints_lie_below_api(base: Seq<char>, a: Seq<char>, b: Seq<char>)
    ensures
        ImmichClient::endpoint(base, a) == ImmichClient::endpoint(base, b) ==> a == b,
        ImmichClient::endpoint(base, a).take(base.len() as int + 4) == base + "/api"@,
        ImmichClient::endpoint(base, a).skip(base.len() as int + 4) == a,
{
    reveal_strlit("/api");
    assert(ImmichClient::endpoint(base, a).take(base.len() as int + 4) =~= base + "/api"@);
    assert(ImmichClient::endpoint(base, a).skip(base.len() as int + 4) =~= a);
    assert(ImmichClient::endpoint(base, b).skip(base.len() as int + 4) =~= b);
}

/// A call that fails is told in the words of the call, followed by the cause; whether it got no
/// answer, an answer that cannot be read or a refusal is told apart.
pub proof fn failed_calls_are_told_apart(method: String, path: String, status: Seq<char>, body:
    Seq<char>)
    ensures
        (Call::Endpoint { method, path }).unreachable() == method@ + " "@ + path@ + " failed: "@,
        (Call::Endpoint { method, path }).unreadable() == method@ + " "@ + path@
            + " parse failed: "@,
        (Call::Endpoint { method, path }).refused(status, body) == method@ + " "@ + path@
            + " returned "@ + status + ": "@ + body,
        Call::Login.unreachable() == "login failed: "@,
        Call::Ping.unreachable() == "connection failed: "@,
        Call::About.unreachable() == "connection failed: "@,
        Call::Upload.unreachable() == "upload failed: "@,
        Call::Login.unreadable() == "invalid login response: "@,
        Call::Ping.unreadable() == "invalid ping response: "@,
        Call::About.unreadable() == "invalid server about response: "@,
        Call::Upload.unreadable() == "invalid upload response: "@,
        Call::Login.refused(status, body) == "login failed with status "@ + status + ": "@ + body,
        Call::Ping.refused(status, body) == "ping failed with status "@ + status,
        Call::About.refused(status, body) == "server about failed with status "@ + status,
        Call::Upload.refused(status, body) == "upload returned "@ + status + ": "@ + body,
{
}

/// An upload tells the server which file it is of and when that was made and changed, and names
/// this application; its checksum goes along where it is known.
pub proof fn uploads_describe_their_file(
    id: Seq<char>,
    created: Seq<char>,
    modified: Seq<char>,
    hash: String,
)
    ensures
        fields_for(id, created, modified).contains(("deviceAssetId"@, id)),
        fields_for(id, created, modified).contains(("deviceId"@, "moments"@)),
        fields_for(id, created, modified).contains(("fileCreatedAt"@, created)),
        fields_for(id, created, modified).contains(("fileModifiedAt"@, modified)),
        fields_for(id, created, modified).len() == 4,
        headers_for(Some(hash)) == seq![("x-immich-checksum"@, hash@)],
        headers_for(None).len() == 0,
{
    let f = fields_for(id, created, modified);
    assert(f[0] == ("deviceAssetId"@, id));
    assert(f[1] == ("deviceId"@, "moments"@));
    assert(f[2] == ("fileCreatedAt"@, created));
    assert(f[3] == ("fileModifiedAt"@, modified));
}

/// A file goes to the server under its own name, and one that has none as `upload`.
pub proof fn uploads_keep_their_name(name: String)
    ensures
        uploaded_name(Some(name)) == name@,
        uploaded_name(None) == "upload"@,
{
}

/// Only status 200 says that the server had the file before; the id that it gives is kept.
pub proof fn known_files_are_duplicates(
    r: Result<UploadResponse, LibraryError>,
    code: u16,
    member: Option<Option<Seq<char>>>,
)
    requires
        upload_came_to(r, code, member),
    ensures
        r is Ok <==> member is Some,
        r is Ok ==> (r->Ok_0.status@ == "duplicate"@ <==> code == 200) && (r->Ok_0.status@
            == "created"@ <==> code != 200),
        r is Ok && member->0 is Some ==> r->Ok_0.id@ == member->0->0,
        r is Ok && member->0 is None ==> r->Ok_0.id@.len() == 0,
        r is Err ==> r->Err_0 is Immich,
{
    reveal_strlit("duplicate");
    reveal_strlit("created");
    assert("duplicate"@.len() != "created"@.len());
}

// ── Errors ───────────────────────────────────────────────────────────────────

/// Errors of the database, of files and of the library itself are told in general words; of
/// every other error the user reads the whole text.
pub proof fn general_words_hide_detail(e: LibraryError)
    ensures
        e is Db || e is Io || e is Runtime <==> hides_detail(e),
        !hides_detail(e) ==> told_to_user(e) == e.text(),
        e is Db ==> told_to_user(e) == "A database error occurred"@,
        e is Io ==> told_to_user(e) == "Could not read or write file"@,
        e is Runtime ==> told_to_user(e) == "An unexpected error occurred"@,
{
}

/// Every error is told by what failed, followed by the words of whatever failed.
pub proof fn errors_keep_their_words(m: String)
    ensures
        LibraryError::Io(m).text() == "I/O error: "@ + m@,
        LibraryError::Bundle(m).text() == "Bundle error: "@ + m@,
        LibraryError::InvalidBackend(m).text() == "unknown backend type '"@ + m@
            + "' in library.toml"@,
        LibraryError::Db(m).text() == "database error: "@ + m@,
        LibraryError::Runtime(m).text() == "runtime error: "@ + m@,
        LibraryError::Thumbnail(m).text() == "thumbnail error: "@ + m@,
        LibraryError::Render(m).text() == "render error: "@ + m@,
        LibraryError::Immich(m).text() == "immich error: "@ + m@,
        LibraryError::Connectivity(m).text() == "server unreachable: "@ + m@,
{
}

/// Whether a character may stand in a header.
pub open spec fn is_printable(c: char) -> bool {
    c == '\t' || (c as u32 >= 32 && c as u32 != 127)
}

/// A client carries its token as a bearer token and has the address of its server without slashes
/// at the end. Only a token with a character that no header may hold is refused.
pub proof fn clients_carry_their_token(
    r: Result<ImmichClient, LibraryError>,
    url: Seq<char>,
    token: Seq<char>,
)
    requires
        ImmichClient::connects(r, url, token),
    ensures
        (forall|i: int| 0 <= i < token.len() ==> is_printable(#[trigger] token[i])) ==> r is Ok,
        (exists|i: int| 0 <= i < token.len() && !is_printable(#[trigger] token[i])) ==> r is Err
            && r->Err_0 is Immich,
        r is Ok ==> r->Ok_0.credentials() == "Bearer "@ + token,
        r is Ok && r->Ok_0.base().len() > 0 ==> r->Ok_0.base().last() != '/',
        r is Ok && url.len() > 0 && url.last() != '/' ==> r->Ok_0.base() == url,
{
    reveal_strlit("Bearer ");
    base_has_no_trailing_slash(url);
    let v = "Bearer "@ + token;
    if forall|i: int| 0 <= i < token.len() ==> is_printable(#[trigger] token[i]) {
        assert forall|i: int| 0 <= i < v.len() implies (#[trigger] v[i] == '\t' || (v[i] as u32 >= 32
            && v[i] as u32 != 127)) by {
            if i >= 7 {
                assert(is_printable(token[i - 7]));
            }
        }
        assert(is_header_value(v));
    }
    if exists|i: int| 0 <= i < token.len() && !is_printable(#[trigger] token[i]) {
        let i = choose|i: int| 0 <= i < token.len() && !is_printable(#[trigger] token[i]);
        assert(v[i + 7] == token[i]);
        assert(!is_header_value(v));
    }
}

/// What is logged of a library tells its backend apart: where its originals are, or which server
/// it has.
pub proof fn configurations_are_logged(url: String, token: String)
    ensures
        (LibraryConfig::Local { mode: LocalStorageMode::Managed }).shown()
            == "Local { mode: Managed }"@,
        (LibraryConfig::Local { mode: LocalStorageMode::Referenced }).shown()
            == "Local { mode: Referenced }"@,
        (LibraryConfig::Immich { server_url: url, access_token: token }).shown()
            == "Immich { server_url: "@ + debug_text(url@)
            + ", access_token: \"[REDACTED]\" }"@,
{
}

} // verus!
