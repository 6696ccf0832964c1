//! The session filesystem that the CLI runtime can call back into: the provider interface,
//! its error and metadata types, and the dispatch of inbound `sessionFs.*` requests.

use crate::error::CopilotError;
use crate::registry::assoc_get;
use crate::json::{
    push_field, str_eq, view_entries, Json, JsonNumber, JsonView, NumberView,
};
use crate::text::{push_str, string_of};
use vstd::prelude::*;

verus! {

/// Error code reported back to the runtime for a failed filesystem operation.
#[derive(Debug, Clone, Copy, PartialEq, Eq, Structural)]
pub enum SessionFsErrorCode {
    /// The file or directory does not exist.
    NoEnt,
    /// Any other failure.
    Unknown,
}

impl SessionFsErrorCode {
    pub open spec fn wire_spec(self) -> Seq<char> {
        match self {
            SessionFsErrorCode::NoEnt => "ENOENT"@,
            SessionFsErrorCode::Unknown => "UNKNOWN"@,
        }
    }

    /// The code's wire name.
    pub fn wire(&self) -> (r: String)
        ensures
            r@ == self.wire_spec(),
    {
        match self {
            SessionFsErrorCode::NoEnt => string_of("ENOENT"),
            SessionFsErrorCode::Unknown => string_of("UNKNOWN"),
        }
    }
}

/// The error a filesystem operation reports.
#[derive(Debug, Clone)]
pub struct SessionFsError {
    pub code: SessionFsErrorCode,
    pub message: String,
}

impl SessionFsError {
    /// A "does not exist" error.
    pub fn enoent(message: &str) -> (r: SessionFsError)
        ensures
            r.code == SessionFsErrorCode::NoEnt,
            r.message@ == message@,
    {
        SessionFsError { code: SessionFsErrorCode::NoEnt, message: string_of(message) }
    }

    /// Any other error.
    pub fn unknown(message: &str) -> (r: SessionFsError)
        ensures
            r.code == SessionFsErrorCode::Unknown,
            r.message@ == message@,
    {
        SessionFsError { code: SessionFsErrorCode::Unknown, message: string_of(message) }
    }

    /// The error for an IO failure: "does not exist" when it was not found, any other
    /// error otherwise, carrying its message.
    pub fn from_io(not_found: bool, message: String) -> (r: SessionFsError)
        ensures
            r.code == (if not_found {
                SessionFsErrorCode::NoEnt
            } else {
                SessionFsErrorCode::Unknown
            }),
            r.message == message,
    {
        if not_found {
            SessionFsError { code: SessionFsErrorCode::NoEnt, message }
        } else {
            SessionFsError { code: SessionFsErrorCode::Unknown, message }
        }
    }

    /// The error for an IO error: `NotFound` maps to `ENOENT`, everything else to
    /// `UNKNOWN`. The message is the error's text, which the OS may word by locale; the
    /// contract leaves it unsaid.
    pub fn from_io_error(err: &std::io::Error) -> (r: SessionFsError)
        ensures
            r.code == (if io_error_kind_is_not_found(*err) {
                SessionFsErrorCode::NoEnt
            } else {
                SessionFsErrorCode::Unknown
            }),
    {
        let not_found = io_error_is_not_found(err);
        SessionFsError::from_io(not_found, io_error_message(err))
    }

    /// The text `Debug(code): message`.
    pub fn describe(&self) -> (r: String)
        ensures
            r@ == (match self.code {
                SessionFsErrorCode::NoEnt => "NoEnt"@,
                SessionFsErrorCode::Unknown => "Unknown"@,
            }) + ": "@ + self.message@,
    {
        let mut s = match self.code {
            SessionFsErrorCode::NoEnt => string_of("NoEnt"),
            SessionFsErrorCode::Unknown => string_of("Unknown"),
        };
        push_str(&mut s, ": ");
        push_str(&mut s, self.message.as_str());
        s
    }
}

/// Whether an IO error's kind (`std::io::Error::kind`) is `ErrorKind::NotFound`: a
/// function of the error value alone.
pub uninterp spec fn io_error_kind_is_not_found(err: std::io::Error) -> bool;

/// Tests `std::io::Error::kind` against `ErrorKind::NotFound`; the result is
/// `io_error_kind_is_not_found` of the error.
#[verifier::external_body]
fn io_error_is_not_found(err: &std::io::Error) -> (r: bool)
    ensures
        r == io_error_kind_is_not_found(*err),
{
    err.kind() == std::io::ErrorKind::NotFound
}

/// The text of an IO error (its `Display`); nothing is stated of it.
#[verifier::external_body]
fn io_error_message(err: &std::io::Error) -> String {
    err.to_string()
}

/// The wire form of an error: `{code, message}`.
pub open spec fn fs_error_wire(e: SessionFsError) -> JsonView {
    JsonView::Object(
        seq![("code"@, JsonView::Str(e.code.wire_spec())), ("message"@, JsonView::Str(e.message@))],
    )
}

fn fs_error_json(e: &SessionFsError) -> (r: Json)
    ensures
        r@ == fs_error_wire(*e),
{
    let mut es: Vec<(String, Json)> = Vec::new();
    assert(view_entries(es@) =~= Seq::empty());
    push_field(&mut es, "code", Json::Str(e.code.wire()));
    push_field(&mut es, "message", Json::Str(e.message.clone()));
    assert(view_entries(es@) =~= fs_error_wire(*e)->Object_0);
    Json::Object(es)
}

/// Metadata of a file or directory.
#[derive(Debug, Clone)]
pub struct SessionFsFileInfo {
    pub is_file: bool,
    pub is_directory: bool,
    pub size: u64,
    /// Modification time in ISO 8601 format.
    pub mtime: String,
    /// Creation time in ISO 8601 format.
    pub birthtime: String,
}

/// The wire form of file metadata.
pub open spec fn file_info_wire(
    is_file: bool,
    is_directory: bool,
    size: u64,
    mtime: Seq<char>,
    birthtime: Seq<char>,
) -> Seq<(Seq<char>, JsonView)> {
    seq![
        ("isFile"@, JsonView::Bool(is_file)),
        ("isDirectory"@, JsonView::Bool(is_directory)),
        ("size"@, JsonView::Number(NumberView::PosInt(size))),
        ("mtime"@, JsonView::Str(mtime)),
        ("birthtime"@, JsonView::Str(birthtime)),
    ]
}

fn file_info_entries(info: &SessionFsFileInfo) -> (r: Vec<(String, Json)>)
    ensures
        view_entries(r@) == file_info_wire(
            info.is_file,
            info.is_directory,
            info.size,
            info.mtime@,
            info.birthtime@,
        ),
{
    let mut es: Vec<(String, Json)> = Vec::new();
    assert(view_entries(es@) =~= Seq::empty());
    push_field(&mut es, "isFile", Json::Bool(info.is_file));
    push_field(&mut es, "isDirectory", Json::Bool(info.is_directory));
    push_field(&mut es, "size", Json::Number(JsonNumber::PosInt(info.size)));
    push_field(&mut es, "mtime", Json::Str(info.mtime.clone()));
    push_field(&mut es, "birthtime", Json::Str(info.birthtime.clone()));
    assert(view_entries(es@) =~= file_info_wire(
        info.is_file,
        info.is_directory,
        info.size,
        info.mtime@,
        info.birthtime@,
    ));
    es
}

/// An entry of a directory listing with its kind.
#[derive(Debug, Clone)]
pub struct SessionFsProviderEntry {
    pub name: String,
    pub is_file: bool,
    pub is_directory: bool,
}

/// The wire form of a directory entry.
pub open spec fn entry_wire(e: SessionFsProviderEntry) -> JsonView {
    JsonView::Object(
        seq![
            ("name"@, JsonView::Str(e.name@)),
            ("isFile"@, JsonView::Bool(e.is_file)),
            ("isDirectory"@, JsonView::Bool(e.is_directory)),
        ],
    )
}

/// The wire form of a directory entry carries the entry's own name under `name`, whether it
/// is a file under `isFile` and whether it is a directory under `isDirectory`.
pub proof fn law_entry_wire_members(e: SessionFsProviderEntry)
    ensures
        entry_wire(e).get_str("name"@) == Some(e.name@),
        entry_wire(e).get_bool("isFile"@) == Some(e.is_file),
        entry_wire(e).get_bool("isDirectory"@) == Some(e.is_directory),
{
    reveal_strlit("name");
    reveal_strlit("isFile");
    reveal_strlit("isDirectory");
    assert("name"@.len() == 4 && "isFile"@.len() == 6 && "isDirectory"@.len() == 11);
    reveal_with_fuel(assoc_get, 4);
    let es = entry_wire(e)->Object_0;
    assert(es.drop_first() =~= seq![
        ("isFile"@, JsonView::Bool(e.is_file)),
        ("isDirectory"@, JsonView::Bool(e.is_directory)),
    ]);
    assert(es.drop_first().drop_first() =~= seq![("isDirectory"@, JsonView::Bool(e.is_directory))]);
}

/// The reply to `readdirWithTypes` lists the provider's entries in order, each with its own
/// name, `isFile` and `isDirectory`.
pub proof fn law_entries_reply_keeps_kinds(es: Vec<SessionFsProviderEntry>)
    ensures
        fs_reply_spec(SessionFsOutcome::Entries(Ok(es))).get("entries"@) matches Some(
            JsonView::Array(a),
        ) && a.len() == es@.len() && forall|i: int|
            0 <= i < es@.len() ==> (#[trigger] a[i]).get_bool("isDirectory"@) == Some(
                es@[i].is_directory,
            ) && a[i].get_bool("isFile"@) == Some(es@[i].is_file) && a[i].get_str("name"@)
                == Some(es@[i].name@),
{
    let a = Seq::new(es@.len(), |i: int| entry_wire(es@[i]));
    assert forall|i: int| 0 <= i < es@.len() implies (#[trigger] a[i]).get_bool("isDirectory"@)
        == Some(es@[i].is_directory) && a[i].get_bool("isFile"@) == Some(es@[i].is_file)
        && a[i].get_str("name"@) == Some(es@[i].name@) by {
        law_entry_wire_members(es@[i]);
    }
}

fn entry_json(e: &SessionFsProviderEntry) -> (r: Json)
    ensures
        r@ == entry_wire(*e),
{
    let mut es: Vec<(String, Json)> = Vec::new();
    assert(view_entries(es@) =~= Seq::empty());
    push_field(&mut es, "name", Json::Str(e.name.clone()));
    push_field(&mut es, "isFile", Json::Bool(e.is_file));
    push_field(&mut es, "isDirectory", Json::Bool(e.is_directory));
    assert(view_entries(es@) =~= entry_wire(*e)->Object_0);
    Json::Object(es)
}

/// A storage backend for the session filesystem, implemented by hosts. Each method takes the
/// absolute path the runtime handed in and reports failures as a [`SessionFsError`].
///
/// What a backend answers is its own affair: each method's answer is described by a spec
/// function of the implementation, over the arguments the method was called with. An
/// implementation that describes nothing allows any answer (the default); code generic over
/// the provider sees each description only as a relation of those arguments.
pub trait SessionFsProvider {
    /// Whether `r` is what reading `path` answers.
    closed spec fn read_file_answer(&self, path: Seq<char>, r: Result<String, SessionFsError>) -> bool {
        true
    }

    /// Whether `r` is what writing `content` to `path` with `mode` answers.
    closed spec fn write_file_answer(
        &self,
        path: Seq<char>,
        content: Seq<char>,
        mode: Option<u32>,
        r: Result<(), SessionFsError>,
    ) -> bool {
        true
    }

    /// Whether `r` is what appending `content` to `path` with `mode` answers.
    closed spec fn append_file_answer(
        &self,
        path: Seq<char>,
        content: Seq<char>,
        mode: Option<u32>,
        r: Result<(), SessionFsError>,
    ) -> bool {
        true
    }

    /// Whether `r` is what asking whether `path` exists answers.
    closed spec fn path_exists_answer(&self, path: Seq<char>, r: Result<bool, SessionFsError>) -> bool {
        true
    }

    /// Whether `r` is what the metadata of `path` answers.
    closed spec fn stat_answer(&self, path: Seq<char>, r: Result<SessionFsFileInfo, SessionFsError>) -> bool {
        true
    }

    /// Whether `r` is what creating the directory `path` answers.
    closed spec fn mkdir_answer(
        &self,
        path: Seq<char>,
        recursive: bool,
        mode: Option<u32>,
        r: Result<(), SessionFsError>,
    ) -> bool {
        true
    }

    /// Whether `r` is what listing the directory `path` answers.
    closed spec fn readdir_answer(&self, path: Seq<char>, r: Result<Vec<String>, SessionFsError>) -> bool {
        true
    }

    /// Whether `r` is what listing the directory `path` with kinds answers.
    closed spec fn readdir_with_types_answer(
        &self,
        path: Seq<char>,
        r: Result<Vec<SessionFsProviderEntry>, SessionFsError>,
    ) -> bool {
        true
    }

    /// Whether `r` is what removing `path` answers.
    closed spec fn rm_answer(
        &self,
        path: Seq<char>,
        recursive: bool,
        force: bool,
        r: Result<(), SessionFsError>,
    ) -> bool {
        true
    }

    /// Whether `r` is what moving `src` to `dest` answers.
    closed spec fn rename_answer(
        &self,
        src: Seq<char>,
        dest: Seq<char>,
        r: Result<(), SessionFsError>,
    ) -> bool {
        true
    }

    /// Reads the full content of a file.
    fn read_file(&self, path: &str) -> (r: Result<String, SessionFsError>)
        ensures
            self.read_file_answer(path@, r),
    ;

    /// Writes `content` to `path`, creating parent directories as needed.
    fn write_file(&self, path: &str, content: &str, mode: Option<u32>) -> (r: Result<
        (),
        SessionFsError,
    >)
        ensures
            self.write_file_answer(path@, content@, mode, r),
    ;

    /// Appends `content` to `path`, creating parent directories as needed.
    fn append_file(&self, path: &str, content: &str, mode: Option<u32>) -> (r: Result<
        (),
        SessionFsError,
    >)
        ensures
            self.append_file_answer(path@, content@, mode, r),
    ;

    /// Whether the path exists.
    fn path_exists(&self, path: &str) -> (r: Result<bool, SessionFsError>)
        ensures
            self.path_exists_answer(path@, r),
    ;

    /// Metadata of the path.
    fn stat(&self, path: &str) -> (r: Result<SessionFsFileInfo, SessionFsError>)
        ensures
            self.stat_answer(path@, r),
    ;

    /// Creates a directory, with its parents when `recursive`.
    fn mkdir(&self, path: &str, recursive: bool, mode: Option<u32>) -> (r: Result<
        (),
        SessionFsError,
    >)
        ensures
            self.mkdir_answer(path@, recursive, mode, r),
    ;

    /// The names of the entries of a directory.
    fn readdir(&self, path: &str) -> (r: Result<Vec<String>, SessionFsError>)
        ensures
            self.readdir_answer(path@, r),
    ;

    /// The entries of a directory with their kinds.
    fn readdir_with_types(&self, path: &str) -> (r: Result<
        Vec<SessionFsProviderEntry>,
        SessionFsError,
    >)
        ensures
            self.readdir_with_types_answer(path@, r),
    ;

    /// Removes a file or directory.
    fn rm(&self, path: &str, recursive: bool, force: bool) -> (r: Result<(), SessionFsError>)
        ensures
            self.rm_answer(path@, recursive, force, r),
    ;

    /// Moves or renames a file or directory.
    fn rename(&self, src: &str, dest: &str) -> (r: Result<(), SessionFsError>)
        ensures
            self.rename_answer(src@, dest@, r),
    ;
}

/// An inbound `sessionFs.*` request, its parameters read.
#[derive(Debug)]
pub enum SessionFsRequest {
    ReadFile { path: String },
    WriteFile { path: String, content: String, mode: Option<u32> },
    AppendFile { path: String, content: String, mode: Option<u32> },
    Exists { path: String },
    Stat { path: String },
    Mkdir { path: String, recursive: bool, mode: Option<u32> },
    Readdir { path: String },
    ReaddirWithTypes { path: String },
    Rm { path: String, recursive: bool, force: bool },
    Rename { src: String, dest: String },
}

/// A string parameter, empty when missing.
pub open spec fn str_param(params: JsonView, key: Seq<char>) -> Seq<char> {
    match params.get_str(key) {
        Some(s) => s,
        None => Seq::empty(),
    }
}

/// A boolean parameter, `false` when missing.
pub open spec fn bool_param(params: JsonView, key: Seq<char>) -> bool {
    match params.get_bool(key) {
        Some(b) => b,
        None => false,
    }
}

/// The `mode` parameter, its low 32 bits.
pub open spec fn mode_param(params: JsonView) -> Option<u32> {
    match params.get_u64("mode"@) {
        Some(m) => Some(m as u32),
        None => None,
    }
}

/// Whether `r` is the request that `method` with `params` reads as.
pub open spec fn fs_request_spec(method: Seq<char>, params: JsonView, r: SessionFsRequest) -> bool {
    let path = str_param(params, "path"@);
    match r {
        SessionFsRequest::ReadFile { path: p } => method == "sessionFs.readFile"@ && p@ == path,
        SessionFsRequest::WriteFile { path: p, content, mode } => method == "sessionFs.writeFile"@
            && p@ == path && content@ == str_param(params, "content"@) && mode == mode_param(
            params,
        ),
        SessionFsRequest::AppendFile { path: p, content, mode } => method
            == "sessionFs.appendFile"@ && p@ == path && content@ == str_param(params, "content"@)
            && mode == mode_param(params),
        SessionFsRequest::Exists { path: p } => method == "sessionFs.exists"@ && p@ == path,
        SessionFsRequest::Stat { path: p } => method == "sessionFs.stat"@ && p@ == path,
        SessionFsRequest::Mkdir { path: p, recursive, mode } => method == "sessionFs.mkdir"@ && p@
            == path && recursive == bool_param(params, "recursive"@) && mode == mode_param(params),
        SessionFsRequest::Readdir { path: p } => method == "sessionFs.readdir"@ && p@ == path,
        SessionFsRequest::ReaddirWithTypes { path: p } => method == "sessionFs.readdirWithTypes"@
            && p@ == path,
        SessionFsRequest::Rm { path: p, recursive, force } => method == "sessionFs.rm"@ && p@
            == path && recursive == bool_param(params, "recursive"@) && force == bool_param(
            params,
            "force"@,
        ),
        SessionFsRequest::Rename { src, dest } => method == "sessionFs.rename"@ && src@
            == str_param(params, "src"@) && dest@ == str_param(params, "dest"@),
    }
}

/// Whether `method` names a `sessionFs.*` request this library answers.
pub open spec fn is_fs_method(method: Seq<char>) -> bool {
    ||| method == "sessionFs.readFile"@
    ||| method == "sessionFs.writeFile"@
    ||| method == "sessionFs.appendFile"@
    ||| method == "sessionFs.exists"@
    ||| method == "sessionFs.stat"@
    ||| method == "sessionFs.mkdir"@
    ||| method == "sessionFs.readdir"@
    ||| method == "sessionFs.readdirWithTypes"@
    ||| method == "sessionFs.rm"@
    ||| method == "sessionFs.rename"@
}

fn str_param_exec(params: &Json, key: &str) -> (r: String)
    ensures
        r@ == str_param(params@, key@),
{
    match params.get_str(key) {
        Some(s) => string_of(s),
        None => String::new(),
    }
}

fn bool_param_exec(params: &Json, key: &str) -> (r: bool)
    ensures
        r == bool_param(params@, key@),
{
    match params.get_bool(key) {
        Some(b) => b,
        None => false,
    }
}

impl SessionFsRequest {
    /// Reads an inbound request; an unknown method is a protocol error.
    pub fn parse(method: &str, params: &Json) -> (r: Result<SessionFsRequest, CopilotError>)
        ensures
            match r {
                Ok(q) => fs_request_spec(method@, params@, q),
                Err(e) => !is_fs_method(method@) && (e matches CopilotError::Protocol(m) && m@
                    == "Unknown sessionFs method: "@ + method@),
            },
    {
        let path = str_param_exec(params, "path");
        let mode = match params.get_u64("mode") {
            Some(m) => Some(m as u32),
            None => None,
        };
        if str_eq(method, "sessionFs.readFile") {
            Ok(SessionFsRequest::ReadFile { path })
        } else if str_eq(method, "sessionFs.writeFile") {
            Ok(SessionFsRequest::WriteFile { path, content: str_param_exec(params, "content"), mode })
        } else if str_eq(method, "sessionFs.appendFile") {
            Ok(
                SessionFsRequest::AppendFile {
                    path,
                    content: str_param_exec(params, "content"),
                    mode,
                },
            )
        } else if str_eq(method, "sessionFs.exists") {
            Ok(SessionFsRequest::Exists { path })
        } else if str_eq(method, "sessionFs.stat") {
            Ok(SessionFsRequest::Stat { path })
        } else if str_eq(method, "sessionFs.mkdir") {
            Ok(
                SessionFsRequest::Mkdir {
                    path,
                    recursive: bool_param_exec(params, "recursive"),
                    mode,
                },
            )
        } else if str_eq(method, "sessionFs.readdir") {
            Ok(SessionFsRequest::Readdir { path })
        } else if str_eq(method, "sessionFs.readdirWithTypes") {
            Ok(SessionFsRequest::ReaddirWithTypes { path })
        } else if str_eq(method, "sessionFs.rm") {
            Ok(
                SessionFsRequest::Rm {
                    path,
                    recursive: bool_param_exec(params, "recursive"),
                    force: bool_param_exec(params, "force"),
                },
            )
        } else if str_eq(method, "sessionFs.rename") {
            Ok(
                SessionFsRequest::Rename {
                    src: str_param_exec(params, "src"),
                    dest: str_param_exec(params, "dest"),
                },
            )
        } else {
            let mut m = string_of("Unknown sessionFs method: ");
            push_str(&mut m, method);
            Err(CopilotError::Protocol(m))
        }
    }
}

/// What a provider answered to a request.
#[derive(Debug)]
pub enum SessionFsOutcome {
    /// `readFile`.
    Content(Result<String, SessionFsError>),
    /// `writeFile`, `appendFile`, `mkdir`, `rm` and `rename`.
    Done(Result<(), SessionFsError>),
    /// `exists`.
    Exists(Result<bool, SessionFsError>),
    /// `stat`.
    Stat(Result<SessionFsFileInfo, SessionFsError>),
    /// `readdir`.
    Names(Result<Vec<String>, SessionFsError>),
    /// `readdirWithTypes`.
    Entries(Result<Vec<SessionFsProviderEntry>, SessionFsError>),
}

/// Whether an outcome answers a request of the given kind.
pub open spec fn outcome_answers(q: SessionFsRequest, o: SessionFsOutcome) -> bool {
    match q {
        SessionFsRequest::ReadFile { .. } => o is Content,
        SessionFsRequest::Exists { .. } => o is Exists,
        SessionFsRequest::Stat { .. } => o is Stat,
        SessionFsRequest::Readdir { .. } => o is Names,
        SessionFsRequest::ReaddirWithTypes { .. } => o is Entries,
        _ => o is Done,
    }
}

/// Whether `o` is what `provider` answered when the request `q` was performed on it: the
/// method matching the request, called with the request's own fields.
pub open spec fn provider_answered<P: SessionFsProvider + ?Sized>(
    provider: &P,
    q: SessionFsRequest,
    o: SessionFsOutcome,
) -> bool {
    match q {
        SessionFsRequest::ReadFile { path } => o matches SessionFsOutcome::Content(x)
            && provider.read_file_answer(path@, x),
        SessionFsRequest::WriteFile { path, content, mode } => o matches SessionFsOutcome::Done(x)
            && provider.write_file_answer(path@, content@, mode, x),
        SessionFsRequest::AppendFile { path, content, mode } => o matches SessionFsOutcome::Done(
            x,
        ) && provider.append_file_answer(path@, content@, mode, x),
        SessionFsRequest::Exists { path } => o matches SessionFsOutcome::Exists(x)
            && provider.path_exists_answer(path@, x),
        SessionFsRequest::Stat { path } => o matches SessionFsOutcome::Stat(x)
            && provider.stat_answer(path@, x),
        SessionFsRequest::Mkdir { path, recursive, mode } => o matches SessionFsOutcome::Done(x)
            && provider.mkdir_answer(path@, recursive, mode, x),
        SessionFsRequest::Readdir { path } => o matches SessionFsOutcome::Names(x)
            && provider.readdir_answer(path@, x),
        SessionFsRequest::ReaddirWithTypes { path } => o matches SessionFsOutcome::Entries(x)
            && provider.readdir_with_types_answer(path@, x),
        SessionFsRequest::Rm { path, recursive, force } => o matches SessionFsOutcome::Done(x)
            && provider.rm_answer(path@, recursive, force, x),
        SessionFsRequest::Rename { src, dest } => o matches SessionFsOutcome::Done(x)
            && provider.rename_answer(src@, dest@, x),
    }
}

impl SessionFsRequest {
    /// Performs the request on a provider: calls the method that matches it with its fields.
    pub fn run<P: SessionFsProvider + ?Sized>(&self, provider: &P) -> (r: SessionFsOutcome)
        ensures
            outcome_answers(*self, r),
            provider_answered(provider, *self, r),
    {
        match self {
            SessionFsRequest::ReadFile { path } => SessionFsOutcome::Content(
                provider.read_file(path.as_str()),
            ),
            SessionFsRequest::WriteFile { path, content, mode } => SessionFsOutcome::Done(
                provider.write_file(path.as_str(), content.as_str(), *mode),
            ),
            SessionFsRequest::AppendFile { path, content, mode } => SessionFsOutcome::Done(
                provider.append_file(path.as_str(), content.as_str(), *mode),
            ),
            SessionFsRequest::Exists { path } => SessionFsOutcome::Exists(
                provider.path_exists(path.as_str()),
            ),
            SessionFsRequest::Stat { path } => SessionFsOutcome::Stat(provider.stat(path.as_str())),
            SessionFsRequest::Mkdir { path, recursive, mode } => SessionFsOutcome::Done(
                provider.mkdir(path.as_str(), *recursive, *mode),
            ),
            SessionFsRequest::Readdir { path } => SessionFsOutcome::Names(
                provider.readdir(path.as_str()),
            ),
            SessionFsRequest::ReaddirWithTypes { path } => SessionFsOutcome::Entries(
                provider.readdir_with_types(path.as_str()),
            ),
            SessionFsRequest::Rm { path, recursive, force } => SessionFsOutcome::Done(
                provider.rm(path.as_str(), *recursive, *force),
            ),
            SessionFsRequest::Rename { src, dest } => SessionFsOutcome::Done(
                provider.rename(src.as_str(), dest.as_str()),
            ),
        }
    }
}

/// The reply that an outcome is sent back as. A failed `exists` reads as absent; the other
/// failures carry the error, beside empty values where the reply has a shape to keep.
pub open spec fn fs_reply_spec(o: SessionFsOutcome) -> JsonView {
    match o {
        SessionFsOutcome::Content(Ok(c)) => JsonView::Object(seq![("content"@, JsonView::Str(c@))]),
        SessionFsOutcome::Content(Err(e)) => JsonView::Object(
            seq![("content"@, JsonView::Str(Seq::empty())), ("error"@, fs_error_wire(e))],
        ),
        SessionFsOutcome::Done(Ok(())) => JsonView::Null,
        SessionFsOutcome::Done(Err(e)) => fs_error_wire(e),
        SessionFsOutcome::Exists(Ok(b)) => JsonView::Object(seq![("exists"@, JsonView::Bool(b))]),
        SessionFsOutcome::Exists(Err(_)) => JsonView::Object(
            seq![("exists"@, JsonView::Bool(false))],
        ),
        SessionFsOutcome::Stat(Ok(i)) => JsonView::Object(
            file_info_wire(i.is_file, i.is_directory, i.size, i.mtime@, i.birthtime@),
        ),
        SessionFsOutcome::Stat(Err(e)) => JsonView::Object(
            file_info_wire(false, false, 0, Seq::empty(), Seq::empty()).push(
                ("error"@, fs_error_wire(e)),
            ),
        ),
        SessionFsOutcome::Names(Ok(names)) => JsonView::Object(
            seq![("entries"@, crate::json::strings_view(names@))],
        ),
        SessionFsOutcome::Entries(Ok(es)) => JsonView::Object(
            seq![("entries"@, JsonView::Array(Seq::new(es@.len(), |i: int| entry_wire(es@[i]))))],
        ),
        SessionFsOutcome::Names(Err(e)) | SessionFsOutcome::Entries(Err(e)) => JsonView::Object(
            seq![("entries"@, JsonView::Array(Seq::empty())), ("error"@, fs_error_wire(e))],
        ),
    }
}

/// A two-member object.
fn object2(k1: &str, v1: Json, k2: &str, v2: Json) -> (r: Json)
    ensures
        r@ == JsonView::Object(seq![(k1@, v1@), (k2@, v2@)]),
{
    let ghost a = v1@;
    let ghost b = v2@;
    let mut es: Vec<(String, Json)> = Vec::new();
    assert(view_entries(es@) =~= Seq::empty());
    push_field(&mut es, k1, v1);
    push_field(&mut es, k2, v2);
    assert(view_entries(es@) =~= seq![(k1@, a), (k2@, b)]);
    Json::Object(es)
}

/// A one-member object.
fn object1(k: &str, v: Json) -> (r: Json)
    ensures
        r@ == JsonView::Object(seq![(k@, v@)]),
{
    let ghost a = v@;
    let mut es: Vec<(String, Json)> = Vec::new();
    assert(view_entries(es@) =~= Seq::empty());
    push_field(&mut es, k, v);
    assert(view_entries(es@) =~= seq![(k@, a)]);
    Json::Object(es)
}

/// The reply to send back for an outcome.
pub fn fs_reply(o: &SessionFsOutcome) -> (r: Json)
    ensures
        r@ == fs_reply_spec(*o),
{
    match o {
        SessionFsOutcome::Content(Ok(c)) => object1("content", Json::Str(c.clone())),
        SessionFsOutcome::Content(Err(e)) => object2(
            "content",
            Json::Str(String::new()),
            "error",
            fs_error_json(e),
        ),
        SessionFsOutcome::Done(Ok(())) => Json::Null,
        SessionFsOutcome::Done(Err(e)) => fs_error_json(e),
        SessionFsOutcome::Exists(Ok(b)) => object1("exists", Json::Bool(*b)),
        SessionFsOutcome::Exists(Err(_)) => object1("exists", Json::Bool(false)),
        SessionFsOutcome::Stat(Ok(i)) => Json::Object(file_info_entries(i)),
        SessionFsOutcome::Stat(Err(e)) => {
            let blank = SessionFsFileInfo {
                is_file: false,
                is_directory: false,
                size: 0,
                mtime: String::new(),
                birthtime: String::new(),
            };
            let mut es = file_info_entries(&blank);
            push_field(&mut es, "error", fs_error_json(e));
            Json::Object(es)
        },
        SessionFsOutcome::Names(Ok(names)) => object1("entries", crate::json::strings_json(names)),
        SessionFsOutcome::Entries(Ok(es)) => {
            let mut out: Vec<Json> = Vec::new();
            let mut i: usize = 0;
            while i < es.len()
                invariant
                    0 <= i <= es.len(),
                    out@.len() == i,
                    forall|j: int|
                        0 <= j < i ==> #[trigger] crate::json::json_view(out@[j]) == entry_wire(
                            es@[j],
                        ),
                decreases es.len() - i,
            {
                out.push(entry_json(&es[i]));
                i = i + 1;
            }
            proof {
                crate::json::lemma_view_array(out@);
                assert(crate::json::view_array(out@) =~= Seq::new(
                    es@.len(),
                    |i: int| entry_wire(es@[i]),
                ));
            }
            object1("entries", Json::Array(out))
        },
        SessionFsOutcome::Names(Err(e)) | SessionFsOutcome::Entries(Err(e)) => {
            let empty = Json::Array(Vec::new());
            assert(empty@ =~= JsonView::Array(Seq::empty()));
            object2("entries", empty, "error", fs_error_json(e))
        },
    }
}

/// Answers an inbound `sessionFs.*` request: fails when no provider is registered for the
/// session or the method is unknown, else runs it on the provider and replies with what it
/// answered.
pub fn handle_session_fs_request<P: SessionFsProvider + ?Sized>(
    provider: Option<&P>,
    session_id: &str,
    method: &str,
    params: &Json,
) -> (r: Result<Json, CopilotError>)
    ensures
        provider is None ==> (r matches Err(CopilotError::Protocol(m)) && m@
            == "No session_fs handler registered for session: "@ + session_id@),
        provider matches Some(pv) ==> match r {
            Ok(v) => is_fs_method(method@) && exists|q: SessionFsRequest, o: SessionFsOutcome|
                fs_request_spec(method@, params@, q) && provider_answered(pv, q, o) && v@
                    == fs_reply_spec(o),
            Err(e) => !is_fs_method(method@) && (e matches CopilotError::Protocol(m) && m@
                == "Unknown sessionFs method: "@ + method@),
        },
{
    let p = match provider {
        Some(p) => p,
        None => {
            let mut m = string_of("No session_fs handler registered for session: ");
            push_str(&mut m, session_id);
            return Err(CopilotError::Protocol(m));
        },
    };
    let request = SessionFsRequest::parse(method, params)?;
    let outcome = request.run(p);
    let reply = fs_reply(&outcome);
    proof {
        assert(fs_request_spec(method@, params@, request));
        assert(provider_answered(p, request, outcome));
        assert(is_fs_method(method@));
    }
    Ok(reply)
}

/// A factory that makes the filesystem provider of each session from its id; it is run
/// once a session has been created or resumed.
pub struct CreateSessionFsHandler<F> {
    factory: F,
}

impl<F> CreateSessionFsHandler<F> {
    /// The factory held.
    pub closed spec fn factory_spec(&self) -> F {
        self.factory
    }

    /// Wraps a factory.
    pub fn new(factory: F) -> (r: CreateSessionFsHandler<F>)
        ensures
            r.factory_spec() == factory,
    {
        CreateSessionFsHandler { factory }
    }

    /// Runs the factory for the session `session_id`.
    pub fn call<P>(&self, session_id: &str) -> (r: P) where F: Fn(&str) -> P
        requires
            call_requires(self.factory_spec(), (session_id,)),
        ensures
            call_ensures(self.factory_spec(), (session_id,), r),
    {
        (self.factory)(session_id)
    }
}

// =============================================================================
// Outbound requests
// =============================================================================

/// A request this client makes of the session filesystem the CLI manages.
#[derive(Debug)]
pub enum SessionFsCall {
    ReadFile { path: String },
    WriteFile { path: String, content: String, mode: Option<u32> },
    AppendFile { path: String, content: String, mode: Option<u32> },
    Exists { path: String },
    Stat { path: String },
    Mkdir { path: String, mode: Option<u32>, recursive: Option<bool> },
    Readdir { path: String },
    ReaddirWithTypes { path: String },
    Rm { path: String, force: Option<bool>, recursive: Option<bool> },
    Rename { src: String, dest: String },
}

/// An optional mode's JSON view.
pub open spec fn mode_view(m: Option<u32>) -> Option<JsonView> {
    match m {
        Some(x) => Some(JsonView::Number(NumberView::PosInt(x as u64))),
        None => None,
    }
}

/// An optional flag's JSON view.
pub open spec fn flag_view(b: Option<bool>) -> Option<JsonView> {
    match b {
        Some(x) => Some(JsonView::Bool(x)),
        None => None,
    }
}

/// The method and parameters of an outbound filesystem request for session `sid`.
pub open spec fn fs_call_spec(sid: Seq<char>, c: SessionFsCall) -> (Seq<char>, JsonView) {
    let base = |path: Seq<char>| seq![("sessionId"@, JsonView::Str(sid)), ("path"@, JsonView::Str(path))];
    match c {
        SessionFsCall::ReadFile { path } => ("session.fs.readFile"@, JsonView::Object(base(path@))),
        SessionFsCall::WriteFile { path, content, mode } => (
            "session.fs.writeFile"@,
            JsonView::Object(
                crate::json::push_opt(
                    base(path@).push(("content"@, JsonView::Str(content@))),
                    "mode"@,
                    mode_view(mode),
                ),
            ),
        ),
        SessionFsCall::AppendFile { path, content, mode } => (
            "session.fs.appendFile"@,
            JsonView::Object(
                crate::json::push_opt(
                    base(path@).push(("content"@, JsonView::Str(content@))),
                    "mode"@,
                    mode_view(mode),
                ),
            ),
        ),
        SessionFsCall::Exists { path } => ("session.fs.exists"@, JsonView::Object(base(path@))),
        SessionFsCall::Stat { path } => ("session.fs.stat"@, JsonView::Object(base(path@))),
        SessionFsCall::Mkdir { path, mode, recursive } => (
            "session.fs.mkdir"@,
            JsonView::Object(
                crate::json::push_opt(
                    crate::json::push_opt(base(path@), "mode"@, mode_view(mode)),
                    "recursive"@,
                    flag_view(recursive),
                ),
            ),
        ),
        SessionFsCall::Readdir { path } => ("session.fs.readdir"@, JsonView::Object(base(path@))),
        SessionFsCall::ReaddirWithTypes { path } => (
            "session.fs.readdirWithTypes"@,
            JsonView::Object(base(path@)),
        ),
        SessionFsCall::Rm { path, force, recursive } => (
            "session.fs.rm"@,
            JsonView::Object(
                crate::json::push_opt(
                    crate::json::push_opt(base(path@), "force"@, flag_view(force)),
                    "recursive"@,
                    flag_view(recursive),
                ),
            ),
        ),
        SessionFsCall::Rename { src, dest } => (
            "session.fs.rename"@,
            JsonView::Object(
                seq![
                    ("sessionId"@, JsonView::Str(sid)),
                    ("src"@, JsonView::Str(src@)),
                    ("dest"@, JsonView::Str(dest@)),
                ],
            ),
        ),
    }
}

fn mode_json(m: Option<u32>) -> (r: Option<Json>)
    ensures
        crate::json::opt_view(r) == mode_view(m),
{
    match m {
        Some(x) => Some(Json::Number(JsonNumber::PosInt(x as u64))),
        None => None,
    }
}

fn flag_json(b: Option<bool>) -> (r: Option<Json>)
    ensures
        crate::json::opt_view(r) == flag_view(b),
{
    match b {
        Some(x) => Some(Json::Bool(x)),
        None => None,
    }
}

/// `{sessionId, path}`.
fn path_entries(session_id: &str, path: &str) -> (r: Vec<(String, Json)>)
    ensures
        view_entries(r@) == seq![("sessionId"@, JsonView::Str(session_id@)), ("path"@, JsonView::Str(path@))],
{
    let mut es: Vec<(String, Json)> = Vec::new();
    assert(view_entries(es@) =~= Seq::empty());
    push_field(&mut es, "sessionId", Json::string(session_id));
    push_field(&mut es, "path", Json::string(path));
    assert(view_entries(es@) =~= seq![
        ("sessionId"@, JsonView::Str(session_id@)),
        ("path"@, JsonView::Str(path@)),
    ]);
    es
}

impl SessionFsCall {
    /// The method and parameters of this request for session `session_id`; optional
    /// arguments that are not given are left out.
    pub fn request(&self, session_id: &str) -> (r: (&'static str, Json))
        ensures
            (r.0@, r.1@) == fs_call_spec(session_id@, *self),
    {
        match self {
            SessionFsCall::ReadFile { path } => (
                "session.fs.readFile",
                Json::Object(path_entries(session_id, path.as_str())),
            ),
            SessionFsCall::WriteFile { path, content, mode } => {
                let mut es = path_entries(session_id, path.as_str());
                push_field(&mut es, "content", Json::Str(content.clone()));
                crate::json::push_opt_field(&mut es, "mode", mode_json(*mode));
                ("session.fs.writeFile", Json::Object(es))
            },
            SessionFsCall::AppendFile { path, content, mode } => {
                let mut es = path_entries(session_id, path.as_str());
                push_field(&mut es, "content", Json::Str(content.clone()));
                crate::json::push_opt_field(&mut es, "mode", mode_json(*mode));
                ("session.fs.appendFile", Json::Object(es))
            },
            SessionFsCall::Exists { path } => (
                "session.fs.exists",
                Json::Object(path_entries(session_id, path.as_str())),
            ),
            SessionFsCall::Stat { path } => (
                "session.fs.stat",
                Json::Object(path_entries(session_id, path.as_str())),
            ),
            SessionFsCall::Mkdir { path, mode, recursive } => {
                let mut es = path_entries(session_id, path.as_str());
                crate::json::push_opt_field(&mut es, "mode", mode_json(*mode));
                crate::json::push_opt_field(&mut es, "recursive", flag_json(*recursive));
                ("session.fs.mkdir", Json::Object(es))
            },
            SessionFsCall::Readdir { path } => (
                "session.fs.readdir",
                Json::Object(path_entries(session_id, path.as_str())),
            ),
            SessionFsCall::ReaddirWithTypes { path } => (
                "session.fs.readdirWithTypes",
                Json::Object(path_entries(session_id, path.as_str())),
            ),
            SessionFsCall::Rm { path, force, recursive } => {
                let mut es = path_entries(session_id, path.as_str());
                crate::json::push_opt_field(&mut es, "force", flag_json(*force));
                crate::json::push_opt_field(&mut es, "recursive", flag_json(*recursive));
                ("session.fs.rm", Json::Object(es))
            },
            SessionFsCall::Rename { src, dest } => {
                let mut es: Vec<(String, Json)> = Vec::new();
                assert(view_entries(es@) =~= Seq::empty());
                push_field(&mut es, "sessionId", Json::string(session_id));
                push_field(&mut es, "src", Json::Str(src.clone()));
                push_field(&mut es, "dest", Json::Str(dest.clone()));
                assert(view_entries(es@) =~= seq![
                    ("sessionId"@, JsonView::Str(session_id@)),
                    ("src"@, JsonView::Str(src@)),
                    ("dest"@, JsonView::Str(dest@)),
                ]);
                ("session.fs.rename", Json::Object(es))
            },
        }
    }
}

/// The protocol error for a reply to `what` that lacks a member of the expected kind.
fn invalid_reply(what: &str, field: &str) -> (r: CopilotError)
    ensures
        r matches CopilotError::Protocol(m) && m@ == "Invalid "@ + what@ + " response: missing field `"@
            + field@ + "`"@,
{
    let mut m = string_of("Invalid ");
    push_str(&mut m, what);
    push_str(&mut m, " response: missing field `");
    push_str(&mut m, field);
    push_str(&mut m, "`");
    CopilotError::Protocol(m)
}

/// The content a `session.fs.readFile` reply carries.
pub fn read_file_content(result: &Json) -> (r: Result<String, CopilotError>)
    ensures
        match result@.get_str("content"@) {
            Some(c) => r matches Ok(x) && x@ == c,
            None => r matches Err(CopilotError::Protocol(m)) && m@
                == "Invalid readFile response: missing field `content`"@,
        },
{
    proof {
        reveal_strlit("Invalid ");
        reveal_strlit("readFile");
        reveal_strlit(" response: missing field `");
        reveal_strlit("content");
        reveal_strlit("`");
        reveal_strlit("Invalid readFile response: missing field `content`");
    }
    match result.get_str("content") {
        Some(c) => Ok(string_of(c)),
        None => {
            let e = invalid_reply("readFile", "content");
            assert("Invalid "@ + "readFile"@ + " response: missing field `"@ + "content"@ + "`"@
                =~= "Invalid readFile response: missing field `content`"@);
            Err(e)
        },
    }
}

/// Whether the path a `session.fs.exists` reply answers for exists.
pub fn exists_reply(result: &Json) -> (r: Result<bool, CopilotError>)
    ensures
        match result@.get_bool("exists"@) {
            Some(b) => r == Ok::<bool, CopilotError>(b),
            None => r matches Err(CopilotError::Protocol(m)) && m@
                == "Invalid exists response: missing field `exists`"@,
        },
{
    proof {
        reveal_strlit("Invalid ");
        reveal_strlit("exists");
        reveal_strlit(" response: missing field `");
        reveal_strlit("`");
        reveal_strlit("Invalid exists response: missing field `exists`");
    }
    match result.get_bool("exists") {
        Some(b) => Ok(b),
        None => {
            let e = invalid_reply("exists", "exists");
            assert("Invalid "@ + "exists"@ + " response: missing field `"@ + "exists"@ + "`"@
                =~= "Invalid exists response: missing field `exists`"@);
            Err(e)
        },
    }
}

proof fn lemma_readdir_message()
    ensures
        "Invalid "@ + "readdir"@ + " response: missing field `"@ + "entries"@ + "`"@
            == "Invalid readdir response: missing field `entries`"@,
{
    reveal_strlit("Invalid ");
    reveal_strlit("readdir");
    reveal_strlit(" response: missing field `");
    reveal_strlit("entries");
    reveal_strlit("`");
    reveal_strlit("Invalid readdir response: missing field `entries`");
    assert("Invalid "@ + "readdir"@ + " response: missing field `"@ + "entries"@ + "`"@
        =~= "Invalid readdir response: missing field `entries`"@);
}

/// The names a `session.fs.readdir` reply lists: its `entries`, which must all be strings.
pub fn readdir_names(result: &Json) -> (r: Result<Vec<String>, CopilotError>)
    ensures
        match r {
            Ok(names) => result@.get("entries"@) == Some(crate::json::strings_view(names@)),
            Err(e) => !(exists|names: Seq<String>| result@.get("entries"@) == Some(
                crate::json::strings_view(names),
            )) && (e matches CopilotError::Protocol(m) && m@
                == "Invalid readdir response: missing field `entries`"@),
        },
{
    let entries = result.get("entries");
    match entries {
        Some(Json::Array(a)) => {
            proof {
                crate::json::lemma_view_array(a@);
            }
            let ghost va = crate::json::view_array(a@);
            let mut out: Vec<String> = Vec::new();
            let mut i: usize = 0;
            while i < a.len()
                invariant
                    0 <= i <= a.len(),
                    va == crate::json::view_array(a@),
                    va.len() == a@.len(),
                    forall|j: int| 0 <= j < a@.len() ==> #[trigger] va[j] == crate::json::json_view(a@[j]),
                    out@.len() == i,
                    forall|j: int| 0 <= j < i ==> va[j] == JsonView::Str(#[trigger] out@[j]@),
                    result@.get("entries"@) == Some(JsonView::Array(va)),
                decreases a.len() - i,
            {
                match &a[i] {
                    Json::Str(x) => out.push(x.clone()),
                    _ => {
                        proof {
                            assert forall|names: Seq<String>| result@.get("entries"@) != Some(
                                crate::json::strings_view(names),
                            ) by {
                                if result@.get("entries"@) == Some(crate::json::strings_view(names)) {
                                    assert(crate::json::strings_view(names)->Array_0[i as int] == va[i as int]);
                                }
                            }
                        }
                        proof {
                            lemma_readdir_message();
                        }
                        return Err(invalid_reply("readdir", "entries"));
                    },
                }
                i = i + 1;
            }
            assert(crate::json::strings_view(out@)->Array_0 =~= va);
            Ok(out)
        },
        _ => {
            proof {
                assert forall|names: Seq<String>| result@.get("entries"@) != Some(
                    crate::json::strings_view(names),
                ) by {}
                lemma_readdir_message();
            }
            Err(invalid_reply("readdir", "entries"))
        },
    }
}

} // verus!
