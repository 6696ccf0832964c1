use copilot_sdk::error::CopilotError;
use copilot_sdk::json::Json;
use copilot_sdk::session_fs::{
    exists_reply, handle_session_fs_request, read_file_content, readdir_names, SessionFsCall,
    SessionFsError, SessionFsErrorCode, SessionFsFileInfo, SessionFsProvider,
    SessionFsProviderEntry,
};
use std::cell::RefCell;

struct Memory {
    files: RefCell<Vec<(String, String)>>,
}

impl Memory {
    fn new() -> Self {
        Memory { files: RefCell::new(vec![("/a.txt".to_string(), "hello".to_string())]) }
    }
}

impl SessionFsProvider for Memory {
    fn read_file(&self, path: &str) -> Result<String, SessionFsError> {
        self.files
            .borrow()
            .iter()
            .find(|(p, _)| p == path)
            .map(|(_, c)| c.clone())
            .ok_or_else(|| SessionFsError::enoent(path))
    }
    fn write_file(&self, path: &str, content: &str, _mode: Option<u32>) -> Result<(), SessionFsError> {
        self.files.borrow_mut().push((path.to_string(), content.to_string()));
        Ok(())
    }
    fn append_file(&self, _path: &str, _content: &str, _mode: Option<u32>) -> Result<(), SessionFsError> {
        Err(SessionFsError::unknown("read-only"))
    }
    fn path_exists(&self, path: &str) -> Result<bool, SessionFsError> {
        Ok(self.files.borrow().iter().any(|(p, _)| p == path))
    }
    fn stat(&self, path: &str) -> Result<SessionFsFileInfo, SessionFsError> {
        if path == "/a.txt" {
            Ok(SessionFsFileInfo {
                is_file: true,
                is_directory: false,
                size: 5,
                mtime: "2024-01-01T00:00:00Z".into(),
                birthtime: "2024-01-01T00:00:00Z".into(),
            })
        } else {
            Err(SessionFsError::enoent(path))
        }
    }
    fn mkdir(&self, _path: &str, _recursive: bool, _mode: Option<u32>) -> Result<(), SessionFsError> {
        Ok(())
    }
    fn readdir(&self, _path: &str) -> Result<Vec<String>, SessionFsError> {
        Ok(self.files.borrow().iter().map(|(p, _)| p.clone()).collect())
    }
    fn readdir_with_types(&self, _path: &str) -> Result<Vec<SessionFsProviderEntry>, SessionFsError> {
        Ok(vec![SessionFsProviderEntry { name: "a.txt".into(), is_file: true, is_directory: false }])
    }
    fn rm(&self, _path: &str, _recursive: bool, _force: bool) -> Result<(), SessionFsError> {
        Err(SessionFsError::enoent("gone"))
    }
    fn rename(&self, _src: &str, _dest: &str) -> Result<(), SessionFsError> {
        Ok(())
    }
}

fn s(x: &str) -> Json {
    Json::Str(x.to_string())
}

fn obj(members: Vec<(&str, Json)>) -> Json {
    Json::Object(members.into_iter().map(|(k, v)| (k.to_string(), v)).collect())
}

#[test]
fn error_constructors() {
    let e = SessionFsError::enoent("missing");
    assert_eq!(e.code, SessionFsErrorCode::NoEnt);
    assert_eq!(e.message, "missing");
    assert_eq!(SessionFsError::unknown("x").code, SessionFsErrorCode::Unknown);
    assert_eq!(e.describe(), "NoEnt: missing");
    let io = std::io::Error::new(std::io::ErrorKind::NotFound, "nf");
    assert_eq!(SessionFsError::from_io_error(&io).code, SessionFsErrorCode::NoEnt);
    let io = std::io::Error::new(std::io::ErrorKind::Other, "boom");
    assert_eq!(SessionFsError::from_io_error(&io).code, SessionFsErrorCode::Unknown);
}

#[test]
fn dispatch_without_provider_fails() {
    match handle_session_fs_request::<Memory>(None, "s1", "sessionFs.readFile", &obj(vec![])) {
        Err(CopilotError::Protocol(m)) => {
            assert_eq!(m, "No session_fs handler registered for session: s1")
        }
        other => panic!("unexpected {:?}", other),
    }
}

#[test]
fn dispatch_reads_and_errors() {
    let p = Memory::new();
    let r = handle_session_fs_request(Some(&p), "s1", "sessionFs.readFile", &obj(vec![("path", s("/a.txt"))]))
        .unwrap();
    assert_eq!(r.get_str("content"), Some("hello"));
    let r = handle_session_fs_request(Some(&p), "s1", "sessionFs.readFile", &obj(vec![("path", s("/b"))]))
        .unwrap();
    assert_eq!(r.get_str("content"), Some(""));
    assert_eq!(r.get("error").unwrap().get_str("code"), Some("ENOENT"));
    let r = handle_session_fs_request(
        Some(&p),
        "s1",
        "sessionFs.writeFile",
        &obj(vec![("path", s("/c")), ("content", s("x"))]),
    )
    .unwrap();
    assert!(r.is_null());
    let r = handle_session_fs_request(Some(&p), "s1", "sessionFs.exists", &obj(vec![("path", s("/c"))]))
        .unwrap();
    assert_eq!(r.get_bool("exists"), Some(true));
    let r = handle_session_fs_request(Some(&p), "s1", "sessionFs.appendFile", &obj(vec![])).unwrap();
    assert_eq!(r.get_str("code"), Some("UNKNOWN"));
    assert_eq!(r.get_str("message"), Some("read-only"));
    let r = handle_session_fs_request(Some(&p), "s1", "sessionFs.stat", &obj(vec![("path", s("/a.txt"))]))
        .unwrap();
    assert_eq!(r.get_u64("size"), Some(5));
    assert_eq!(r.get_bool("isFile"), Some(true));
    let r = handle_session_fs_request(Some(&p), "s1", "sessionFs.stat", &obj(vec![("path", s("/z"))]))
        .unwrap();
    assert_eq!(r.get_u64("size"), Some(0));
    assert_eq!(r.get_str("mtime"), Some(""));
    assert!(r.get("error").is_some());
    let r = handle_session_fs_request(Some(&p), "s1", "sessionFs.readdir", &obj(vec![])).unwrap();
    assert!(matches!(r.get("entries"), Some(Json::Array(v)) if v.len() == 2));
    let r = handle_session_fs_request(Some(&p), "s1", "sessionFs.readdirWithTypes", &obj(vec![])).unwrap();
    let first = match r.get("entries") {
        Some(Json::Array(v)) => v[0].get_str("name").map(|x| x.to_string()),
        _ => None,
    };
    assert_eq!(first, Some("a.txt".to_string()));
    let r = handle_session_fs_request(Some(&p), "s1", "sessionFs.rm", &obj(vec![])).unwrap();
    assert_eq!(r.get_str("code"), Some("ENOENT"));
    match handle_session_fs_request(Some(&p), "s1", "sessionFs.chmod", &obj(vec![])) {
        Err(CopilotError::Protocol(m)) => assert_eq!(m, "Unknown sessionFs method: sessionFs.chmod"),
        other => panic!("unexpected {:?}", other),
    }
}

#[test]
fn outbound_requests() {
    let (m, p) = SessionFsCall::WriteFile { path: "/a".into(), content: "x".into(), mode: Some(420) }
        .request("s1");
    assert_eq!(m, "session.fs.writeFile");
    assert_eq!(p.get_str("sessionId"), Some("s1"));
    assert_eq!(p.get_str("path"), Some("/a"));
    assert_eq!(p.get_str("content"), Some("x"));
    assert_eq!(p.get_u64("mode"), Some(420));
    let (m, p) = SessionFsCall::Rm { path: "/a".into(), force: None, recursive: Some(true) }.request("s1");
    assert_eq!(m, "session.fs.rm");
    assert!(p.get("force").is_none());
    assert_eq!(p.get_bool("recursive"), Some(true));
    let (m, p) = SessionFsCall::Rename { src: "/a".into(), dest: "/b".into() }.request("s1");
    assert_eq!(m, "session.fs.rename");
    assert_eq!(p.get_str("dest"), Some("/b"));
    assert!(p.get("path").is_none());
}

#[test]
fn outbound_replies() {
    assert_eq!(read_file_content(&obj(vec![("content", s("hi"))])).unwrap(), "hi");
    match read_file_content(&obj(vec![])) {
        Err(CopilotError::Protocol(m)) => {
            assert_eq!(m, "Invalid readFile response: missing field `content`")
        }
        other => panic!("unexpected {:?}", other),
    }
    assert_eq!(exists_reply(&obj(vec![("exists", Json::Bool(false))])).unwrap(), false);
    assert!(exists_reply(&obj(vec![("exists", s("no"))])).is_err());
    let names = readdir_names(&obj(vec![("entries", Json::Array(vec![s("a"), s("b")]))])).unwrap();
    assert_eq!(names, vec!["a".to_string(), "b".to_string()]);
    assert!(readdir_names(&obj(vec![("entries", Json::Array(vec![Json::Bool(true)]))])).is_err());
}

struct Recorder {
    calls: RefCell<Vec<String>>,
}

impl SessionFsProvider for Recorder {
    fn read_file(&self, path: &str) -> Result<String, SessionFsError> {
        self.calls.borrow_mut().push(format!("read {path}"));
        Ok(String::new())
    }
    fn write_file(&self, path: &str, content: &str, mode: Option<u32>) -> Result<(), SessionFsError> {
        self.calls.borrow_mut().push(format!("write {path} {content} {mode:?}"));
        Ok(())
    }
    fn append_file(&self, path: &str, content: &str, mode: Option<u32>) -> Result<(), SessionFsError> {
        self.calls.borrow_mut().push(format!("append {path} {content} {mode:?}"));
        Ok(())
    }
    fn path_exists(&self, path: &str) -> Result<bool, SessionFsError> {
        self.calls.borrow_mut().push(format!("exists {path}"));
        Ok(true)
    }
    fn stat(&self, path: &str) -> Result<SessionFsFileInfo, SessionFsError> {
        self.calls.borrow_mut().push(format!("stat {path}"));
        Err(SessionFsError::enoent(path))
    }
    fn mkdir(&self, path: &str, recursive: bool, mode: Option<u32>) -> Result<(), SessionFsError> {
        self.calls.borrow_mut().push(format!("mkdir {path} {recursive} {mode:?}"));
        Ok(())
    }
    fn readdir(&self, path: &str) -> Result<Vec<String>, SessionFsError> {
        self.calls.borrow_mut().push(format!("readdir {path}"));
        Ok(vec![])
    }
    fn readdir_with_types(&self, path: &str) -> Result<Vec<SessionFsProviderEntry>, SessionFsError> {
        self.calls.borrow_mut().push(format!("readdirWithTypes {path}"));
        Ok(vec![])
    }
    fn rm(&self, path: &str, recursive: bool, force: bool) -> Result<(), SessionFsError> {
        self.calls.borrow_mut().push(format!("rm {path} {recursive} {force}"));
        Ok(())
    }
    fn rename(&self, src: &str, dest: &str) -> Result<(), SessionFsError> {
        self.calls.borrow_mut().push(format!("rename {src} {dest}"));
        Ok(())
    }
}

#[test]
fn requests_reach_the_provider_with_their_own_arguments() {
    let p = Recorder { calls: RefCell::new(vec![]) };
    let n = |v: u64| Json::Number(copilot_sdk::json::JsonNumber::PosInt(v));
    let cases = vec![
        ("sessionFs.rename", obj(vec![("src", s("/a")), ("dest", s("/b"))]), "rename /a /b"),
        (
            "sessionFs.writeFile",
            obj(vec![("path", s("/f")), ("content", s("data")), ("mode", n(420))]),
            "write /f data Some(420)",
        ),
        ("sessionFs.appendFile", obj(vec![("path", s("/g")), ("content", s("more"))]), "append /g more None"),
        ("sessionFs.mkdir", obj(vec![("path", s("/d")), ("recursive", Json::Bool(true))]), "mkdir /d true None"),
        (
            "sessionFs.rm",
            obj(vec![("path", s("/r")), ("force", Json::Bool(true))]),
            "rm /r false true",
        ),
        ("sessionFs.readFile", obj(vec![("path", s("/x"))]), "read /x"),
        ("sessionFs.exists", obj(vec![("path", s("/y"))]), "exists /y"),
        ("sessionFs.stat", obj(vec![("path", s("/z"))]), "stat /z"),
        ("sessionFs.readdir", obj(vec![("path", s("/"))]), "readdir /"),
        ("sessionFs.readdirWithTypes", obj(vec![("path", s("/w"))]), "readdirWithTypes /w"),
    ];
    for (method, params, expected) in cases {
        handle_session_fs_request(Some(&p), "s1", method, &params).unwrap();
        assert_eq!(p.calls.borrow().last().unwrap(), expected);
    }
}
