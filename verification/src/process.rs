//! Options for the CLI subprocess, what a spawn with them pipes and keeps, and locating the
//! Node.js and Copilot CLI executables.

use crate::client::ascii_lower;
use crate::json::opt_string_view;
use crate::registry::{assoc_set, Registry};
use crate::text::{string_of, to_chars, from_chars, trim, trim_chars};
use vstd::prelude::*;

verus! {

/// Options for spawning a subprocess.
#[derive(Debug)]
pub struct ProcessOptions {
    /// Working directory for the subprocess (`None` inherits the parent's).
    pub working_directory: Option<String>,
    /// Environment variables to set.
    pub environment: Registry<String>,
    /// Whether to inherit the parent's environment variables.
    pub inherit_environment: bool,
    /// Whether to pipe stdin to the subprocess.
    pub redirect_stdin: bool,
    /// Whether to pipe stdout from the subprocess.
    pub redirect_stdout: bool,
    /// Whether to pipe stderr from the subprocess.
    pub redirect_stderr: bool,
}

/// The mathematical view of [`ProcessOptions`].
pub struct ProcessOptionsView {
    pub working_directory: Option<Seq<char>>,
    pub environment: Seq<(Seq<char>, Seq<char>)>,
    pub inherit_environment: bool,
    pub redirect_stdin: bool,
    pub redirect_stdout: bool,
    pub redirect_stderr: bool,
}

/// The view of a registry of strings.
pub open spec fn env_view(r: Registry<String>) -> Seq<(Seq<char>, Seq<char>)> {
    Seq::new(r.view().len(), |i: int| (r.view()[i].0, r.view()[i].1@))
}

impl View for ProcessOptions {
    type V = ProcessOptionsView;

    open spec fn view(&self) -> ProcessOptionsView {
        ProcessOptionsView {
            working_directory: match self.working_directory {
                Some(d) => Some(d@),
                None => None,
            },
            environment: env_view(self.environment),
            inherit_environment: self.inherit_environment,
            redirect_stdin: self.redirect_stdin,
            redirect_stdout: self.redirect_stdout,
            redirect_stderr: self.redirect_stderr,
        }
    }
}

/// Viewing the values of an association list commutes with setting a key.
pub proof fn lemma_env_view_assoc_set(es: Seq<(Seq<char>, String)>, k: Seq<char>, v: String)
    ensures
        Seq::new(assoc_set(es, k, v).len(), |i: int| (assoc_set(es, k, v)[i].0, assoc_set(es, k, v)[i].1@))
            == assoc_set(Seq::new(es.len(), |i: int| (es[i].0, es[i].1@)), k, v@),
    decreases es.len(),
{
    let f = |e: Seq<(Seq<char>, String)>| Seq::new(e.len(), |i: int| (e[i].0, e[i].1@));
    if es.len() == 0 {
        assert(f(assoc_set(es, k, v)) =~= seq![(k, v@)]);
    } else if es[0].0 == k {
        assert(f(assoc_set(es, k, v)) =~= f(es).update(0, (k, v@)));
    } else {
        lemma_env_view_assoc_set(es.drop_first(), k, v);
        assert(f(es).drop_first() =~= f(es.drop_first()));
        assert(f(assoc_set(es, k, v)) =~= seq![f(es)[0]] + f(assoc_set(es.drop_first(), k, v)));
    }
}

impl ProcessOptions {
    /// Options with default values: inherit the environment, pipe stdin and stdout, not
    /// stderr.
    pub fn new() -> (r: ProcessOptions)
        ensures
            r@ == (ProcessOptionsView {
                working_directory: None,
                environment: Seq::empty(),
                inherit_environment: true,
                redirect_stdin: true,
                redirect_stdout: true,
                redirect_stderr: false,
            }),
    {
        let r = ProcessOptions {
            working_directory: None,
            environment: Registry::new(),
            inherit_environment: true,
            redirect_stdin: true,
            redirect_stdout: true,
            redirect_stderr: false,
        };
        assert(env_view(r.environment) =~= Seq::empty());
        r
    }

    /// Sets the working directory.
    pub fn working_dir(self, dir: &str) -> (r: ProcessOptions)
        ensures
            r@ == (ProcessOptionsView { working_directory: Some(dir@), ..self@ }),
    {
        ProcessOptions { working_directory: Some(string_of(dir)), ..self }
    }

    /// Sets an environment variable, replacing an earlier value of the same name.
    pub fn env(self, key: &str, value: &str) -> (r: ProcessOptions)
        ensures
            r@ == (ProcessOptionsView {
                environment: assoc_set(self@.environment, key@, value@),
                ..self@
            }),
    {
        let mut s = self;
        let ghost before = s.environment;
        let k = string_of(key);
        let v = string_of(value);
        s.environment.insert(k, v);
        proof {
            lemma_env_view_assoc_set(before.view(), key@, v);
        }
        s
    }

    /// Sets whether to inherit the parent's environment.
    pub fn inherit_env(self, inherit: bool) -> (r: ProcessOptions)
        ensures
            r@ == (ProcessOptionsView { inherit_environment: inherit, ..self@ }),
    {
        ProcessOptions { inherit_environment: inherit, ..self }
    }

    /// Sets stdin redirection.
    pub fn stdin(self, redirect: bool) -> (r: ProcessOptions)
        ensures
            r@ == (ProcessOptionsView { redirect_stdin: redirect, ..self@ }),
    {
        ProcessOptions { redirect_stdin: redirect, ..self }
    }

    /// Sets stdout redirection.
    pub fn stdout(self, redirect: bool) -> (r: ProcessOptions)
        ensures
            r@ == (ProcessOptionsView { redirect_stdout: redirect, ..self@ }),
    {
        ProcessOptions { redirect_stdout: redirect, ..self }
    }

    /// Sets stderr redirection.
    pub fn stderr(self, redirect: bool) -> (r: ProcessOptions)
        ensures
            r@ == (ProcessOptionsView { redirect_stderr: redirect, ..self@ }),
    {
        ProcessOptions { redirect_stderr: redirect, ..self }
    }

    /// What a spawn with these options pipes and keeps.
    pub fn spawn_plan(&self) -> (r: SpawnPlan)
        ensures
            r == spawn_plan_spec(self@),
    {
        let transport = self.redirect_stdin && self.redirect_stdout;
        SpawnPlan {
            clear_environment: !self.inherit_environment,
            pipe_stdin: self.redirect_stdin,
            pipe_stdout: self.redirect_stdout,
            pipe_stderr: self.redirect_stderr,
            stdio_transport: transport,
            keep_stdout: !transport && self.redirect_stdout,
            keep_stderr: self.redirect_stderr,
        }
    }
}

impl Default for ProcessOptions {
    fn default() -> (r: ProcessOptions)
        ensures
            r@ == (ProcessOptionsView {
                working_directory: None,
                environment: Seq::empty(),
                inherit_environment: true,
                redirect_stdin: true,
                redirect_stdout: true,
                redirect_stderr: false,
            }),
    {
        ProcessOptions::new()
    }
}

/// What a spawn does with the child's standard streams and environment. A stream that is not
/// piped is connected to the null device.
#[derive(Debug, Clone, Copy, PartialEq, Eq, Structural)]
pub struct SpawnPlan {
    /// Start from an empty environment before setting the options' variables.
    pub clear_environment: bool,
    pub pipe_stdin: bool,
    pub pipe_stdout: bool,
    pub pipe_stderr: bool,
    /// stdin and stdout together become the JSON-RPC transport.
    pub stdio_transport: bool,
    /// stdout is kept for reading on its own (port detection).
    pub keep_stdout: bool,
    /// stderr is kept for reading.
    pub keep_stderr: bool,
}

pub open spec fn spawn_plan_spec(o: ProcessOptionsView) -> SpawnPlan {
    SpawnPlan {
        clear_environment: !o.inherit_environment,
        pipe_stdin: o.redirect_stdin,
        pipe_stdout: o.redirect_stdout,
        pipe_stderr: o.redirect_stderr,
        stdio_transport: o.redirect_stdin && o.redirect_stdout,
        keep_stdout: o.redirect_stdout && !(o.redirect_stdin && o.redirect_stdout),
        keep_stderr: o.redirect_stderr,
    }
}

// =============================================================================
// File names and executables
// =============================================================================

/// `s` without trailing separators and trailing `/.` components.
pub open spec fn strip_trailing(s: Seq<char>) -> Seq<char>
    decreases s.len(),
{
    if s.len() > 0 && s.last() == '/' {
        strip_trailing(s.drop_last())
    } else if s.len() >= 2 && s.last() == '.' && s[s.len() - 2] == '/' {
        strip_trailing(s.drop_last().drop_last())
    } else {
        s
    }
}

/// The characters after the last `/`.
pub open spec fn after_last_slash(s: Seq<char>) -> Seq<char>
    decreases s.len(),
{
    if s.len() == 0 {
        s
    } else if s.last() == '/' {
        Seq::empty()
    } else {
        after_last_slash(s.drop_last()).push(s.last())
    }
}

/// The final component of a path (`Path::file_name`), `None` for an empty path, `.`, `..`
/// or the root.
pub open spec fn file_name(path: Seq<char>) -> Option<Seq<char>> {
    let n = after_last_slash(strip_trailing(path));
    if n.len() == 0 || n == seq!['.'] || n == seq!['.', '.'] {
        None
    } else {
        Some(n)
    }
}

/// Whether `name` has a non-empty stem before the extension `ext` (`ext` holds no dot).
pub open spec fn has_extension(name: Seq<char>, ext: Seq<char>) -> bool {
    name.len() > ext.len() + 1 && name[name.len() - ext.len() - 1] == '.' && name.skip(
        name.len() - ext.len(),
    ) == ext
}

/// Whether a path names a Node.js script: its file name has the extension `js` or `mjs`.
pub open spec fn is_node_script_spec(path: Seq<char>) -> bool {
    match file_name(path) {
        Some(n) => has_extension(n, seq!['j', 's']) || has_extension(n, seq!['m', 'j', 's']),
        None => false,
    }
}

/// The end of `s` once trailing separators and `/.` components are stripped.
fn stripped_end(s: &Vec<char>) -> (r: usize)
    ensures
        r <= s@.len(),
        strip_trailing(s@) == s@.take(r as int),
{
    let mut e: usize = s.len();
    assert(s@.take(e as int) =~= s@);
    loop
        invariant
            e <= s@.len(),
            strip_trailing(s@) == strip_trailing(s@.take(e as int)),
        decreases e,
    {
        let ghost t = s@.take(e as int);
        if e > 0 && s[e - 1] == '/' {
            assert(t.drop_last() =~= s@.take(e - 1));
            e = e - 1;
        } else if e >= 2 && s[e - 1] == '.' && s[e - 2] == '/' {
            assert(t.drop_last().drop_last() =~= s@.take(e - 2));
            e = e - 2;
        } else {
            return e;
        }
    }
}

/// The start of the last component of `s[..end]`.
fn component_start(s: &Vec<char>, end: usize) -> (r: usize)
    requires
        end <= s@.len(),
    ensures
        r <= end,
        after_last_slash(s@.take(end as int)) == s@.subrange(r as int, end as int),
{
    let mut b: usize = end;
    while b > 0 && s[b - 1] != '/'
        invariant
            b <= end <= s@.len(),
            after_last_slash(s@.take(end as int)) == after_last_slash(s@.take(b as int))
                + s@.subrange(b as int, end as int),
        decreases b,
    {
        let ghost t = s@.take(b as int);
        assert(t.drop_last() =~= s@.take(b - 1));
        assert(s@.subrange(b - 1, end as int) =~= seq![s@[b - 1]] + s@.subrange(b as int, end as int));
        assert(after_last_slash(t) == after_last_slash(t.drop_last()).push(t.last()));
        assert(after_last_slash(t.drop_last()).push(t.last()) + s@.subrange(b as int, end as int)
            =~= after_last_slash(t.drop_last()) + s@.subrange(b - 1, end as int));
        b = b - 1;
    }
    if b > 0 {
        assert(s@.take(b as int).last() == '/');
    }
    assert(after_last_slash(s@.take(b as int)) =~= Seq::<char>::empty());
    assert(Seq::<char>::empty() + s@.subrange(b as int, end as int) =~= s@.subrange(b as int, end as int));
    b
}

/// Whether the characters `n` end with `.ext` after a non-empty stem.
fn ends_with_extension(n: &Vec<char>, ext: &Vec<char>) -> (r: bool)
    ensures
        r == has_extension(n@, ext@),
{
    if ext.len() >= n.len() || n.len() - ext.len() < 2 {
        return false;
    }
    let base = n.len() - ext.len();
    if n[base - 1] != '.' {
        return false;
    }
    let mut i: usize = 0;
    while i < ext.len()
        invariant
            0 <= i <= ext.len(),
            base + ext.len() == n.len(),
            forall|j: int| 0 <= j < i ==> n@[base + j] == ext@[j],
        decreases ext.len() - i,
    {
        if n[base + i] != ext[i] {
            assert(n@.skip(base as int)[i as int] != ext@[i as int]);
            return false;
        }
        i = i + 1;
    }
    assert(n@.skip(base as int) =~= ext@);
    true
}

/// Whether a path looks like a Node.js script (extension `js` or `mjs`).
pub fn is_node_script(path: &str) -> (r: bool)
    ensures
        r == is_node_script_spec(path@),
{
    let s = to_chars(path);
    let end = stripped_end(&s);
    let start = component_start(&s, end);
    let mut name: Vec<char> = Vec::new();
    let mut i: usize = start;
    while i < end
        invariant
            start <= i <= end <= s@.len(),
            name@ =~= s@.subrange(start as int, i as int),
        decreases end - i,
    {
        name.push(s[i]);
        i = i + 1;
    }
    assert(name@ == after_last_slash(strip_trailing(path@)));
    let is_dot = name.len() == 1 && name[0] == '.';
    let is_dot_dot = name.len() == 2 && name[0] == '.' && name[1] == '.';
    proof {
        let d1 = seq!['.'];
        let d2 = seq!['.', '.'];
        if is_dot {
            assert(name@ =~= d1);
        }
        if is_dot_dot {
            assert(name@ =~= d2);
        }
        if name@ == d1 {
            assert(d1.len() == 1 && d1[0] == '.');
        }
        if name@ == d2 {
            assert(d2.len() == 2 && d2[0] == '.' && d2[1] == '.');
        }
    }
    if name.len() == 0 || is_dot || is_dot_dot {
        return false;
    }
    let js = vec!['j', 's'];
    let mjs = vec!['m', 'j', 's'];
    assert(js@ =~= seq!['j', 's']);
    assert(mjs@ =~= seq!['m', 'j', 's']);
    ends_with_extension(&name, &js) || ends_with_extension(&name, &mjs)
}

/// Whether `c` ends a path's directory part on some platform: `/`, `\`, or the `:` of a
/// Windows drive (`C:node`).
pub open spec fn is_path_break(c: char) -> bool {
    c == '/' || c == '\\' || c == ':'
}

/// The characters after the last path break.
pub open spec fn final_part(s: Seq<char>) -> Seq<char>
    decreases s.len(),
{
    if s.len() == 0 {
        s
    } else if is_path_break(s.last()) {
        Seq::empty()
    } else {
        final_part(s.drop_last()).push(s.last())
    }
}

/// Whether `name` holds no path break, so that a `PATH` lookup joins it to each directory.
pub open spec fn plain_name(name: Seq<char>) -> bool {
    forall|i: int| 0 <= i < name.len() ==> !is_path_break(#[trigger] name[i])
}

/// Whether the file that `path` names begins with `name`, letters compared without ASCII
/// case (Windows gives back the file's own casing, and may append an executable extension).
pub open spec fn names_executable(path: Seq<char>, name: Seq<char>) -> bool {
    let f = final_part(path);
    f.len() >= name.len() && forall|i: int|
        0 <= i < name.len() ==> ascii_lower(#[trigger] f[i]) == ascii_lower(name[i])
}

/// A file name that begins with `name + more` begins with `name`.
pub proof fn lemma_names_executable_prefix(path: Seq<char>, name: Seq<char>, more: Seq<char>)
    requires
        names_executable(path, name + more),
    ensures
        names_executable(path, name),
{
    let f = final_part(path);
    assert forall|i: int| 0 <= i < name.len() implies ascii_lower(#[trigger] f[i]) == ascii_lower(
        name[i],
    ) by {
        assert((name + more)[i] == name[i]);
    }
}

/// Looks an executable up in the directories of `PATH` (`which::which`). Which directory
/// holds it depends on the environment and the file system, so only this is stated: for a
/// name without path breaks, `which` joins the name to a `PATH` directory (it does not
/// canonicalize), so the file found begins with the name (up to ASCII case and an appended
/// Windows extension).
#[verifier::external_body]
pub fn find_executable(name: &str) -> (r: Option<String>)
    ensures
        r matches Some(p) ==> (plain_name(name@) ==> names_executable(p@, name@)),
{
    which::which(name).ok().map(|p| p.to_string_lossy().into_owned())
}

/// The system's Node.js executable, looked up as `node` in `PATH`.
pub fn find_node() -> (r: Option<String>)
    ensures
        r matches Some(p) ==> names_executable(p@, "node"@),
{
    proof {
        reveal_strlit("node");
        assert(plain_name("node"@));
    }
    find_executable("node")
}

/// The separator of path components on this platform (`std::path::MAIN_SEPARATOR`); it is
/// `\` on Windows only.
#[verifier::external_body]
fn main_separator() -> char {
    std::path::MAIN_SEPARATOR
}

/// The override of the CLI location that an environment value gives: the value trimmed,
/// unless that leaves nothing.
pub fn cli_path_override(raw: &str) -> (r: Option<String>)
    ensures
        match r {
            Some(p) => p@ == trim(raw@) && trim(raw@).len() > 0,
            None => trim(raw@).len() == 0,
        },
{
    let chars = to_chars(raw);
    let t = trim_chars(chars.as_slice());
    if t.len() == 0 {
        None
    } else {
        Some(from_chars(t.as_slice()))
    }
}

/// Whether `n` is what a `PATH` lookup of `name` can give back: nothing, or a file that
/// begins with `name`.
pub open spec fn lookup_result(n: Option<Seq<char>>, name: Seq<char>) -> bool {
    n matches Some(p) ==> names_executable(p, name)
}

/// The CLI among the lookups of `copilot`, `copilot.cmd` and `copilot.exe`: the first, else
/// on Windows the second, else on Windows the third.
pub open spec fn pick_cli_spec(
    on_path: Option<Seq<char>>,
    cmd: Option<Seq<char>>,
    exe: Option<Seq<char>>,
    windows: bool,
) -> Option<Seq<char>> {
    if on_path is Some {
        on_path
    } else if windows {
        if cmd is Some {
            cmd
        } else {
            exe
        }
    } else {
        None
    }
}

/// Picks the CLI among the results of looking up `copilot`, `copilot.cmd` and
/// `copilot.exe`: the first found, the last two only on Windows.
pub fn pick_cli(
    on_path: Option<String>,
    cmd: Option<String>,
    exe: Option<String>,
    windows: bool,
) -> (r: Option<String>)
    ensures
        opt_string_view(r) == pick_cli_spec(
            opt_string_view(on_path),
            opt_string_view(cmd),
            opt_string_view(exe),
            windows,
        ),
{
    if on_path.is_some() {
        on_path
    } else if windows {
        if cmd.is_some() {
            cmd
        } else {
            exe
        }
    } else {
        None
    }
}

/// Whether `r` is what [`pick_cli`] gives for some results of the three `PATH` lookups.
pub open spec fn picked_from_lookups(r: Option<Seq<char>>) -> bool {
    exists|a: Option<Seq<char>>, b: Option<Seq<char>>, c: Option<Seq<char>>, w: bool|
        lookup_result(a, "copilot"@) && lookup_result(b, "copilot.cmd"@) && lookup_result(
            c,
            "copilot.exe"@,
        ) && #[trigger] pick_cli_spec(a, b, c, w) == r
}

/// Finds the Copilot CLI: an override that names an existing path wins, else `copilot` is
/// looked up in `PATH`, and on Windows then `copilot.cmd` and `copilot.exe`.
pub fn find_copilot_cli(existing_override: Option<String>) -> (r: Option<String>)
    ensures
        existing_override is Some ==> r == existing_override,
        existing_override is None ==> picked_from_lookups(opt_string_view(r)),
        existing_override is None ==> (r matches Some(p) ==> names_executable(p@, "copilot"@)),
{
    match existing_override {
        Some(p) => return Some(p),
        None => {},
    }
    proof {
        reveal_strlit("copilot");
        reveal_strlit("copilot.cmd");
        reveal_strlit("copilot.exe");
        assert(plain_name("copilot"@));
        assert(plain_name("copilot.cmd"@));
        assert(plain_name("copilot.exe"@));
        assert("copilot.cmd"@ =~= "copilot"@ + seq!['.', 'c', 'm', 'd']);
        assert("copilot.exe"@ =~= "copilot"@ + seq!['.', 'e', 'x', 'e']);
    }
    let on_path = find_executable("copilot");
    let windows = main_separator() == '\\';
    let cmd = if on_path.is_none() && windows {
        find_executable("copilot.cmd")
    } else {
        None
    };
    let exe = if on_path.is_none() && windows && cmd.is_none() {
        find_executable("copilot.exe")
    } else {
        None
    };
    let ghost a = opt_string_view(on_path);
    let ghost b = opt_string_view(cmd);
    let ghost c = opt_string_view(exe);
    proof {
        if b is Some {
            lemma_names_executable_prefix(b->0, "copilot"@, seq!['.', 'c', 'm', 'd']);
        }
        if c is Some {
            lemma_names_executable_prefix(c->0, "copilot"@, seq!['.', 'e', 'x', 'e']);
        }
    }
    let r = pick_cli(on_path, cmd, exe, windows);
    assert(lookup_result(a, "copilot"@) && lookup_result(b, "copilot.cmd"@) && lookup_result(
        c,
        "copilot.exe"@,
    ) && pick_cli_spec(a, b, c, windows) == opt_string_view(r));
    r
}

} // verus!
