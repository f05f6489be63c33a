//! Laws of settings: paths, what is read from a file and from the environment, passwords, and
//! where requests go.

use vstd::prelude::*;
use vstd::string::*;

use crate::auth;
use crate::config;
use crate::config::{Config, ConfigFile, ListenerView, TlsView};
use crate::path;
use crate::router;
use crate::router::{Endpoint, Method};
use crate::templates;
use crate::text;

verus! {

// ── Paths ───────────────────────────────────────────────────────────────────

/// Whether a text can name a file in a directory.
pub open spec fn is_name(name: Seq<char>) -> bool {
    &&& name.len() > 0
    &&& forall|i: int| 0 <= i < name.len() ==> #[trigger] name[i] != '/'
    &&& name != seq!['.']
    &&& name != seq!['.', '.']
}

/// Whether a path ends with a name, not with a separator or with a dot that means the same.
pub open spec fn ends_with_name(dir: Seq<char>) -> bool {
    &&& dir.len() > 0
    &&& dir.last() != '/'
    &&& dir.len() > 1 && dir.last() == '.' ==> dir[dir.len() - 2] != '/'
}

proof fn lemma_last_part(dir: Seq<char>, name: Seq<char>)
    requires
        forall|i: int| 0 <= i < name.len() ==> #[trigger] name[i] != '/',
        dir.len() == 0 || dir.last() == '/',
    ensures
        path::last_part(dir + name) == name,
    decreases name.len(),
{
    let p = dir + name;
    if name.len() == 0 {
        assert(p =~= dir);
        assert(path::last_part(p) =~= name);
    } else {
        let front = name.drop_last();
        assert forall|i: int| 0 <= i < front.len() implies #[trigger] front[i] != '/' by {
            assert(front[i] == name[i]);
        }
        lemma_last_part(dir, front);
        assert(p.last() == name[name.len() - 1]);
        assert(p.drop_last() =~= dir + front);
        assert(path::last_part(p) =~= name);
    }
}

proof fn lemma_no_trailer(dir: Seq<char>, name: Seq<char>)
    requires
        is_name(name),
        dir.len() == 0 || dir.last() == '/',
    ensures
        path::without_trailer(dir + name) == dir + name,
{
    let p = dir + name;
    assert(p.last() == name[name.len() - 1]);
    if p.last() == '.' && p.len() > 1 && p[p.len() - 2] == '/' {
        if name.len() == 1 {
            assert(name =~= seq!['.']);
        } else {
            assert(p[p.len() - 2] == name[name.len() - 2]);
        }
    }
}

/// The last name of a path is the name behind its last separator, and separators behind it do
/// not matter.
pub proof fn law_last_name(dir: Seq<char>, name: Seq<char>)
    requires
        is_name(name),
        dir.len() == 0 || dir.last() == '/',
    ensures
        path::final_name(dir + name) == Some(name),
        path::final_name(dir + name + seq!['/']) == Some(name),
        path::final_name(dir + name + seq!['/', '.']) == Some(name),
        templates::project_name(dir + name) == name,
{
    let p = dir + name;
    lemma_no_trailer(dir, name);
    lemma_last_part(dir, name);
    let a = p + seq!['/'];
    assert(a.drop_last() =~= p);
    assert(path::without_trailer(a) == p);
    let b = p + seq!['/', '.'];
    assert(b.drop_last() =~= a);
    assert(b[b.len() - 2] == '/');
    assert(path::without_trailer(b) == path::without_trailer(a));
}

proof fn lemma_last_part_of_any(p: Seq<char>)
    ensures
        ({
            let name = path::last_part(p);
            let n = p.len() - name.len();
            &&& 0 <= n
            &&& p == p.take(n) + name
            &&& n > 0 ==> p[n - 1] == '/'
            &&& forall|i: int| 0 <= i < name.len() ==> #[trigger] name[i] != '/'
        }),
    decreases p.len(),
{
    if p.len() > 0 && p.last() != '/' {
        let front = p.drop_last();
        lemma_last_part_of_any(front);
        let name = path::last_part(p);
        let n = p.len() - name.len();
        assert(name.drop_last() =~= path::last_part(front));
        assert(front.take(n) =~= p.take(n));
        assert(p =~= front.push(p.last()));
        assert(p =~= p.take(n) + name);
        assert forall|i: int| 0 <= i < name.len() implies #[trigger] name[i] != '/' by {
            if i < name.len() - 1 {
                assert(name[i] == path::last_part(front)[i]);
            }
        }
        if n > 0 {
            assert(front[n - 1] == p[n - 1]);
        }
    } else {
        assert(p =~= p.take(p.len() as int) + path::last_part(p));
    }
}

/// A path without a name is called what it is.
pub proof fn law_nameless_project(dir: Seq<char>)
    ensures
        path::final_name(dir) is None ==> templates::project_name(dir) == dir,
        path::final_name(dir) matches Some(name) ==> is_name(name),
        path::final_name(Seq::empty()) is None,
        path::final_name(seq!['/']) is None,
        path::final_name(seq!['.']) is None,
        path::final_name(seq!['.', '.']) is None,
{
    lemma_last_part_of_any(path::without_trailer(dir));
    let none = Seq::<char>::empty();
    assert(path::last_part(none) =~= none);
    assert(path::without_trailer(none) == none);
    assert(seq!['/'].drop_last() =~= none);
    assert(path::without_trailer(seq!['/']) == none);
    assert(path::without_trailer(seq!['.']) == seq!['.']);
    lemma_last_part(none, seq!['.']);
    assert(none + seq!['.'] =~= seq!['.']);
    assert(path::without_trailer(seq!['.', '.']) == seq!['.', '.']);
    lemma_last_part(none, seq!['.', '.']);
    assert(none + seq!['.', '.'] =~= seq!['.', '.']);
}

/// The directory of a path is what stands before its last name.
pub proof fn law_directory(dir: Seq<char>, name: Seq<char>)
    requires
        is_name(name),
    ensures
        ends_with_name(dir) ==> path::parent_path(dir + seq!['/'] + name) == Some(dir),
        path::parent_path(seq!['/'] + name) == Some(seq!['/']),
        path::parent_path(name) == Some(Seq::<char>::empty()),
        path::parent_path(Seq::empty()) is None,
{
    let none = Seq::<char>::empty();
    assert(path::without_trailer(none) == none);
    let root = seq!['/'];
    assert(root.drop_last() =~= none);
    assert(path::without_trailer(root) == none);
    lemma_no_trailer(root, name);
    lemma_last_part(root, name);
    assert((root + name).take(1) =~= root);
    lemma_no_trailer(none, name);
    lemma_last_part(none, name);
    assert(none + name =~= name);
    assert(name.take(0) =~= none);
    if ends_with_name(dir) {
        let d = dir + seq!['/'];
        let p = d + name;
        lemma_no_trailer(d, name);
        lemma_last_part(d, name);
        assert(p.take(p.len() - name.len()) =~= d);
        assert(d.drop_last() =~= dir);
        assert(path::without_trailer(dir) == dir);
        assert(path::without_trailer(d) == dir);
    }
}

/// A path below a directory is the directory, one separator and the path.
pub proof fn law_below(base: Seq<char>, p: Seq<char>)
    ensures
        base.len() > 0 && base.last() != '/' ==> path::path_below(base, p) == base + seq!['/'] + p,
        base.len() > 0 && base.last() == '/' ==> path::path_below(base, p) == base + p,
        base.len() == 0 ==> path::path_below(base, p) == p,
{
    assert(base.len() == 0 ==> base + p =~= p);
}

/// A file that the configuration names is looked for beside the configuration, unless its path
/// is absolute.
pub proof fn law_beside_the_configuration(dir: Seq<char>, name: Seq<char>, file: Seq<char>)
    requires
        is_name(name),
    ensures
        ends_with_name(dir) && file.len() > 0 && file[0] != '/' ==> path::file_beside(
            dir + seq!['/'] + name,
            file,
        ) == dir + seq!['/'] + file,
        file.len() > 0 && file[0] != '/' ==> path::file_beside(seq!['/'] + name, file) == seq!['/']
            + file,
        path::file_beside(name, file) == file,
        file.len() == 0 || file[0] == '/' ==> path::file_beside(dir, file) == file,
{
    law_directory(dir, name);
    law_below(dir, file);
    law_below(seq!['/'], file);
    law_below(Seq::empty(), file);
}

// ── The configuration ───────────────────────────────────────────────────────

/// What the environment says comes before what the file says.
pub proof fn law_environment_comes_first(value: Seq<char>, environment: Option<String>)
    ensures
        environment matches Some(v) ==> config::overridden(value, environment) == v@,
        environment is None ==> config::overridden(value, environment) == value,
{
}

/// The files of TLS are looked for beside the configuration, where TLS is enabled; all else
/// stays as it was read.
pub proof fn law_tls_settings(tls: TlsView, path: Seq<char>)
    ensures
        config::tls_read_from(None, path) is None,
        match config::tls_read_from(Some(tls), path) {
            Some(t) => {
                &&& t.enabled == tls.enabled
                &&& tls.enabled ==> t.cert == path::file_beside(path, tls.cert) && t.key
                    == path::file_beside(path, tls.key)
                &&& !tls.enabled ==> t.cert == tls.cert && t.key == tls.key
            },
            None => false,
        },
{
}

/// The configuration is what the file says, but for the password and the key, which the
/// environment may give, and for the paths of TLS.
pub proof fn law_configuration(
    c: Config,
    parsed: Config,
    path: Seq<char>,
    password: Option<String>,
    stt_api_key: Option<String>,
)
    requires
        config::completed(c, parsed, path, password, stt_api_key),
    ensures
        c.server.bind == parsed.server.bind,
        c.server.project_dir == parsed.server.project_dir,
        c.server.run_timeout == parsed.server.run_timeout,
        c.forge == parsed.forge,
        c.diff == parsed.diff,
        c.stt.provider == parsed.stt.provider,
        c.stt.whisper_server == parsed.stt.whisper_server,
        c.stt.openai == parsed.stt.openai,
        c.stt.deepgram == parsed.stt.deepgram,
        password matches Some(v) ==> c.server.password@ == v@,
        password is None ==> c.server.password@ == parsed.server.password@,
        stt_api_key matches Some(v) ==> c.stt.api_key@ == v@,
        stt_api_key is None ==> c.stt.api_key@ == parsed.stt.api_key@,
        c.server.tls is Some <==> parsed.server.tls is Some,
        config::opt_tls(c.server.tls) == config::tls_read_from(
            config::opt_tls(parsed.server.tls),
            path,
        ),
{
}

// ── Requests ────────────────────────────────────────────────────────────────

/// A server with a password lets through the requests that give it, and no others; a server
/// without one lets all through.
pub proof fn law_password(expected: Seq<char>, provided: Seq<char>)
    ensures
        auth::admits(expected, expected),
        auth::admits(Seq::empty(), provided),
        expected.len() > 0 && provided != expected ==> !auth::admits(expected, provided),
{
}

/// What changes something is asked for with `POST`, and all else with `GET`.
pub proof fn law_methods(endpoint: Endpoint)
    ensures
        router::route_of(endpoint).endpoint == endpoint,
        router::route_of(endpoint).method == (if endpoint is Run || endpoint is Commit
            || endpoint is ConversationNew || endpoint is ConversationResume || endpoint is Audio {
            Method::Post
        } else {
            Method::Get
        }),
{
}

/// Every page is found under its path.
pub proof fn law_paths()
    ensures
        router::route_of(Endpoint::Index).path == "/"@,
        router::route_of(Endpoint::Health).path == "/health"@,
        router::route_of(Endpoint::Run).path == "/run"@,
        router::route_of(Endpoint::Stream).path == "/stream"@,
        router::route_of(Endpoint::Diff).path == "/diff"@,
        router::route_of(Endpoint::DiffCommit).path == "/diff/commit"@,
        router::route_of(Endpoint::DiffRange).path == "/diff/range"@,
        router::route_of(Endpoint::CommitPage).path == "/commit"@,
        router::route_of(Endpoint::Commit).path == "/commit"@,
        router::route_of(Endpoint::ConversationNew).path == "/conversation/new"@,
        router::route_of(Endpoint::ConversationList).path == "/conversation/list"@,
        router::route_of(Endpoint::ConversationResume).path == "/conversation/resume"@,
        router::route_of(Endpoint::Audio).path == "/audio"@,
{
}

/// A file that cannot be read, or holds no configuration, is named with the reason.
pub proof fn law_why_there_is_no_configuration(file: ConfigFile, path: Seq<char>)
    ensures
        match file {
            ConfigFile::Unreadable { error } => config::load_failure(file, path) == Some(
                "Cannot read config file '"@ + path + "': "@ + error@,
            ),
            ConfigFile::Unparsable { error } => config::load_failure(file, path) == Some(
                "Config parse error in '"@ + path + "': "@ + error@,
            ),
            ConfigFile::Parsed { .. } => config::load_failure(file, path) is None,
        },
{
}

/// A server listens with TLS exactly where that is enabled and both files are named, and with
/// these files; enabled without a file, it does not start.
pub proof fn law_how_a_server_listens(tls: Option<TlsView>)
    ensures
        match tls {
            Some(t) => {
                &&& t.enabled && t.cert.len() > 0 && t.key.len() > 0 ==> config::listener_of(tls)
                    == Ok::<ListenerView, Seq<char>>(
                    ListenerView::Tls { cert: t.cert, key: t.key },
                )
                &&& t.enabled && (t.cert.len() == 0 || t.key.len() == 0) ==> config::listener_of(
                    tls,
                ) is Err
                &&& !t.enabled ==> config::listener_of(tls) == Ok::<ListenerView, Seq<char>>(
                    ListenerView::Plain,
                )
            },
            None => config::listener_of(tls) == Ok::<ListenerView, Seq<char>>(ListenerView::Plain),
        },
{
}

} // verus!
