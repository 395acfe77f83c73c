use vstd::prelude::*;
use vstd::string::*;

verus! {

/// The directory below the system's temporary directory that all sessions
/// share.
pub const TOOL_DIR: &'static str = "zoxide";

/// What the name of every session's cache file starts with.
pub const PWD_PREFIX: &'static str = "pwd-";

/// `name` below the directory `dir`: a separator stands between the two
/// unless `dir` is empty or already ends in one.
pub open spec fn joined(dir: Seq<char>, name: Seq<char>) -> Seq<char> {
    if dir.len() > 0 && dir.last() != '/' {
        dir + seq!['/'] + name
    } else {
        dir + name
    }
}

/// The shared directory below the temporary directory `root`.
pub open spec fn tmp_dir_of(root: Seq<char>) -> Seq<char> {
    joined(root, TOOL_DIR@)
}

/// The cache file of the session with the token `token`.
pub open spec fn pwd_path_of(root: Seq<char>, token: Seq<char>) -> Seq<char> {
    joined(tmp_dir_of(root), PWD_PREFIX@ + token)
}

/// `pwd_path` names a cache file in the directory `tmp_dir`.
pub open spec fn is_cache_file_in(tmp_dir: Seq<char>, pwd_path: Seq<char>) -> bool {
    joined(tmp_dir, PWD_PREFIX@).is_prefix_of(pwd_path)
}

/// Where one session keeps its state: the directory that all sessions
/// share, and in it the file that records this session's working directory.
pub struct SessionTempPaths {
    tmp_dir: String,
    pwd_path: String,
}

/// The two paths as text.
pub struct SessionTempPathsView {
    pub tmp_dir: Seq<char>,
    pub pwd_path: Seq<char>,
}

impl View for SessionTempPaths {
    type V = SessionTempPathsView;

    closed spec fn view(&self) -> SessionTempPathsView {
        SessionTempPathsView { tmp_dir: self.tmp_dir@, pwd_path: self.pwd_path@ }
    }
}

impl SessionTempPaths {
    #[verifier::type_invariant]
    spec fn cache_file_in_shared_dir(&self) -> bool {
        is_cache_file_in(self.tmp_dir@, self.pwd_path@)
    }

    /// The paths of the session `token` below the temporary directory
    /// `temp_root`.
    pub fn new(temp_root: &str, token: &str) -> (paths: SessionTempPaths)
        ensures
            paths@.tmp_dir == tmp_dir_of(temp_root@),
            paths@.pwd_path == pwd_path_of(temp_root@, token@),
    {
        let tmp_dir = join(temp_root, TOOL_DIR);
        let mut name = String::from_str(PWD_PREFIX);
        name.append(token);
        let pwd_path = join(tmp_dir.as_str(), name.as_str());
        proof {
            lemma_pwd_path_in_tmp_dir(temp_root@, token@);
        }
        SessionTempPaths { tmp_dir, pwd_path }
    }

    /// The directory that all sessions share.
    pub fn tmp_dir(&self) -> (dir: &str)
        ensures
            dir@ == self@.tmp_dir,
    {
        self.tmp_dir.as_str()
    }

    /// This session's cache file, which lies in the shared directory.
    pub fn pwd_path(&self) -> (path: &str)
        ensures
            path@ == self@.pwd_path,
            is_cache_file_in(self@.tmp_dir, path@),
    {
        proof {
            use_type_invariant(self);
        }
        self.pwd_path.as_str()
    }
}

/// Joins `name` to the directory `dir`.
pub fn join(dir: &str, name: &str) -> (path: String)
    ensures
        path@ == joined(dir@, name@),
{
    let n = dir.unicode_len();
    let mut path = String::from_str(dir);
    if n > 0 && dir.get_char(n - 1) != '/' {
        path.append("/");
        proof {
            reveal_strlit("/");
            assert("/"@ =~= seq!['/']);
        }
    }
    path.append(name);
    path
}

/// Whatever the token, the session's cache file lies in the shared
/// directory.
pub proof fn lemma_pwd_path_in_tmp_dir(root: Seq<char>, token: Seq<char>)
    ensures
        is_cache_file_in(tmp_dir_of(root), pwd_path_of(root, token)),
{
    let dir = tmp_dir_of(root);
    let stem = joined(dir, PWD_PREFIX@);
    assert(pwd_path_of(root, token) =~= stem + token);
    assert((stem + token).subrange(0, stem.len() as int) =~= stem);
}

/// Sessions with different tokens have different cache files.
pub proof fn lemma_tokens_part_paths(root: Seq<char>, a: Seq<char>, b: Seq<char>)
    requires
        a != b,
    ensures
        pwd_path_of(root, a) != pwd_path_of(root, b),
{
    let stem = joined(tmp_dir_of(root), PWD_PREFIX@);
    assert(pwd_path_of(root, a) =~= stem + a);
    assert(pwd_path_of(root, b) =~= stem + b);
    if stem + a == stem + b {
        assert((stem + a).skip(stem.len() as int) =~= a);
        assert((stem + b).skip(stem.len() as int) =~= b);
    }
}

} // verus!
