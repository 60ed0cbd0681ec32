use vstd::prelude::*;
use vstd::string::StrSliceExecFns;
use vstd::string::StringExecFns;

use crate::cli::CliConfig;
use crate::cli::spec_local_prefix;
use crate::cli::spec_remote_prefix;
use crate::envs::Environment;
use crate::projects::Project;

verus! {

/// The remote object-store key for one filename in a namespace.
pub open spec fn spec_remote_file(p: Project, e: Environment, file: Seq<char>) -> Seq<char> {
    spec_remote_prefix(p, e) + "/"@ + file
}

/// The local cache path for one filename in a namespace under the given
/// root.
pub open spec fn spec_local_file(
    root: Seq<char>,
    p: Project,
    e: Environment,
    file: Seq<char>,
) -> Seq<char> {
    spec_local_prefix(root, p, e) + "/"@ + file
}

/// The pair of paths that one filename of a resolved configuration lives
/// at: its remote object-store key and its local cache path.
pub struct PathsConf {
    pub local: String,
    pub s3: String,
}

/// Derives both paths for `file`: the remote key under the configuration's
/// remote prefix, and the local path under its cache directory below
/// `local_root`.
pub fn build_path_file(cli_config: &CliConfig, file: &str, local_root: &str) -> (r: PathsConf)
    ensures
        r.s3@ == spec_remote_file(cli_config.spec_project(), cli_config.spec_env(), file@),
        r.local@ == spec_local_file(
            local_root@,
            cli_config.spec_project(),
            cli_config.spec_env(),
            file@,
        ),
{
    let mut local = cli_config.local_path(local_root);
    local.append("/");
    local.append(file);
    let mut s3 = cli_config.s3_path();
    s3.append("/");
    s3.append(file);
    PathsConf { local, s3 }
}

/// Path derivation is pure: any two path pairs derived from the same
/// configuration, local root and filename are equal, component for
/// component.
pub proof fn lemma_build_path_file_deterministic(
    c: CliConfig,
    root: Seq<char>,
    file: Seq<char>,
    p1: PathsConf,
    p2: PathsConf,
)
    requires
        p1.s3@ == spec_remote_file(c.spec_project(), c.spec_env(), file),
        p1.local@ == spec_local_file(root, c.spec_project(), c.spec_env(), file),
        p2.s3@ == spec_remote_file(c.spec_project(), c.spec_env(), file),
        p2.local@ == spec_local_file(root, c.spec_project(), c.spec_env(), file),
    ensures
        p1.s3@ == p2.s3@,
        p1.local@ == p2.local@,
{
}

/// Removes the known directory prefix from a remote key, presenting the
/// bare filename when listing; a key outside the directory is returned
/// unchanged.
pub fn strip_dir_prefix<'a>(key: &'a str, dir: &str) -> (r: &'a str)
    ensures
        dir@.is_prefix_of(key@) ==> r@ == key@.skip(dir@.len() as int),
        !dir@.is_prefix_of(key@) ==> r@ == key@,
{
    let key_len = key.unicode_len();
    let dir_len = dir.unicode_len();
    if dir_len > key_len {
        return key;
    }
    let mut i: usize = 0;
    while i < dir_len
        invariant
            i <= dir_len,
            dir_len == dir@.len(),
            key_len == key@.len(),
            dir_len <= key_len,
            forall|j: int| 0 <= j < i ==> key@[j] == dir@[j],
        decreases dir_len - i,
    {
        if key.get_char(i) != dir.get_char(i) {
            assert(!dir@.is_prefix_of(key@)) by {
                assert(key@.subrange(0, dir@.len() as int)[i as int] == key@[i as int]);
            }
            return key;
        }
        i += 1;
    }
    assert(dir@.is_prefix_of(key@)) by {
        assert(dir@ =~= key@.subrange(0, dir@.len() as int));
    }
    let rest = key.substring_char(dir_len, key_len);
    assert(rest@ == key@.skip(dir@.len() as int));
    rest
}

} // verus!
