//! The compose file itself: which file names are accepted, the name a path ends
//! in, and the project labels and network the services are started under.
use crate::cli_errors::{
    file_name_extraction_fail_text, wrong_docker_compose_file_name_text, wrong_file_path_text,
    CliErrors,
};
use crate::name_map::NameMap;
use crate::text::str_eq;
use vstd::prelude::*;

verus! {

/// The names a compose file may have.
pub open spec fn compose_file_names() -> Seq<Seq<char>> {
    seq![
        "compose.yaml"@,
        "compose.yml"@,
        "docker-compose.yaml"@,
        "docker-compose.yml"@,
        "docker-compose.yml"@,
        "docker-compose.override.yml"@,
    ]
}

/// Whether a path names the current directory or a file.
#[derive(Clone, Copy, Debug, PartialEq, Eq)]
pub enum FilePathType {
    CurrentDir,
    FilePath,
}

/// A path written with `/` alone: no `\` and no `:`, the characters that
/// separators and prefixes use on some platforms. Such a path splits into the
/// same parts everywhere.
pub open spec fn plain_path(path: Seq<char>) -> bool {
    forall|i: int| 0 <= i < path.len() ==> #[trigger] path[i] != '\\' && path[i] != ':'
}

/// The position of the last `/` before position `i`.
pub open spec fn last_slash(path: Seq<char>, i: int) -> Option<int>
    decreases i,
{
    if i <= 0 {
        None
    } else if path[i - 1] == '/' {
        Some(i - 1)
    } else {
        last_slash(path, i - 1)
    }
}

/// The last name of a plain path, as `Path::file_name` documents it: the final
/// part between `/`s, where empty parts and `.` parts are passed over; none
/// when the path has no such part or ends in `..`.
pub open spec fn last_path_name(path: Seq<char>) -> Option<Seq<char>>
    decreases path.len(),
{
    if path.len() == 0 {
        None
    } else {
        match last_slash(path, path.len() as int) {
            Some(k) => {
                let part = path.subrange(k + 1, path.len() as int);
                if part.len() == 0 || part == "."@ {
                    if 0 <= k < path.len() {
                        last_path_name(path.subrange(0, k))
                    } else {
                        None
                    }
                } else if part == ".."@ {
                    None
                } else {
                    Some(part)
                }
            },
            None => if path == "."@ || path == ".."@ {
                None
            } else {
                Some(path)
            },
        }
    }
}

/// Calls `Path::new(path).file_name()` and gives the name as text; the name of
/// a path made from a `str` is always valid text, so `to_str` cannot fail.
///
/// For a plain path the contract states the name as `Path::file_name`
/// documents it. For a path with `\` or `:` nothing is claimed: what such a
/// path splits into depends on the platform.
#[verifier::external_body]
fn std_file_name(path: &str) -> (res: Option<String>)
    ensures
        plain_path(path@) ==> opt_text_eq(res, last_path_name(path@)),
{
    match std::path::Path::new(path).file_name() {
        Some(n) => match n.to_str() {
            Some(s) => Some(s.to_string()),
            None => None,
        },
        None => None,
    }
}

/// An optional string holds the given optional text.
pub open spec fn opt_text_eq(o: Option<String>, t: Option<Seq<char>>) -> bool {
    match (o, t) {
        (Some(s), Some(t)) => s@ == t,
        (None, None) => true,
        _ => false,
    }
}

/// The last name of a path: of `i_file_path` for a file, of `current_dir` (the
/// working directory, read by the caller) for the current directory.
pub fn file_name(i_file_path: &str, file_type: FilePathType, current_dir: &str) -> (res: Result<
    String,
    CliErrors,
>)
    ensures
        ({
            let path = match file_type {
                FilePathType::CurrentDir => current_dir@,
                FilePathType::FilePath => i_file_path@,
            };
            plain_path(path) ==> match last_path_name(path) {
                Some(n) => res is Ok && res->Ok_0@ == n,
                None => res is Err && res->Err_0.message@ == file_name_extraction_fail_text(),
            }
        }),
        res is Err ==> res->Err_0.message@ == file_name_extraction_fail_text(),
{
    let path = match file_type {
        FilePathType::CurrentDir => current_dir,
        FilePathType::FilePath => i_file_path,
    };
    match std_file_name(path) {
        Some(n) => Ok(n),
        None => Err(CliErrors::file_name_extraction_fail()),
    }
}

/// Whether a file name is one a compose file may have.
pub fn is_compose_file_name(name: &str) -> (res: bool)
    ensures
        res == compose_file_names().contains(name@),
{
    let res = str_eq(name, "compose.yaml") || str_eq(name, "compose.yml") || str_eq(
        name,
        "docker-compose.yaml",
    ) || str_eq(name, "docker-compose.yml") || str_eq(name, "docker-compose.override.yml");
    proof {
        let names = compose_file_names();
        if res {
            if name@ == "compose.yaml"@ {
                assert(names[0] == name@);
            } else if name@ == "compose.yml"@ {
                assert(names[1] == name@);
            } else if name@ == "docker-compose.yaml"@ {
                assert(names[2] == name@);
            } else if name@ == "docker-compose.yml"@ {
                assert(names[3] == name@);
            } else {
                assert(names[5] == name@);
            }
        } else if names.contains(name@) {
            let k = choose|k: int| 0 <= k < names.len() && names[k] == name@;
            assert(false);
        }
    }
    res
}

/// The checks on a compose file path once its name is known: the file must
/// exist, then its name must be one a compose file may have.
pub fn validate_file_path(file_name: &str, file_exists: bool) -> (res: Result<(), CliErrors>)
    ensures
        !file_exists ==> res is Err && res->Err_0.message@ == wrong_file_path_text(),
        file_exists && !compose_file_names().contains(file_name@) ==> res is Err
            && res->Err_0.message@ == wrong_docker_compose_file_name_text(),
        file_exists && compose_file_names().contains(file_name@) ==> res is Ok,
{
    if !file_exists {
        return Err(CliErrors::wrong_file_path());
    }
    if !is_compose_file_name(file_name) {
        return Err(CliErrors::wrong_docker_compose_file_name());
    }
    Ok(())
}

/// The label key that groups containers under a project.
pub open spec fn project_label_key() -> Seq<char> {
    "com.docker.compose.project"@
}

/// The labels of a project: its name under the project key.
pub fn create_lables(label_name: &str) -> (res: NameMap<String>)
    ensures
        res@ == Map::<Seq<char>, Seq<char>>::empty().insert(project_label_key(), label_name@),
{
    let mut labels: NameMap<String> = NameMap::new();
    labels.insert(String::from_str("com.docker.compose.project"), label_name.to_owned());
    labels
}

/// The network settings of a container: the networks it joins, each with
/// default endpoint settings.
pub struct NetworkConfig {
    pub endpoints: Vec<String>,
}

/// The network settings for joining one network.
pub fn get_network_config(network_name: &str) -> (res: NetworkConfig)
    ensures
        crate::text::names(res.endpoints@) == seq![network_name@],
{
    let mut endpoints: Vec<String> = Vec::new();
    endpoints.push(network_name.to_owned());
    proof {
        assert(crate::text::names(endpoints@) =~= seq![network_name@]);
    }
    NetworkConfig { endpoints }
}

/// The names a compose file may have are exactly `compose.yaml`,
/// `compose.yml`, `docker-compose.yaml`, `docker-compose.yml` and
/// `docker-compose.override.yml`.
pub proof fn law_compose_file_names(name: Seq<char>)
    ensures
        compose_file_names().contains(name) <==> (name == "compose.yaml"@ || name == "compose.yml"@
            || name == "docker-compose.yaml"@ || name == "docker-compose.yml"@ || name
            == "docker-compose.override.yml"@),
{
    let names = compose_file_names();
    if name == "compose.yaml"@ {
        assert(names[0] == name);
    } else if name == "compose.yml"@ {
        assert(names[1] == name);
    } else if name == "docker-compose.yaml"@ {
        assert(names[2] == name);
    } else if name == "docker-compose.yml"@ {
        assert(names[3] == name);
    } else if name == "docker-compose.override.yml"@ {
        assert(names[5] == name);
    } else if names.contains(name) {
        let k = choose|k: int| 0 <= k < names.len() && names[k] == name;
        assert(false);
    }
}

/// The last name of a plain path is its final part: a path ending in `/name`
/// (with `name` a plain part other than `.` and `..`) has the name `name`,
/// and `/` or `.` parts at the end are passed over.
pub proof fn law_last_name_is_final_part(dir: Seq<char>, name: Seq<char>)
    requires
        name.len() > 0,
        !name.contains('/'),
        name != "."@,
        name != ".."@,
    ensures
        last_path_name(dir + seq!['/'] + name) == Some(name),
        last_path_name(dir + seq!['/'] + name + seq!['/']) == Some(name),
        last_path_name(dir + seq!['/'] + name + "/."@) == Some(name),
{
    reveal_strlit("/.");
    reveal_strlit(".");
    let p = dir + seq!['/'] + name;
    lemma_last_slash_at(p, dir.len() as int);
    assert(p.subrange(dir.len() as int + 1, p.len() as int) =~= name);
    let q = p + seq!['/'];
    assert(last_slash(q, q.len() as int) == Some(p.len() as int));
    assert(q.subrange(p.len() as int + 1, q.len() as int) =~= Seq::<char>::empty());
    assert(q.subrange(0, p.len() as int) =~= p);
    let r = p + "/."@;
    assert(r[r.len() - 1] == '.');
    assert(r[r.len() - 2] == '/');
    assert(last_slash(r, r.len() as int - 1) == Some(p.len() as int));
    assert(last_slash(r, r.len() as int) == Some(p.len() as int));
    assert(r.subrange(p.len() as int + 1, r.len() as int) =~= "."@);
    assert(r.subrange(0, p.len() as int) =~= p);
}

proof fn lemma_last_slash_at(p: Seq<char>, k: int)
    requires
        0 <= k < p.len(),
        p[k] == '/',
        forall|j: int| k < j < p.len() ==> p[j] != '/',
    ensures
        last_slash(p, p.len() as int) == Some(k),
    decreases p.len() - k,
{
    lemma_last_slash_from(p, k, p.len() as int);
}

proof fn lemma_last_slash_from(p: Seq<char>, k: int, i: int)
    requires
        0 <= k < i <= p.len(),
        p[k] == '/',
        forall|j: int| k < j < i ==> p[j] != '/',
    ensures
        last_slash(p, i) == Some(k),
    decreases i - k,
{
    if i - 1 > k {
        lemma_last_slash_from(p, k, i - 1);
    }
}

} // verus!
