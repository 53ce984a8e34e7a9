//! The arguments of the requests the tool makes around Docker: the `tar`
//! command that packs a build context, the filter for listing a network's
//! containers, and what must be known of a container to stop or remove it.
use crate::cli_errors::CliErrors;
use crate::text::{names, opt_text};
use vstd::prelude::*;

verus! {

/// The arguments of `tar` that pack a folder into a stream on standard output,
/// leaving out `target` and `.git`: run inside `path` when given, in the current
/// directory otherwise.
pub open spec fn spec_tar_stream_args(path: Option<Seq<char>>) -> Seq<Seq<char>> {
    let common = seq![
        "--exclude=target"@,
        "--exclude=.git"@,
        "--no-xattrs"@,
        "--no-acls"@,
        "--no-fflags"@,
        "-cf"@,
        "-"@,
    ];
    match path {
        Some(p) => common + seq!["-C"@, p, "."@],
        None => common + seq!["."@],
    }
}

fn push_str(v: &mut Vec<String>, s: &str)
    ensures
        names(final(v)@) == names(old(v)@).push(s@),
{
    v.push(s.to_owned());
    assert(names(v@) =~= names(old(v)@).push(s@));
}

/// The arguments of `tar` that pack a build context.
pub fn tar_stream_args(path: Option<&str>) -> (res: Vec<String>)
    ensures
        names(res@) == spec_tar_stream_args(
            match path {
                Some(p) => Some(p@),
                None => None,
            },
        ),
{
    let mut args: Vec<String> = Vec::new();
    push_str(&mut args, "--exclude=target");
    push_str(&mut args, "--exclude=.git");
    push_str(&mut args, "--no-xattrs");
    push_str(&mut args, "--no-acls");
    push_str(&mut args, "--no-fflags");
    push_str(&mut args, "-cf");
    push_str(&mut args, "-");
    match path {
        Some(p) => {
            push_str(&mut args, "-C");
            push_str(&mut args, p);
            push_str(&mut args, ".");
        },
        None => {
            push_str(&mut args, ".");
        },
    }
    assert(names(args@) =~= spec_tar_stream_args(
        match path {
            Some(p) => Some(p@),
            None => None,
        },
    ));
    args
}

/// The arguments of `tar` that pack the current folder, in the order the
/// folder-only packer gives them.
pub open spec fn spec_current_folder_tar_args() -> Seq<Seq<char>> {
    seq![
        "--no-xattrs"@,
        "--exclude=target"@,
        "--exclude=.git"@,
        "--no-acls"@,
        "--no-fflags"@,
        "-cf"@,
        "-"@,
        "."@,
    ]
}

/// The arguments of `tar` that pack the current folder.
pub fn current_folder_tar_args() -> (res: Vec<String>)
    ensures
        names(res@) == spec_current_folder_tar_args(),
{
    let mut args: Vec<String> = Vec::new();
    push_str(&mut args, "--no-xattrs");
    push_str(&mut args, "--exclude=target");
    push_str(&mut args, "--exclude=.git");
    push_str(&mut args, "--no-acls");
    push_str(&mut args, "--no-fflags");
    push_str(&mut args, "-cf");
    push_str(&mut args, "-");
    push_str(&mut args, ".");
    assert(names(args@) =~= spec_current_folder_tar_args());
    args
}

/// The filter for listing containers: `filter_name` must equal `filter_val`,
/// or no filter when either is empty.
pub fn list_filter(filter_name: &str, filter_val: &str) -> (res: Option<(String, String)>)
    ensures
        filter_name@.len() > 0 && filter_val@.len() > 0 ==> (res matches Some((n, v)) && n@
            == filter_name@ && v@ == filter_val@),
        !(filter_name@.len() > 0 && filter_val@.len() > 0) ==> res is None,
{
    if !filter_name.is_empty() && !filter_val.is_empty() {
        Some((filter_name.to_owned(), filter_val.to_owned()))
    } else {
        None
    }
}

/// Error text when a listed container has no id (or no image).
pub open spec fn missing_container_id_text() -> Seq<char> {
    "cannot find container id"@
}

/// The id of a listed container, which must be known to stop it.
pub fn container_id_of(id: Option<String>) -> (res: Result<String, CliErrors>)
    ensures
        match opt_text(id) {
            Some(i) => res is Ok && res->Ok_0@ == i,
            None => res is Err && res->Err_0.message@ == missing_container_id_text(),
        },
{
    match id {
        Some(i) => Ok(i),
        None => Err(CliErrors::new(String::from_str("cannot find container id"))),
    }
}

/// The id and image of a listed container, which must both be known to
/// remove it.
pub fn container_id_and_image(id: Option<String>, image: Option<String>) -> (res: Result<
    (String, String),
    CliErrors,
>)
    ensures
        match (opt_text(id), opt_text(image)) {
            (Some(i), Some(m)) => res is Ok && res->Ok_0.0@ == i && res->Ok_0.1@ == m,
            _ => res is Err && res->Err_0.message@ == missing_container_id_text(),
        },
{
    let cont_id = container_id_of(id)?;
    let image_name = match image {
        Some(m) => m,
        None => {
            return Err(CliErrors::new(String::from_str("cannot find container id")));
        },
    };
    Ok((cont_id, image_name))
}

} // verus!
