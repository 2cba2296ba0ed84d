//! Configuration validity checking.
//!
//! A project declares paths — compose files and an optional environment
//! file — that must exist on disk for the project to be usable. The checks
//! here report one message per missing path. What a check on disk returns
//! is never assumed: the message list is computed by a verified function
//! from the existence of each path, handed in as plain booleans.

use vstd::prelude::*;
use vstd::string::StringExecFns;

use crate::argv::push_string;
use crate::config::{ComposeItem, ComposeItemView};
use crate::DctlError;

verus! {

/// The message reported for a missing environment file.
pub open spec fn env_file_error_text(path: Seq<char>) -> Seq<char> {
    "❌ - env file: \""@ + path + "\""@
}

/// The message reported for a missing compose file.
pub open spec fn compose_file_error_text(path: Seq<char>) -> Seq<char> {
    "❌ - Compose file: \""@ + path + "\""@
}

/// The messages for the compose files that are not present, in declared
/// order: one per index whose `present` entry is false.
pub open spec fn missing_file_errors(files: Seq<Seq<char>>, present: Seq<bool>) -> Seq<Seq<char>>
    decreases files.len(),
{
    if files.len() == 0 {
        Seq::empty()
    } else {
        missing_file_errors(files.drop_last(), present.drop_last()) + (if present.last() {
            Seq::empty()
        } else {
            seq![compose_file_error_text(files.last())]
        })
    }
}

/// Every message a project's configuration check reports, given whether
/// the environment file and each compose file exist: first the environment
/// file's message when one is declared and missing, then one message per
/// missing compose file, in declared order.
pub open spec fn config_errors(
    item: ComposeItemView,
    env_file_exists: bool,
    compose_file_exists: Seq<bool>,
) -> Seq<Seq<char>> {
    (match item.enviroment_file {
        Some(path) => if env_file_exists {
            Seq::empty()
        } else {
            seq![env_file_error_text(path)]
        },
        None => Seq::empty(),
    }) + missing_file_errors(item.compose_files, compose_file_exists)
}

/// The error messages of one project whose paths' existence is already
/// known, exactly as [`config_errors`] describes them.
pub fn item_config_errors(
    item: &ComposeItem,
    env_file_exists: bool,
    compose_file_exists: &Vec<bool>,
) -> (r: Vec<String>)
    requires
        compose_file_exists@.len() == item.compose_files@.len(),
    ensures
        r.deep_view() == config_errors(item@, env_file_exists, compose_file_exists@),
{
    let mut error_list: Vec<String> = Vec::new();
    match &item.enviroment_file {
        Some(env_file) => {
            if !env_file_exists {
                let mut msg: String = "❌ - env file: \"".to_owned();
                msg.append(env_file.as_str());
                msg.append("\"");
                push_string(&mut error_list, msg);
            }
        },
        None => {},
    }
    let ghost head = error_list.deep_view();
    proof {
        assert(head =~= (match item@.enviroment_file {
            Some(path) => if env_file_exists {
                Seq::<Seq<char>>::empty()
            } else {
                seq![env_file_error_text(path)]
            },
            None => Seq::<Seq<char>>::empty(),
        }));
    }
    let ghost fs = item.compose_files.deep_view();
    let ghost ps = compose_file_exists@;
    let n = item.compose_files.len();
    let mut i: usize = 0;
    while i < n
        invariant
            i <= n,
            n == item.compose_files@.len(),
            ps.len() == n,
            fs == item.compose_files.deep_view(),
            ps == compose_file_exists@,
            error_list.deep_view() == head + missing_file_errors(
                fs.take(i as int),
                ps.take(i as int),
            ),
        decreases n - i,
    {
        proof {
            assert(fs.take(i + 1).drop_last() =~= fs.take(i as int));
            assert(ps.take(i + 1).drop_last() =~= ps.take(i as int));
            assert(fs.take(i + 1).last() == fs[i as int]);
            assert(ps.take(i + 1).last() == ps[i as int]);
        }
        if !compose_file_exists[i] {
            let mut msg: String = "❌ - Compose file: \"".to_owned();
            msg.append(item.compose_files[i].as_str());
            msg.append("\"");
            push_string(&mut error_list, msg);
        }
        proof {
            assert(error_list.deep_view() =~= head + missing_file_errors(
                fs.take(i + 1),
                ps.take(i + 1),
            ));
        }
        i = i + 1;
    }
    proof {
        assert(fs.take(n as int) =~= fs);
        assert(ps.take(n as int) =~= ps);
    }
    error_list
}

/// Relies on std::path::Path::exists: whether a path on disk exists at the
/// moment of the call. Nothing is assumed of the answer.
#[verifier::external_body]
fn path_exists(path: &str) -> bool {
    std::path::Path::new(path).exists()
}

/// Whether the configured compose binary path exists on disk.
pub fn check_docker_bin_path(config_docker_bin_path: &str) -> (r: Result<bool, DctlError>)
    ensures
        r is Ok,
{
    Ok(path_exists(config_docker_bin_path))
}

/// Checks one project's declared paths against the disk and reports one
/// message per missing path, as [`config_errors`] describes for the
/// existence answers the disk gave.
pub fn check_item_config(item: &ComposeItem) -> (r: Result<Vec<String>, DctlError>)
    ensures
        r is Ok,
        exists|env_ok: bool, files_ok: Seq<bool>|
            files_ok.len() == item.compose_files@.len() && (r->Ok_0).deep_view() == config_errors(
                item@,
                env_ok,
                files_ok,
            ),
{
    let env_ok = match &item.enviroment_file {
        Some(env_file) => path_exists(env_file.as_str()),
        None => true,
    };
    let n = item.compose_files.len();
    let mut files_ok: Vec<bool> = Vec::new();
    let mut i: usize = 0;
    while i < n
        invariant
            i <= n,
            n == item.compose_files@.len(),
            files_ok@.len() == i,
        decreases n - i,
    {
        files_ok.push(path_exists(item.compose_files[i].as_str()));
        i = i + 1;
    }
    let errors = item_config_errors(item, env_ok, &files_ok);
    proof {
        assert(files_ok@.len() == item.compose_files@.len() && errors.deep_view()
            == config_errors(item@, env_ok, files_ok@));
    }
    Ok(errors)
}

} // verus!
