//! Where the configuration file is.

use vstd::prelude::*;
use crate::text::{join2, join3, text_of};

verus! {

/// `base` extended by `part`, taken as a relative path: a `/` comes between
/// the two unless `base` is empty or ends with one.
pub open spec fn join_path_spec(base: Seq<char>, part: Seq<char>) -> Seq<char> {
    if base.len() == 0 || base.last() == '/' {
        base + part
    } else {
        base + seq!['/'] + part
    }
}

/// The configuration file of a user whose home directory is `home`:
/// `.config/podmen.conf` below it, and below `/root` where no home directory
/// is known.
pub open spec fn default_config_path(home: Option<Seq<char>>) -> Seq<char> {
    let directory = match home {
        Some(directory) => directory,
        None => "/root"@,
    };
    join_path_spec(directory, ".config/podmen.conf"@)
}

/// The path given on the command line, else the default one.
pub open spec fn config_path_spec(config_arg: Option<Seq<char>>, home: Option<Seq<char>>) -> Seq<
    char,
> {
    match config_arg {
        Some(path) => path,
        None => default_config_path(home),
    }
}

/// Extends `base` by `part`, taken as a relative path.
pub fn join_path(base: &str, part: &str) -> (path: String)
    ensures
        path@ == join_path_spec(base@, part@),
{
    proof {
        reveal_strlit("/");
    }
    let length = base.unicode_len();
    if length == 0 || base.get_char(length - 1) == '/' {
        join2(base, part)
    } else {
        let path = join3(base, "/", part);
        assert("/"@ =~= seq!['/']);
        path
    }
}

/// Resolves the configuration file: `config_arg` where the command line
/// gave one, else the default below `home`, the home directory of the
/// invoking user as far as it is known.
pub fn get_config_path(config_arg: Option<String>, home: Option<String>) -> (path: String)
    ensures
        path@ == config_path_spec(text_of(config_arg), text_of(home)),
{
    match config_arg {
        Some(path) => path,
        None => match home {
            Some(directory) => join_path(directory.as_str(), ".config/podmen.conf"),
            None => join_path("/root", ".config/podmen.conf"),
        },
    }
}

} // verus!
