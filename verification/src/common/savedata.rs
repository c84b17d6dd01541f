//! Where the app keeps its files: the configuration and data folders and each feature's
//! JSON file in them. The folders are named by environment variables that the caller reads.
//! Paths follow the rules `Path::join` has on Unix: `/` separates components, and a part that
//! starts with `/` is absolute and replaces the base.

use vstd::prelude::*;

use crate::text::{chars_of, push_char, push_str};

verus! {

/// `part` joined onto `base` as `Path::join` does on Unix: an absolute part (one starting
/// with `/`) replaces the base; otherwise a `/` separates them unless the base is empty or
/// already ends with one.
pub open spec fn joined(base: Seq<char>, part: Seq<char>) -> Seq<char> {
    if part.len() > 0 && part[0] == '/' {
        part
    } else if base.len() == 0 || base.last() == '/' {
        base + part
    } else {
        base + seq!['/'] + part
    }
}

/// Joins a path onto a base path.
pub fn join_path(base: &str, part: &str) -> (r: String)
    ensures
        r@ == joined(base@, part@),
{
    let p = chars_of(part);
    let mut s = String::new();
    if p.len() > 0 && p[0] == '/' {
        push_str(&mut s, part);
        return s;
    }
    let v = chars_of(base);
    push_str(&mut s, base);
    if v.len() > 0 && v[v.len() - 1] != '/' {
        push_char(&mut s, '/');
    }
    push_str(&mut s, part);
    s
}

/// The app's folder under a base folder: the base folder given by its own variable, or else
/// the home folder's `home_subdir`; then `rlbuddy/` in it. Without either variable there is
/// none.
pub open spec fn app_dir_of(primary: Option<Seq<char>>, home: Option<Seq<char>>, home_subdir: Seq<char>) -> Option<
    Seq<char>,
> {
    match primary {
        Some(p) => Some(joined(p, "rlbuddy/"@)),
        None => match home {
            Some(h) => Some(joined(joined(h, home_subdir), "rlbuddy/"@)),
            None => None,
        },
    }
}

/// The app's folder, from the value of its base folder's variable (`XDG_CONFIG_HOME` or
/// `XDG_DATA_HOME`) and of `HOME`, with the home folder's default base (`.config` or
/// `.local/share`).
pub fn rlbuddy_dir(primary: Option<&str>, home: Option<&str>, home_subdir: &str) -> (r: Option<String>)
    ensures
        match r {
            Some(d) => app_dir_of(
                match primary {
                    Some(p) => Some(p@),
                    None => None,
                },
                match home {
                    Some(h) => Some(h@),
                    None => None,
                },
                home_subdir@,
            ) == Some(d@),
            None => primary is None && home is None,
        },
{
    match primary {
        Some(p) => Some(join_path(p, "rlbuddy/")),
        None => match home {
            Some(h) => {
                let base = join_path(h, home_subdir);
                Some(join_path(base.as_str(), "rlbuddy/"))
            },
            None => None,
        },
    }
}

/// The app's configuration folder, from the values of `XDG_CONFIG_HOME` and `HOME`: the
/// first, or else `.config` in the home folder; then `rlbuddy/` in it.
pub fn rlbuddy_config_dir(xdg_config_home: Option<&str>, home: Option<&str>) -> (r: Option<String>)
    ensures
        match r {
            Some(d) => app_dir_of(
                match xdg_config_home {
                    Some(p) => Some(p@),
                    None => None,
                },
                match home {
                    Some(h) => Some(h@),
                    None => None,
                },
                ".config"@,
            ) == Some(d@),
            None => xdg_config_home is None && home is None,
        },
{
    rlbuddy_dir(xdg_config_home, home, ".config")
}

/// The app's data folder, from the values of `XDG_DATA_HOME` and `HOME`: the first, or else
/// `.local/share` in the home folder; then `rlbuddy/` in it.
pub fn rlbuddy_data_dir(xdg_data_home: Option<&str>, home: Option<&str>) -> (r: Option<String>)
    ensures
        match r {
            Some(d) => app_dir_of(
                match xdg_data_home {
                    Some(p) => Some(p@),
                    None => None,
                },
                match home {
                    Some(h) => Some(h@),
                    None => None,
                },
                ".local/share"@,
            ) == Some(d@),
            None => xdg_data_home is None && home is None,
        },
{
    rlbuddy_dir(xdg_data_home, home, ".local/share")
}

/// A feature's JSON file in a folder: the feature's name and `.json`.
pub open spec fn feature_file(dir: Seq<char>, name: Seq<char>) -> Seq<char> {
    joined(dir, name + ".json"@)
}

/// A feature's JSON file in a folder.
fn feature_json_path(dir: Option<&str>, name: &str) -> (r: Option<String>)
    ensures
        match r {
            Some(p) => dir matches Some(d) && p@ == feature_file(d@, name@),
            None => dir is None,
        },
{
    match dir {
        Some(d) => {
            let mut file = String::new();
            push_str(&mut file, name);
            push_str(&mut file, ".json");
            Some(join_path(d, file.as_str()))
        },
        None => None,
    }
}

/// A feature's configuration file, in the app's configuration folder when there is one.
pub fn feature_json_config_path(config_dir: Option<&str>, name: &str) -> (r: Option<String>)
    ensures
        match r {
            Some(p) => config_dir matches Some(d) && p@ == feature_file(d@, name@),
            None => config_dir is None,
        },
{
    feature_json_path(config_dir, name)
}

/// A feature's data file, in the app's data folder when there is one.
pub fn feature_json_data_path(data_dir: Option<&str>, name: &str) -> (r: Option<String>)
    ensures
        match r {
            Some(p) => data_dir matches Some(d) && p@ == feature_file(d@, name@),
            None => data_dir is None,
        },
{
    feature_json_path(data_dir, name)
}

} // verus!
