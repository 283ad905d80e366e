use vstd::prelude::*;

verus! {

/// `base` and `name` joined by a `/`, where no separator is added after an
/// empty base or one that already ends in `/`. `name` is taken as a relative
/// component.
pub open spec fn joined(base: Seq<char>, name: Seq<char>) -> Seq<char> {
    if base.len() == 0 {
        name
    } else if base.last() == '/' {
        base + name
    } else {
        base + seq!['/'] + name
    }
}

/// Joins a relative component onto a directory path.
pub fn join(base: &str, name: &str) -> (r: String)
    ensures
        r@ == joined(base@, name@),
{
    let n = base.unicode_len();
    if n == 0 {
        String::from_str(name)
    } else if base.get_char(n - 1) == '/' {
        String::from_str(base).concat(name)
    } else {
        proof {
            reveal_strlit("/");
            assert("/"@ =~= seq!['/']);
        }
        String::from_str(base).concat("/").concat(name)
    }
}

/// The directory of the configuration documents, given the application's
/// directory.
pub fn config_dir(app_dir: &str) -> (r: String)
    ensures
        r@ == app_dir@,
{
    String::from_str(app_dir)
}

/// The settings document `sword.json` in the configuration directory.
pub fn sword_config_path(app_dir: &str) -> (r: String)
    ensures
        r@ == joined(app_dir@, "sword.json"@),
{
    let dir = config_dir(app_dir);
    join(dir.as_str(), "sword.json")
}

/// The directory `sing` that holds the core's passthrough document and that
/// the core runs in.
pub fn sing_box_dir(app_dir: &str) -> (r: String)
    ensures
        r@ == joined(app_dir@, "sing"@),
{
    let dir = config_dir(app_dir);
    join(dir.as_str(), "sing")
}

/// The passthrough document `sing/config.json`.
pub fn sing_box_path(app_dir: &str) -> (r: String)
    ensures
        r@ == joined(joined(app_dir@, "sing"@), "config.json"@),
{
    let dir = sing_box_dir(app_dir);
    join(dir.as_str(), "config.json")
}

/// The directory `logs` of the application's log files.
pub fn log_dir(app_dir: &str) -> (r: String)
    ensures
        r@ == joined(app_dir@, "logs"@),
{
    join(app_dir, "logs")
}

/// The directory `core` of installed core executables, beside the running
/// executable, which lies in `exe_dir`.
pub fn core_dir(exe_dir: &str) -> (r: String)
    ensures
        r@ == joined(exe_dir@, "core"@),
{
    join(exe_dir, "core")
}

/// The executable of the core `name` in `core_dir`.
pub fn core_path(core_dir: &str, name: &str) -> (r: String)
    ensures
        r@ == joined(core_dir@, name@),
{
    join(core_dir, name)
}

/// The file name of the core `name`: with the `.exe` suffix on Windows.
pub open spec fn core_file(name: Seq<char>, windows: bool) -> Seq<char> {
    if windows {
        name + ".exe"@
    } else {
        name
    }
}

/// The file name of the core `name`: with the `.exe` suffix on Windows.
pub fn core_file_name(name: &str, windows: bool) -> (r: String)
    ensures
        r@ == core_file(name@, windows),
{
    if windows {
        String::from_str(name).concat(".exe")
    } else {
        String::from_str(name)
    }
}

/// The bundled resources under the application's resource directory.
pub fn resources_dir(resource_root: &str) -> (r: String)
    ensures
        r@ == joined(resource_root@, "resources"@),
{
    join(resource_root, "resources")
}

/// A path as text.
pub fn path_to_str(path: &String) -> (r: &str)
    ensures
        r@ == path@,
{
    path.as_str()
}

} // verus!
