use crate::text::{chars_of, text_of};
use vstd::prelude::*;
use vstd::string::*;

verus! {

/// The identity of the tracked accessory: the vendor and product identifiers
/// that its device properties are compared with.
#[derive(Debug, Clone)]
pub struct DeviceConfig {
    pub vendor_id: String,
    pub product_id: String,
}

/// The configuration: the scale of the logical monitors, as the decimal text
/// that is handed to the display tool, and the accessory's identity.
#[derive(Debug, Clone)]
pub struct Config {
    pub scale: String,
    pub device: DeviceConfig,
}

impl Default for Config {
    fn default() -> (config: Self)
        ensures
            config.scale@ == "1.5"@,
            config.device.vendor_id@ == "b05"@,
            config.device.product_id@ == "1bf2"@,
    {
        Config {
            scale: "1.5".to_owned(),
            device: DeviceConfig { vendor_id: "b05".to_owned(), product_id: "1bf2".to_owned() },
        }
    }
}

/// `base` extended by the relative path `part`: a separator is put between
/// the two unless `base` is empty or ends with one.
pub open spec fn joined(base: Seq<char>, part: Seq<char>) -> Seq<char> {
    if base.len() > 0 && base.last() != '/' {
        base + "/"@ + part
    } else {
        base + part
    }
}

/// The configuration file inside the configuration directory `dir`.
pub open spec fn config_file_in(dir: Seq<char>) -> Seq<char> {
    joined(dir, "config.toml"@)
}

/// The configuration file of a user whose home directory is `home`.
pub open spec fn config_file_under(home: Seq<char>) -> Seq<char> {
    config_file_in(joined(joined(home, ".config"@), "zenbook-duo"@))
}

/// Where the configuration file is looked for: under the home directory
/// given by the caller where there is one, else in the project's
/// configuration directory where it is known, else under the home directory
/// of the environment.
pub open spec fn resolved_config_path(
    home_override: Option<Seq<char>>,
    project_dir: Option<Seq<char>>,
    env_home: Option<Seq<char>>,
) -> Option<Seq<char>> {
    match (home_override, project_dir, env_home) {
        (Some(home), _, _) => Some(config_file_under(home)),
        (None, Some(dir), _) => Some(config_file_in(dir)),
        (None, None, Some(home)) => Some(config_file_under(home)),
        (None, None, None) => None,
    }
}

/// The path `base` extended by the relative path `part`.
pub fn join(base: String, part: &str) -> (out: String)
    ensures
        out@ == joined(base@, part@),
{
    let chars = chars_of(base.as_str());
    let mut out = base;
    if chars.len() > 0 && chars[chars.len() - 1] != '/' {
        out.append("/");
    }
    out.append(part);
    out
}

/// The configuration file of a user whose home directory is `home`.
pub fn config_file_under_home(home: String) -> (out: String)
    ensures
        out@ == config_file_under(home@),
{
    join(join(join(home, ".config"), "zenbook-duo"), "config.toml")
}

/// The configuration file's path, from what is known of the user's
/// directories.
pub fn config_path_from(
    home_override: Option<String>,
    project_dir: Option<String>,
    env_home: Option<String>,
) -> (path: Option<String>)
    ensures
        text_of(path) == resolved_config_path(
            text_of(home_override),
            text_of(project_dir),
            text_of(env_home),
        ),
{
    match home_override {
        Some(home) => Some(config_file_under_home(home)),
        None => match project_dir {
            Some(dir) => Some(join(dir, "config.toml")),
            None => match env_home {
                Some(home) => Some(config_file_under_home(home)),
                None => None,
            },
        },
    }
}

/// Asks `directories::ProjectDirs::from`, with an empty qualifier and
/// organization, for the directories of `application`, and gives the
/// `config_dir` of the answer as text; `None` where there is no answer or the
/// directory is no Unicode text. The answer depends on the user's
/// environment, so nothing is claimed of it.
#[verifier::external_body]
fn project_config_dir(application: &str) -> (dir: Option<String>) {
    match directories::ProjectDirs::from("", "", application) {
        Some(dirs) => match dirs.config_dir().to_str() {
            Some(text) => Some(text.to_string()),
            None => None,
        },
        None => None,
    }
}

/// The configuration file's path for a user. With `home_override` the path
/// lies under that directory and nothing else is consulted. Without it the
/// project's configuration directory is asked for, and `env_home`, the home
/// directory that the environment names, serves where there is none.
pub fn get_config_path_for_home(home_override: Option<String>, env_home: Option<String>) -> (path:
    Option<String>)
    ensures
        home_override is Some ==> text_of(path) == Some(
            config_file_under(home_override.unwrap()@),
        ),
        exists|project_dir: Option<Seq<char>>|
            text_of(path) == resolved_config_path(
                text_of(home_override),
                project_dir,
                text_of(env_home),
            ),
        path is None ==> home_override is None && env_home is None,
{
    if home_override.is_some() {
        let path = config_path_from(home_override, None, env_home);
        proof {
            assert(text_of(path) == resolved_config_path(
                text_of(home_override),
                None,
                text_of(env_home),
            ));
        }
        path
    } else {
        let project_dir = project_config_dir("zenbook-duo");
        let path = config_path_from(None, project_dir, env_home);
        proof {
            assert(text_of(path) == resolved_config_path(
                text_of(home_override),
                text_of(project_dir),
                text_of(env_home),
            ));
        }
        path
    }
}

/// The configuration file's path where no home directory is imposed.
pub fn get_config_path(env_home: Option<String>) -> (path: Option<String>)
    ensures
        exists|project_dir: Option<Seq<char>>|
            text_of(path) == resolved_config_path(None, project_dir, text_of(env_home)),
        path is None ==> env_home is None,
{
    get_config_path_for_home(None, env_home)
}

} // verus!
