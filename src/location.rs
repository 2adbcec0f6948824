use vstd::prelude::*;

use crate::materialize::{join_path, join_view};
use crate::registry::StoreError;

verus! {

/// The environment values that decide where user templates live.
pub struct ConfigEnv {
    pub windows: bool,
    pub appdata: Option<String>,
    pub xdg_config_home: Option<String>,
    pub home: Option<String>,
}

pub open spec fn namespaced(base: Seq<char>) -> Seq<char> {
    join_view(join_view(base, "forge"@), "templates"@)
}

/// The user template directory: under `%APPDATA%` on Windows or
/// `$XDG_CONFIG_HOME` elsewhere, else under `$HOME/.config`.
pub open spec fn templates_dir_of(env: ConfigEnv) -> Option<Seq<char>> {
    let platform = if env.windows { env.appdata } else { env.xdg_config_home };
    match platform {
        Some(p) => Some(namespaced(p@)),
        None => match env.home {
            Some(h) => Some(namespaced(join_view(h@, ".config"@))),
            None => None,
        },
    }
}

pub fn get_user_templates_dir(env: &ConfigEnv) -> (r: Result<String, StoreError>)
    ensures
        r is Ok <==> templates_dir_of(*env) is Some,
        r matches Ok(d) ==> d@ == templates_dir_of(*env)->Some_0,
        r matches Err(e) ==> e is NoConfigDir,
{
    let platform = if env.windows { &env.appdata } else { &env.xdg_config_home };
    let base = match platform {
        Some(p) => String::from_str(p.as_str()),
        None => match &env.home {
            Some(h) => join_path(h.as_str(), ".config"),
            None => {
                return Err(StoreError::NoConfigDir);
            },
        },
    };
    let d = join_path(base.as_str(), "forge");
    Ok(join_path(d.as_str(), "templates"))
}

/// The consolidated override file inside the user template directory.
pub fn get_user_local_templates_file(env: &ConfigEnv) -> (r: Result<String, StoreError>)
    ensures
        r is Ok <==> templates_dir_of(*env) is Some,
        r matches Ok(f) ==> f@ == join_view(templates_dir_of(*env)->Some_0, "local_templates.json"@),
        r matches Err(e) ==> e is NoConfigDir,
{
    let dir = get_user_templates_dir(env)?;
    Ok(join_path(dir.as_str(), "local_templates.json"))
}

} // verus!
