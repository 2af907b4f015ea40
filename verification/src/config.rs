//! Configuration values and the commands that update them. Reading and
//! writing the configuration files, and finding the configuration
//! directory, happen outside the library; the library computes the file
//! paths and the updated values.

use vstd::prelude::*;

verus! {

/// The tool's global configuration.
#[derive(Debug, Clone)]
pub struct AppConfig {
    pub gitlab_token: String,
    pub gitlab_host: String,
}

impl Default for AppConfig {
    /// The configuration used until one is saved: no token yet, and the
    /// team's default host.
    fn default() -> (c: AppConfig)
        ensures
            c.gitlab_token@ == ""@,
            c.gitlab_host@ == "gitlab.example.com"@,
    {
        AppConfig {
            gitlab_token: String::from_str(""),
            gitlab_host: String::from_str("gitlab.example.com"),
        }
    }
}

/// One tracked project: its remote project and group.
#[derive(Debug, Clone, Copy, PartialEq, Eq, Structural)]
pub struct ProjectConfig {
    pub project_id: u64,
    pub group_id: u64,
}

/// The configuration with the host replaced; saving it happens outside
/// the library.
pub fn update_host_command(app_config: &AppConfig, host: &String) -> (r: AppConfig)
    ensures
        r.gitlab_host@ == host@,
        r.gitlab_token@ == app_config.gitlab_token@,
{
    AppConfig { gitlab_token: app_config.gitlab_token.clone(), gitlab_host: host.clone() }
}

/// The configuration with the token replaced; saving it happens outside
/// the library.
pub fn update_token_command(app_config: &AppConfig, token: &String) -> (r: AppConfig)
    ensures
        r.gitlab_token@ == token@,
        r.gitlab_host@ == app_config.gitlab_host@,
{
    AppConfig { gitlab_token: token.clone(), gitlab_host: app_config.gitlab_host.clone() }
}

/// The global configuration file's path under the configuration
/// directory, when one is known.
pub fn get_app_config_file_path(config_dir: Option<String>) -> (r: Option<String>)
    ensures
        match config_dir {
            Some(d) => r matches Some(p) && p@ == d@ + "/server.json"@,
            None => r is None,
        },
{
    match config_dir {
        Some(d) => Some(d.concat("/server.json")),
        None => None,
    }
}

/// The tracked project's configuration file's path under the working
/// directory.
pub fn get_project_config_file_path(dir: &String) -> (r: String)
    ensures
        r@ == dir@ + "/.aworkcli"@,
{
    dir.clone().concat("/.aworkcli")
}

} // verus!
