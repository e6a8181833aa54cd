use vstd::prelude::*;
use crate::path::{join, join_str};
use crate::text::{opt_view, owned};

verus! {

/// The stored login.
pub struct AuthConfig {
    pub session_token: Option<String>,
    pub username: Option<String>,
}

/// Where the Wine prefix, Vortex.exe and the log file live.
pub struct PathConfig {
    pub wine_prefix: String,
    pub vortex_exe: String,
    pub log_file: String,
}

/// The Wine binary, and environment variables set for every launch (see `well_formed`).
pub struct WineConfig {
    pub binary: String,
    pub env: Vec<(String, String)>,
}

impl WineConfig {
    /// The environment sets each variable once: the file holds it as a table keyed by name.
    pub open spec fn well_formed(&self) -> bool {
        forall|i: int, j: int|
            0 <= i < j < self.env@.len() ==> (#[trigger] self.env@[i]).0@ != (
            #[trigger] self.env@[j]).0@
    }
}

/// Launch options.
pub struct LauncherConfig {
    pub filter_wine_noise: bool,
    pub auto_update: bool,
    pub use_esync: bool,
    pub use_fsync: bool,
    pub use_gamemode: bool,
    pub shader_cache: bool,
}

/// The whole configuration (`config.toml`).
pub struct Config {
    pub auth: AuthConfig,
    pub paths: PathConfig,
    pub wine: WineConfig,
    pub launcher: LauncherConfig,
}

/// The user's configuration directory as the `dirs` crate finds it (`dirs::config_dir`).
/// What it returns depends on the environment and the platform; nothing is claimed of it.
/// The library holds paths as text, so a name that is no UTF-8 is converted lossily.
#[verifier::external_body]
fn dirs_config_dir() -> Option<String> {
    dirs::config_dir().map(|p| p.to_string_lossy().into_owned())
}

/// The user's local data directory as the `dirs` crate finds it (`dirs::data_local_dir`).
/// What it returns depends on the environment and the platform; nothing is claimed of it.
/// The library holds paths as text, so a name that is no UTF-8 is converted lossily.
#[verifier::external_body]
pub(crate) fn dirs_data_local_dir() -> Option<String> {
    dirs::data_local_dir().map(|p| p.to_string_lossy().into_owned())
}

/// The user's cache directory as the `dirs` crate finds it (`dirs::cache_dir`).
/// What it returns depends on the environment and the platform; nothing is claimed of it.
/// The library holds paths as text, so a name that is no UTF-8 is converted lossily.
#[verifier::external_body]
pub(crate) fn dirs_cache_dir() -> Option<String> {
    dirs::cache_dir().map(|p| p.to_string_lossy().into_owned())
}

/// The directory `tempest` under `base`, or under `fallback` where there is no base.
pub open spec fn tempest_dir(base: Option<Seq<char>>, fallback: Seq<char>) -> Seq<char> {
    match base {
        Some(b) => join(b, "tempest"@),
        None => join(fallback, "tempest"@),
    }
}

/// The directory `tempest` under `base`, or under `fallback` where there is no base.
pub fn tempest_dir_in(base: Option<String>, fallback: &str) -> (res: String)
    ensures
        res@ == tempest_dir(opt_view(base), fallback@),
{
    match base {
        Some(b) => join_str(b.as_str(), "tempest"),
        None => join_str(fallback, "tempest"),
    }
}

impl Config {
    /// Where the configuration lives: `tempest` in the user's configuration directory, or in
    /// `~/.config` where there is none.
    pub fn config_dir() -> (res: String)
        ensures
            exists|b: Option<Seq<char>>| res@ == tempest_dir(b, "~/.config"@),
    {
        let b = dirs_config_dir();
        let ghost bv = opt_view(b);
        let r = tempest_dir_in(b, "~/.config");
        assert(r@ == tempest_dir(bv, "~/.config"@));
        r
    }

    /// Where the data lives: `tempest` in the user's local data directory, or in
    /// `~/.local/share` where there is none.
    pub fn data_dir() -> (res: String)
        ensures
            exists|b: Option<Seq<char>>| res@ == tempest_dir(b, "~/.local/share"@),
    {
        let b = dirs_data_local_dir();
        let ghost bv = opt_view(b);
        let r = tempest_dir_in(b, "~/.local/share");
        assert(r@ == tempest_dir(bv, "~/.local/share"@));
        r
    }

    /// The configuration file in the configuration directory `dir`.
    pub fn config_file_in(dir: &str) -> (res: String)
        ensures
            res@ == join(dir@, "config.toml"@),
    {
        join_str(dir, "config.toml")
    }
}

impl PathConfig {
    /// The prefix, Vortex.exe and the log file under the data directory `data`.
    pub fn in_data_dir(data: &str) -> (res: PathConfig)
        ensures
            res.wine_prefix@ == join(data@, "prefix"@),
            res.vortex_exe@ == join(data@, "Vortex.exe"@),
            res.log_file@ == join(data@, "tempest.log"@),
    {
        PathConfig {
            wine_prefix: join_str(data, "prefix"),
            vortex_exe: join_str(data, "Vortex.exe"),
            log_file: join_str(data, "tempest.log"),
        }
    }
}

impl Default for AuthConfig {
    /// Not logged in.
    fn default() -> (res: AuthConfig)
        ensures
            res.session_token is None,
            res.username is None,
    {
        AuthConfig { session_token: None, username: None }
    }
}

impl Default for PathConfig {
    /// The prefix, Vortex.exe and the log file under the data directory.
    fn default() -> (res: PathConfig)
        ensures
            exists|d: Seq<char>|
                res.wine_prefix@ == join(d, "prefix"@) && res.vortex_exe@ == join(
                    d,
                    "Vortex.exe"@,
                ) && res.log_file@ == join(d, "tempest.log"@),
    {
        let d = Config::data_dir();
        PathConfig::in_data_dir(d.as_str())
    }
}

impl Default for WineConfig {
    /// The `wine` on the `PATH`, with no extra environment.
    fn default() -> (res: WineConfig)
        ensures
            res.binary@ == "wine"@,
            res.env@.len() == 0,
            res.well_formed(),
    {
        WineConfig { binary: owned("wine"), env: Vec::new() }
    }
}

impl Default for LauncherConfig {
    /// Noise filtered, updates on, esync, fsync and the shader cache on, GameMode off.
    fn default() -> (res: LauncherConfig)
        ensures
            res.filter_wine_noise,
            res.auto_update,
            res.use_esync,
            res.use_fsync,
            !res.use_gamemode,
            res.shader_cache,
    {
        LauncherConfig {
            filter_wine_noise: true,
            auto_update: true,
            use_esync: true,
            use_fsync: true,
            use_gamemode: false,
            shader_cache: true,
        }
    }
}

impl Default for Config {
    /// Each part at its default.
    fn default() -> (res: Config)
        ensures
            res.auth.session_token is None,
            res.auth.username is None,
            exists|d: Seq<char>|
                res.paths.wine_prefix@ == join(d, "prefix"@) && res.paths.vortex_exe@ == join(
                    d,
                    "Vortex.exe"@,
                ) && res.paths.log_file@ == join(d, "tempest.log"@),
            res.wine.binary@ == "wine"@,
            res.wine.env@.len() == 0,
            res.wine.well_formed(),
            res.launcher.filter_wine_noise,
            res.launcher.auto_update,
            res.launcher.use_esync,
            res.launcher.use_fsync,
            !res.launcher.use_gamemode,
            res.launcher.shader_cache,
    {
        Config {
            auth: AuthConfig::default(),
            paths: PathConfig::default(),
            wine: WineConfig::default(),
            launcher: LauncherConfig::default(),
        }
    }
}

} // verus!
