use vstd::prelude::*;
use crate::config::{Config, LauncherConfig};
use crate::num::{decimal, u64_to_string};
use crate::path::{join, join_exec, join_str, parent_of, path_parent};
use crate::text::{contains, contains_str, extend_str, from_chars, owned, to_chars};
use crate::uri::{parse_vortex_uri, vortex_uri};

verus! {

/// The speed-ups a launch runs with, as shown: `fsync` (else `esync`), `gamemode`,
/// `shader-cache`, separated by spaces, or `none`.
pub open spec fn perf_items(l: LauncherConfig, use_gamemode: bool) -> Seq<Seq<char>> {
    let s1: Seq<Seq<char>> = if l.use_fsync {
        seq!["fsync"@]
    } else if l.use_esync {
        seq!["esync"@]
    } else {
        Seq::empty()
    };
    let s2 = if use_gamemode {
        s1.push("gamemode"@)
    } else {
        s1
    };
    if l.shader_cache {
        s2.push("shader-cache"@)
    } else {
        s2
    }
}

/// The words joined with single spaces.
pub open spec fn join_words(ws: Seq<Seq<char>>) -> Seq<char>
    decreases ws.len(),
{
    if ws.len() == 0 {
        Seq::empty()
    } else if ws.len() == 1 {
        ws[0]
    } else {
        join_words(ws.drop_last()) + " "@ + ws.last()
    }
}

pub open spec fn perf_text(l: LauncherConfig, use_gamemode: bool) -> Seq<char> {
    let items = perf_items(l, use_gamemode);
    if items.len() == 0 {
        "none"@
    } else {
        join_words(items)
    }
}

/// The speed-ups that a launch with this configuration runs with, as shown to the user.
pub fn perf_summary(config: &Config, use_gamemode: bool) -> (res: String)
    ensures
        res@ == perf_text(config.launcher, use_gamemode),
{
    let l = &config.launcher;
    let mut active: Vec<&str> = Vec::new();
    if l.use_fsync {
        active.push("fsync");
    } else if l.use_esync {
        active.push("esync");
    }
    if use_gamemode {
        active.push("gamemode");
    }
    if l.shader_cache {
        active.push("shader-cache");
    }
    let ghost items = perf_items(config.launcher, use_gamemode);
    assert(active@.map_values(|s: &str| s@) =~= items);
    if active.len() == 0 {
        return owned("none");
    }
    let mut v = to_chars(active[0]);
    let mut i: usize = 1;
    assert(items.take(1) =~= seq![items[0]]);
    while i < active.len()
        invariant
            1 <= i <= active.len(),
            active@.map_values(|s: &str| s@) == items,
            v@ == join_words(items.take(i as int)),
        decreases active.len() - i,
    {
        assert(items.take(i as int + 1).drop_last() =~= items.take(i as int));
        assert(items[i as int] == active@[i as int]@);
        extend_str(&mut v, " ");
        extend_str(&mut v, active[i]);
        i = i + 1;
    }
    assert(items.take(active.len() as int) =~= items);
    from_chars(&v)
}

/// The markers of Wine output lines that are only noise.
pub open spec fn noise_patterns() -> Seq<Seq<char>> {
    seq![
        "fixme:"@,
        "libEGL warning"@,
        "pci id for fd"@,
        "wine-staging"@,
        "experimental patches"@,
        "DxgiFactory::QueryInterface"@,
        "DxgiAdapter::QueryInterface"@,
        "create_factory_media"@,
        "EnableNonClientDpiScaling"@,
        "DwmSetWindowAttribute"@,
    ]
}

/// A Wine output line is noise when it contains one of the markers.
pub open spec fn is_noise_line(line: Seq<char>) -> bool {
    exists|i: int| 0 <= i < noise_patterns().len() && contains(line, #[trigger] noise_patterns()[i])
}

/// Whether a line of Wine output is only noise.
pub fn is_noise(line: &str) -> (res: bool)
    ensures
        res == is_noise_line(line@),
{
    let v = to_chars(line);
    let pats: Vec<&str> = vec![
        "fixme:",
        "libEGL warning",
        "pci id for fd",
        "wine-staging",
        "experimental patches",
        "DxgiFactory::QueryInterface",
        "DxgiAdapter::QueryInterface",
        "create_factory_media",
        "EnableNonClientDpiScaling",
        "DwmSetWindowAttribute",
    ];
    assert(pats@.map_values(|s: &str| s@) =~= noise_patterns());
    let mut i: usize = 0;
    while i < pats.len()
        invariant
            i <= pats.len(),
            pats@.map_values(|s: &str| s@) == noise_patterns(),
            forall|j: int| 0 <= j < i ==> !contains(v@, #[trigger] noise_patterns()[j]),
            v@ == line@,
        decreases pats.len() - i,
    {
        assert(noise_patterns()[i as int] == pats@[i as int]@);
        if contains_str(&v, pats[i]) {
            return true;
        }
        i = i + 1;
    }
    false
}

/// With filtering on, Wine's `fixme:` lines and libEGL warnings are never shown.
pub proof fn lemma_fixme_and_egl_hidden(line: Seq<char>)
    requires
        contains(line, "fixme:"@) || contains(line, "libEGL warning"@),
    ensures
        is_noise_line(line),
{
    if contains(line, "fixme:"@) {
        assert(noise_patterns()[0] == "fixme:"@);
    } else {
        assert(noise_patterns()[1] == "libEGL warning"@);
    }
}

/// Whether a line of Wine output is shown: noise is hidden where filtering is on.
pub fn shows_line(filter: bool, line: &str) -> (res: bool)
    ensures
        res == !(filter && is_noise_line(line@)),
{
    !(filter && is_noise(line))
}

/// A command to run: the program, its arguments, and environment variables set for it.
#[derive(Debug, Clone, PartialEq, Eq)]
pub struct CommandSpec {
    pub program: String,
    pub args: Vec<String>,
    pub env: Vec<(String, String)>,
}

/// The views of key/value pairs.
pub open spec fn env_view(e: Seq<(String, String)>) -> Seq<(Seq<char>, Seq<char>)> {
    e.map_values(|p: (String, String)| (p.0@, p.1@))
}

/// The views of strings.
pub open spec fn strs_view(a: Seq<String>) -> Seq<Seq<char>> {
    a.map_values(|s: String| s@)
}

/// The environment that a launch sets before the user's own variables.
pub open spec fn launch_env(c: Config, shader_cache_dir: Seq<char>) -> Seq<(Seq<char>, Seq<char>)> {
    let e1 = seq![("WINEPREFIX"@, c.paths.wine_prefix@), ("WGPU_BACKEND"@, "vulkan"@)];
    let e2 = if c.launcher.use_esync {
        e1.push(("WINEESYNC"@, "1"@))
    } else {
        e1
    };
    let e3 = if c.launcher.use_fsync {
        e2.push(("WINEFSYNC"@, "1"@))
    } else {
        e2
    };
    if c.launcher.shader_cache {
        e3.push(("VKD3D_SHADER_CACHE_PATH"@, shader_cache_dir))
    } else {
        e3
    }
}

/// The command that launches Vortex.exe with the URI `uri` under Wine (through `gamemoderun`
/// where GameMode is used), with the prefix, the Vulkan backend, esync, fsync and the shader
/// cache set as configured, and then the user's own variables.
pub fn build_wine_command(config: &Config, uri: &str, use_gamemode: bool, shader_cache_dir: &str)
    -> (res: CommandSpec)
    ensures
        use_gamemode ==> res.program@ == "gamemoderun"@ && strs_view(res.args@) == seq![
            config.wine.binary@,
            config.paths.vortex_exe@,
            uri@,
        ],
        !use_gamemode ==> res.program@ == config.wine.binary@ && strs_view(res.args@) == seq![
            config.paths.vortex_exe@,
            uri@,
        ],
        env_view(res.env@) == launch_env(*config, shader_cache_dir@) + env_view(config.wine.env@),
{
    let mut args: Vec<String> = Vec::new();
    let program = if use_gamemode {
        args.push(config.wine.binary.clone());
        owned("gamemoderun")
    } else {
        config.wine.binary.clone()
    };
    args.push(config.paths.vortex_exe.clone());
    args.push(owned(uri));
    let mut env: Vec<(String, String)> = Vec::new();
    env.push((owned("WINEPREFIX"), config.paths.wine_prefix.clone()));
    env.push((owned("WGPU_BACKEND"), owned("vulkan")));
    if config.launcher.use_esync {
        env.push((owned("WINEESYNC"), owned("1")));
    }
    if config.launcher.use_fsync {
        env.push((owned("WINEFSYNC"), owned("1")));
    }
    if config.launcher.shader_cache {
        env.push((owned("VKD3D_SHADER_CACHE_PATH"), owned(shader_cache_dir)));
    }
    assert(env_view(env@) =~= launch_env(*config, shader_cache_dir@));
    let ghost base = env@;
    let mut i: usize = 0;
    while i < config.wine.env.len()
        invariant
            i <= config.wine.env.len(),
            env_view(env@) == env_view(base) + env_view(config.wine.env@.take(i as int)),
        decreases config.wine.env.len() - i,
    {
        let (k, v) = &config.wine.env[i];
        let ghost before = env@;
        let kc = k.clone();
        let vc = v.clone();
        env.push((kc, vc));
        assert(env_view(env@) =~= env_view(before).push((k@, v@)));
        assert(config.wine.env@[i as int] == (*k, *v));
        assert(env_view(config.wine.env@.take(i as int + 1)) =~= env_view(
            config.wine.env@.take(i as int),
        ).push((k@, v@)));
        assert(env_view(env@) =~= env_view(base) + env_view(config.wine.env@.take(i as int + 1)));
        i = i + 1;
    }
    assert(config.wine.env@.take(config.wine.env.len() as int) =~= config.wine.env@);
    assert(strs_view(args@) =~= (if use_gamemode {
        seq![config.wine.binary@, config.paths.vortex_exe@, uri@]
    } else {
        seq![config.paths.vortex_exe@, uri@]
    }));
    CommandSpec { program, args, env }
}

/// The shader cache directory: `vortex-shaders` in the user's cache directory, or in
/// `$HOME/.cache` where there is none.
pub open spec fn shader_cache_text(cache: Option<Seq<char>>, home: Seq<char>) -> Seq<char> {
    match cache {
        Some(c) => join(c, "vortex-shaders"@),
        None => join(home + "/.cache"@, "vortex-shaders"@),
    }
}

/// The shader cache directory for the cache directory `cache` and the home directory `home`.
pub fn shader_cache_dir_in(cache: Option<String>, home: &str) -> (res: String)
    ensures
        res@ == shader_cache_text(crate::text::opt_view(cache), home@),
{
    match cache {
        Some(c) => join_str(c.as_str(), "vortex-shaders"),
        None => {
            let mut h = to_chars(home);
            extend_str(&mut h, "/.cache");
            join_str(from_chars(&h).as_str(), "vortex-shaders")
        },
    }
}

/// The shader cache directory, `home` standing in where the user has no cache directory.
pub fn shader_cache_dir(home: &str) -> (res: String)
    ensures
        exists|c: Option<Seq<char>>| res@ == shader_cache_text(c, home@),
{
    let c = crate::config::dirs_cache_dir();
    let ghost cv = crate::text::opt_view(c);
    let r = shader_cache_dir_in(c, home);
    assert(r@ == shader_cache_text(cv, home@));
    r
}

/// Whether the program `name` is found on the `PATH` (`which::which(name).is_ok()`).
/// What it returns depends on the environment; nothing is claimed of it.
#[verifier::external_body]
fn on_path(name: &str) -> bool {
    which::which(name).is_ok()
}

/// The program that runs a game under GameMode, looked up on the `PATH`.
pub fn gamemode_program() -> (res: &'static str)
    ensures
        res@ == "gamemoderun"@,
{
    "gamemoderun"
}

/// Whether a launch uses GameMode: only where the configuration asks for it, and then where
/// `gamemoderun` is found on the `PATH`.
pub fn detect_gamemode(config: &Config) -> (res: bool)
    ensures
        res ==> config.launcher.use_gamemode,
{
    let found = if config.launcher.use_gamemode {
        on_path(gamemode_program())
    } else {
        false
    };
    gamemode_enabled(config, found)
}

/// Whether a launch uses GameMode: configured, and `gamemoderun` found.
pub fn gamemode_enabled(config: &Config, gamemoderun_found: bool) -> (res: bool)
    ensures
        res == (config.launcher.use_gamemode && gamemoderun_found),
{
    config.launcher.use_gamemode && gamemoderun_found
}

/// The game a launch URI is for, as shown: its game id, or `?` where it does not parse.
pub open spec fn game_label_text(uri: Seq<char>) -> Seq<char> {
    match vortex_uri(uri) {
        Some(v) => decimal(v.0 as nat),
        None => "?"@,
    }
}

/// The game a launch URI is for, as shown.
pub fn game_label(uri: &str) -> (res: String)
    ensures
        res@ == game_label_text(uri@),
{
    match parse_vortex_uri(uri) {
        Some((id, _)) => u64_to_string(id as u64),
        None => owned("?"),
    }
}

/// The receiver that Vortex.exe talks to: `receiver.exe` beside it.
pub open spec fn receiver_text(vortex_exe: Seq<char>) -> Seq<char> {
    match parent_of(vortex_exe) {
        Some(p) => join(p, "receiver.exe"@),
        None => join("."@, "receiver.exe"@),
    }
}

/// Where `receiver.exe` is looked for: beside Vortex.exe.
pub fn receiver_path(config: &Config) -> (res: String)
    ensures
        res@ == receiver_text(config.paths.vortex_exe@),
{
    receiver_path_in(path_parent(config.paths.vortex_exe.as_str()))
}

/// `receiver.exe` in the directory `dir` of Vortex.exe, or in `.` where there is none.
pub fn receiver_path_in(dir: Option<String>) -> (res: String)
    ensures
        res@ == match crate::text::opt_view(dir) {
            Some(p) => join(p, "receiver.exe"@),
            None => join("."@, "receiver.exe"@),
        },
{
    match dir {
        Some(p) => join_str(p.as_str(), "receiver.exe"),
        None => join_str(".", "receiver.exe"),
    }
}

/// The command that starts `receiver.exe` under Wine in the prefix, with Wine's debug output
/// off.
pub fn receiver_command(config: &Config, receiver: &str) -> (res: CommandSpec)
    ensures
        res.program@ == config.wine.binary@,
        strs_view(res.args@) == seq![receiver@],
        env_view(res.env@) == seq![
            ("WINEPREFIX"@, config.paths.wine_prefix@),
            ("WINEDEBUG"@, "-all"@),
        ],
{
    let mut args: Vec<String> = Vec::new();
    args.push(owned(receiver));
    let mut env: Vec<(String, String)> = Vec::new();
    env.push((owned("WINEPREFIX"), config.paths.wine_prefix.clone()));
    env.push((owned("WINEDEBUG"), owned("-all")));
    assert(strs_view(args@) =~= seq![receiver@]);
    assert(env_view(env@) =~= seq![
        ("WINEPREFIX"@, config.paths.wine_prefix@),
        ("WINEDEBUG"@, "-all"@),
    ]);
    CommandSpec { program: config.wine.binary.clone(), args, env }
}

/// What the receiver step does.
#[derive(Debug, Clone, Copy, PartialEq, Eq)]
pub enum ReceiverAction {
    /// `receiver.exe` is missing: warn, and launch without it.
    Missing,
    /// A receiver is already running: leave it.
    AlreadyRunning,
    /// Start it.
    Start,
}

/// What to do about `receiver.exe`, given whether it exists and whether one is running.
pub fn receiver_action(exists: bool, running: bool) -> (res: ReceiverAction)
    ensures
        !exists ==> res is Missing,
        exists && running ==> res is AlreadyRunning,
        exists && !running ==> res is Start,
{
    if !exists {
        ReceiverAction::Missing
    } else if running {
        ReceiverAction::AlreadyRunning
    } else {
        ReceiverAction::Start
    }
}

/// How a game session ended.
#[derive(Debug, Clone, Copy, PartialEq, Eq)]
pub enum ExitOutcome {
    /// Wine exited with code 0.
    Clean,
    /// Wine exited with another code.
    Failed(i32),
    /// Wine was ended by a signal.
    Signalled,
}

/// How a game session ended, from Wine's exit code (none: ended by a signal).
pub fn exit_outcome(code: Option<i32>) -> (res: ExitOutcome)
    ensures
        code == Some(0i32) ==> res is Clean,
        code matches Some(c) ==> (c != 0 ==> res == ExitOutcome::Failed(c)),
        code is None ==> res is Signalled,
{
    match code {
        Some(0) => ExitOutcome::Clean,
        Some(c) => ExitOutcome::Failed(c),
        None => ExitOutcome::Signalled,
    }
}

} // verus!
