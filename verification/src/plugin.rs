use vstd::prelude::*;
use crate::config::Config;
use crate::launcher::env_view;
use crate::order::{is_sorted, sort_strings, string_views};
use crate::path::{join, join_str};
use crate::text::{chars_eq_str, contains, contains_str, extend_str, from_chars, opt_view, owned, to_chars};

verus! {

/// What is on disk of the plugins.
pub struct PluginState {
    /// The names of the directories under `plugins/`.
    pub dirs: Vec<String>,
    /// `fps-unlocker/libVkLayer_vortstrap_present_mode.so` exists.
    pub fps_layer_so: bool,
    /// `fps-unlocker/VkLayer_vortstrap_present_mode.json` exists.
    pub fps_layer_json: bool,
    /// `fps-unlocker/fps-unlocker` is a regular file.
    pub fps_binary_is_file: bool,
    /// `vortex-optim/vortex-optim` exists.
    pub optim_binary: bool,
    /// `vortex-optim/vortex-optim` is a regular file.
    pub optim_binary_is_file: bool,
}

/// The directory that holds the plugins, in the data directory `data`.
pub open spec fn plugins_root(data: Seq<char>) -> Seq<char> {
    join(data, "plugins"@)
}

/// The directory of plugin `name` in the data directory `data`.
pub open spec fn plugin_dir_text(data: Seq<char>, name: Seq<char>) -> Seq<char> {
    join(plugins_root(data), name)
}

/// The directory of plugin `name` in the data directory `data`.
pub fn plugin_dir_in(data: &str, name: &str) -> (res: String)
    ensures
        res@ == plugin_dir_text(data@, name@),
{
    let root = join_str(data, "plugins");
    join_str(root.as_str(), name)
}

/// The directory of plugin `name` in the data directory.
pub fn plugin_dir(name: &str) -> (res: String)
    ensures
        exists|d: Seq<char>| res@ == plugin_dir_text(d, name@),
{
    let d = Config::data_dir();
    plugin_dir_in(d.as_str(), name)
}

/// The plugin directories, sorted (as listed under `plugins/`).
pub fn installed_plugins(dirs: Vec<String>) -> (res: Vec<String>)
    ensures
        is_sorted(string_views(res@)),
        string_views(res@).to_multiset() == string_views(dirs@).to_multiset(),
{
    sort_strings(dirs)
}

/// All files of a known plugin are in place.
pub open spec fn complete(st: PluginState, name: Seq<char>) -> bool {
    if name == "fps-unlocker"@ {
        st.fps_layer_so && st.fps_layer_json
    } else if name == "vortex-optim"@ {
        st.optim_binary
    } else {
        false
    }
}

/// Whether all files of the plugin are in place (only the known plugins can be).
pub fn is_installed(st: &PluginState, name: &str) -> (res: bool)
    ensures
        res == complete(*st, name@),
{
    let n = to_chars(name);
    if chars_eq_str(&n, "fps-unlocker") {
        st.fps_layer_so && st.fps_layer_json
    } else if chars_eq_str(&n, "vortex-optim") {
        st.optim_binary
    } else {
        false
    }
}

/// The plugin has a directory.
pub open spec fn has_dir(st: PluginState, name: Seq<char>) -> bool {
    string_views(st.dirs@).contains(name)
}

fn has_dir_exec(st: &PluginState, name: &str) -> (res: bool)
    ensures
        res == has_dir(*st, name@),
{
    let n = to_chars(name);
    let ghost dv = string_views(st.dirs@);
    let mut i: usize = 0;
    while i < st.dirs.len()
        invariant
            i <= st.dirs.len(),
            n@ == name@,
            dv == string_views(st.dirs@),
            forall|j: int| 0 <= j < i ==> dv[j] != name@,
        decreases st.dirs.len() - i,
    {
        let d = to_chars(st.dirs[i].as_str());
        if chars_eq_str(&d, name) {
            assert(dv[i as int] == name@);
            return true;
        }
        i = i + 1;
    }
    false
}

/// The plugin is installed: it has a directory and all its files are in place.
pub open spec fn is_usable(st: PluginState, name: Seq<char>) -> bool {
    has_dir(st, name) && complete(st, name)
}

/// Whether the plugin is installed: it has a directory and all its files are in place.
pub fn installed(st: &PluginState, name: &str) -> (res: bool)
    ensures
        res == is_usable(*st, name@),
{
    has_dir_exec(st, name) && is_installed(st, name)
}

/// The plugin's binary is a regular file.
pub open spec fn binary_is_file(st: PluginState, name: Seq<char>) -> bool {
    if name == "fps-unlocker"@ {
        st.fps_binary_is_file
    } else if name == "vortex-optim"@ {
        st.optim_binary_is_file
    } else {
        false
    }
}

/// The binary of an installed plugin: the file named after it in its directory.
pub open spec fn binary_text(st: PluginState, data: Seq<char>, name: Seq<char>) -> Option<Seq<char>> {
    if is_usable(st, name) && binary_is_file(st, name) {
        Some(join(plugin_dir_text(data, name), name))
    } else {
        None
    }
}

/// The binary of an installed plugin, in the data directory `data`: the regular file named
/// after the plugin in its directory; none where the plugin is not installed or has none.
pub fn binary_path(st: &PluginState, data: &str, name: &str) -> (res: Option<String>)
    ensures
        opt_view(res) == binary_text(*st, data@, name@),
{
    if !installed(st, name) {
        return None;
    }
    let n = to_chars(name);
    let is_file = if chars_eq_str(&n, "fps-unlocker") {
        st.fps_binary_is_file
    } else if chars_eq_str(&n, "vortex-optim") {
        st.optim_binary_is_file
    } else {
        false
    };
    if is_file {
        let dir = plugin_dir_in(data, name);
        Some(join_str(dir.as_str(), name))
    } else {
        None
    }
}

/// The default DXVK settings that the optimiser plugin asks for.
pub open spec fn dxvk_async() -> Seq<char> {
    "dxvk.enableAsync=true,dxvk.numCompilerThreads=2"@
}

/// The `DXVK_CONFIG` that the optimiser plugin sets: the user's (or the default), with async
/// compilation appended unless it is already configured.
pub open spec fn dxvk_config_text(user: Option<Seq<char>>) -> Seq<char> {
    let d = match user {
        Some(u) => u,
        None => dxvk_async(),
    };
    if contains(d, "dxvk.enableAsync"@) {
        d
    } else {
        d + ","@ + dxvk_async()
    }
}

/// The environment that installed plugins add to a launch: the present-mode layer of
/// `fps-unlocker` (where its layer library exists), then the settings of `vortex-optim`
/// (where it is installed).
pub open spec fn plugin_env(
    st: PluginState,
    data: Seq<char>,
    present_mode: Option<Seq<char>>,
    dxvk_config: Option<Seq<char>>,
) -> Seq<(Seq<char>, Seq<char>)> {
    let fps: Seq<(Seq<char>, Seq<char>)> = if has_dir(st, "fps-unlocker"@) && st.fps_layer_so {
        seq![
            ("VK_ADD_IMPLICIT_LAYER_PATH"@, join(plugins_root(data), "fps-unlocker"@)),
            ("VORTSTRAP_FORCE_PRESENT"@, "1"@),
            ("VORTSTRAP_PRESENT_MODE"@, match present_mode {
                Some(p) => p,
                None => "0"@,
            }),
        ]
    } else {
        Seq::empty()
    };
    let optim: Seq<(Seq<char>, Seq<char>)> = if has_dir(st, "vortex-optim"@) && complete(
        st,
        "vortex-optim"@,
    ) {
        seq![
            ("DXVK_STATE_CACHE"@, "1"@),
            ("mesa_glthread"@, "true"@),
            ("MESA_NO_DITHER"@, "1"@),
            ("DXVK_CONFIG"@, dxvk_config_text(dxvk_config)),
        ]
    } else {
        Seq::empty()
    };
    fps + optim
}

/// The environment variables that the installed plugins add to a launch, given the data
/// directory and the user's `VORTSTRAP_PRESENT_MODE` and `DXVK_CONFIG`, where set.
pub fn env_vars(
    st: &PluginState,
    data: &str,
    present_mode: Option<String>,
    dxvk_config: Option<String>,
) -> (res: Vec<(String, String)>)
    ensures
        env_view(res@) == plugin_env(*st, data@, opt_view(present_mode), opt_view(dxvk_config)),
{
    let ghost pm = opt_view(present_mode);
    let ghost dc = opt_view(dxvk_config);
    let mut vars: Vec<(String, String)> = Vec::new();
    let root = join_str(data, "plugins");
    if has_dir_exec(st, "fps-unlocker") && st.fps_layer_so {
        vars.push((owned("VK_ADD_IMPLICIT_LAYER_PATH"), join_str(root.as_str(), "fps-unlocker")));
        vars.push((owned("VORTSTRAP_FORCE_PRESENT"), owned("1")));
        let mode = match present_mode {
            Some(p) => p,
            None => owned("0"),
        };
        vars.push((owned("VORTSTRAP_PRESENT_MODE"), mode));
    }
    let ghost fps = env_view(vars@);
    assert(fps =~= (if has_dir(*st, "fps-unlocker"@) && st.fps_layer_so {
        seq![
            ("VK_ADD_IMPLICIT_LAYER_PATH"@, join(plugins_root(data@), "fps-unlocker"@)),
            ("VORTSTRAP_FORCE_PRESENT"@, "1"@),
            ("VORTSTRAP_PRESENT_MODE"@, match pm {
                Some(p) => p,
                None => "0"@,
            }),
        ]
    } else {
        Seq::empty()
    }));
    if has_dir_exec(st, "vortex-optim") && is_installed(st, "vortex-optim") {
        vars.push((owned("DXVK_STATE_CACHE"), owned("1")));
        vars.push((owned("mesa_glthread"), owned("true")));
        vars.push((owned("MESA_NO_DITHER"), owned("1")));
        let d = match dxvk_config {
            Some(u) => u,
            None => owned("dxvk.enableAsync=true,dxvk.numCompilerThreads=2"),
        };
        let dv = to_chars(d.as_str());
        proof {
            reveal_strlit(",dxvk.enableAsync=true,dxvk.numCompilerThreads=2");
            reveal_strlit(",");
            reveal_strlit("dxvk.enableAsync=true,dxvk.numCompilerThreads=2");
        }
        assert(dv@ == match dc {
            Some(u) => u,
            None => dxvk_async(),
        });
        let value = if contains_str(&dv, "dxvk.enableAsync") {
            d
        } else {
            let mut w = dv;
            extend_str(&mut w, ",dxvk.enableAsync=true,dxvk.numCompilerThreads=2");
            assert(",dxvk.enableAsync=true,dxvk.numCompilerThreads=2"@ =~= ","@ + dxvk_async());
            from_chars(&w)
        };
        assert(value@ == dxvk_config_text(dc));
        let ghost before = env_view(vars@);
        vars.push((owned("DXVK_CONFIG"), value));
        assert(env_view(vars@) =~= before.push(("DXVK_CONFIG"@, dxvk_config_text(dc))));
    }
    assert(env_view(vars@) =~= plugin_env(*st, data@, pm, dc));
    vars
}

/// The plugins never set one variable twice: the keys of the environment they add are
/// distinct (as the map that holds them requires).
pub proof fn lemma_plugin_env_keys_distinct(
    st: PluginState,
    data: Seq<char>,
    present_mode: Option<Seq<char>>,
    dxvk_config: Option<Seq<char>>,
)
    ensures
        forall|i: int, j: int|
            0 <= i < j < plugin_env(st, data, present_mode, dxvk_config).len() ==> (
            #[trigger] plugin_env(st, data, present_mode, dxvk_config)[i]).0 != (
            #[trigger] plugin_env(st, data, present_mode, dxvk_config)[j]).0,
{
    reveal_strlit("VK_ADD_IMPLICIT_LAYER_PATH");
    reveal_strlit("VORTSTRAP_FORCE_PRESENT");
    reveal_strlit("VORTSTRAP_PRESENT_MODE");
    reveal_strlit("DXVK_STATE_CACHE");
    reveal_strlit("mesa_glthread");
    reveal_strlit("MESA_NO_DITHER");
    reveal_strlit("DXVK_CONFIG");
    let keys = seq![
        "VK_ADD_IMPLICIT_LAYER_PATH"@,
        "VORTSTRAP_FORCE_PRESENT"@,
        "VORTSTRAP_PRESENT_MODE"@,
        "DXVK_STATE_CACHE"@,
        "mesa_glthread"@,
        "MESA_NO_DITHER"@,
        "DXVK_CONFIG"@,
    ];
    assert forall|a: int, b: int| 0 <= a < b < 7 implies keys[a] != keys[b] by {
        if keys[a].len() == keys[b].len() {
            assert(keys[a][0] != keys[b][0] || keys[a][1] != keys[b][1] || keys[a][5]
                != keys[b][5] || keys[a][10] != keys[b][10]);
        }
    }
    let e = plugin_env(st, data, present_mode, dxvk_config);
    let fps_on = has_dir(st, "fps-unlocker"@) && st.fps_layer_so;
    let optim_on = has_dir(st, "vortex-optim"@) && complete(st, "vortex-optim"@);
    assert forall|i: int, j: int| 0 <= i < j < e.len() implies (#[trigger] e[i]).0 != (
    #[trigger] e[j]).0 by {
        let off: int = if fps_on {
            0
        } else {
            3
        };
        assert(e[i].0 == keys[i + off]);
        assert(e[j].0 == keys[j + off]);
    }
}

/// The DXVK configuration that the optimiser sets always turns on asynchronous shader
/// compilation, and keeps the user's own settings first, unchanged.
pub proof fn lemma_dxvk_config_async(user: Option<Seq<char>>)
    ensures
        contains(dxvk_config_text(user), "dxvk.enableAsync"@),
        user matches Some(u) ==> dxvk_config_text(user).take(u.len() as int) == u,
        user is None ==> dxvk_config_text(user)
            == "dxvk.enableAsync=true,dxvk.numCompilerThreads=2"@,
{
    reveal_strlit("dxvk.enableAsync");
    reveal_strlit("dxvk.enableAsync=true,dxvk.numCompilerThreads=2");
    let d = match user {
        Some(u) => u,
        None => dxvk_async(),
    };
    if user is None {
        assert(d.subrange(0, 16) =~= "dxvk.enableAsync"@);
        crate::text::lemma_find_from(d, "dxvk.enableAsync"@, 0);
        assert(crate::text::matches_at(d, "dxvk.enableAsync"@, 0));
    }
    if !contains(d, "dxvk.enableAsync"@) {
        let t = d + ","@ + dxvk_async();
        let k: int = d.len() as int + 1;
        reveal_strlit(",");
        assert(t.subrange(k, k + 16) =~= "dxvk.enableAsync"@);
        crate::text::lemma_find_from(t, "dxvk.enableAsync"@, 0);
        assert(crate::text::matches_at(t, "dxvk.enableAsync"@, k));
        assert(t.take(d.len() as int) =~= d);
    } else {
        assert(d.take(d.len() as int) =~= d);
    }
}

/// What the plugins add to a launch: with the `fps-unlocker` directory and its layer library,
/// the layer path `<data>/plugins/fps-unlocker`, `VORTSTRAP_FORCE_PRESENT=1` and the present mode
/// (the user's, else `0`); with `vortex-optim` installed, `DXVK_STATE_CACHE=1`,
/// `mesa_glthread=true`, `MESA_NO_DITHER=1` and the DXVK configuration. Without them, none of
/// their variables is set.
pub proof fn lemma_plugin_env_values(
    st: PluginState,
    data: Seq<char>,
    present_mode: Option<Seq<char>>,
    dxvk_config: Option<Seq<char>>,
)
    ensures
        ({
            let e = plugin_env(st, data, present_mode, dxvk_config);
            let fps = has_dir(st, "fps-unlocker"@) && st.fps_layer_so;
            let optim = has_dir(st, "vortex-optim"@) && st.optim_binary;
            let mode = match present_mode {
                Some(p) => p,
                None => "0"@,
            };
            &&& fps ==> e.contains(
                ("VK_ADD_IMPLICIT_LAYER_PATH"@, join(join(data, "plugins"@), "fps-unlocker"@)),
            )
            &&& fps ==> e.contains(("VORTSTRAP_FORCE_PRESENT"@, "1"@))
            &&& fps ==> e.contains(("VORTSTRAP_PRESENT_MODE"@, mode))
            &&& !fps ==> forall|i: int|
                0 <= i < e.len() ==> (#[trigger] e[i]).0 != "VK_ADD_IMPLICIT_LAYER_PATH"@ && e[i].0
                    != "VORTSTRAP_FORCE_PRESENT"@ && e[i].0 != "VORTSTRAP_PRESENT_MODE"@
            &&& optim ==> e.contains(("DXVK_STATE_CACHE"@, "1"@))
            &&& optim ==> e.contains(("mesa_glthread"@, "true"@))
            &&& optim ==> e.contains(("MESA_NO_DITHER"@, "1"@))
            &&& optim ==> e.contains(("DXVK_CONFIG"@, dxvk_config_text(dxvk_config)))
            &&& !optim ==> forall|i: int|
                0 <= i < e.len() ==> (#[trigger] e[i]).0 != "DXVK_STATE_CACHE"@ && e[i].0
                    != "mesa_glthread"@ && e[i].0 != "MESA_NO_DITHER"@ && e[i].0 != "DXVK_CONFIG"@
        }),
{
    reveal_strlit("vortex-optim");
    reveal_strlit("fps-unlocker");
    reveal_strlit("VK_ADD_IMPLICIT_LAYER_PATH");
    reveal_strlit("VORTSTRAP_FORCE_PRESENT");
    reveal_strlit("VORTSTRAP_PRESENT_MODE");
    reveal_strlit("DXVK_STATE_CACHE");
    reveal_strlit("mesa_glthread");
    reveal_strlit("MESA_NO_DITHER");
    reveal_strlit("DXVK_CONFIG");
    let e = plugin_env(st, data, present_mode, dxvk_config);
    let fps = has_dir(st, "fps-unlocker"@) && st.fps_layer_so;
    let optim = has_dir(st, "vortex-optim"@) && st.optim_binary;
    assert("vortex-optim"@[0] != "fps-unlocker"@[0]);
    assert(complete(st, "vortex-optim"@) == st.optim_binary);
    let off: int = if fps {
        3
    } else {
        0
    };
    if fps {
        assert(e[0].0 == "VK_ADD_IMPLICIT_LAYER_PATH"@);
        assert(e[1] == ("VORTSTRAP_FORCE_PRESENT"@, "1"@));
        assert(e[2].0 == "VORTSTRAP_PRESENT_MODE"@);
    }
    if optim {
        assert(e[off] == ("DXVK_STATE_CACHE"@, "1"@));
        assert(e[off + 1] == ("mesa_glthread"@, "true"@));
        assert(e[off + 2] == ("MESA_NO_DITHER"@, "1"@));
        assert(e[off + 3].0 == "DXVK_CONFIG"@);
    }
    if !fps {
        assert forall|i: int| 0 <= i < e.len() implies (#[trigger] e[i]).0.len() <= 16 by {}
    }
    if !optim {
        assert forall|i: int| 0 <= i < e.len() implies (#[trigger] e[i]).0.len() >= 22 by {}
    }
}

/// A plugin binary is only ever handed out for an installed plugin.
pub proof fn lemma_binary_needs_install(st: PluginState, data: Seq<char>, name: Seq<char>)
    ensures
        binary_text(st, data, name) is Some ==> is_usable(st, name),
{
}

/// What `tempest plugin ...` was asked to do.
#[derive(Debug, Clone, PartialEq, Eq)]
pub enum PluginCommand {
    /// No arguments: list the installed plugins.
    List,
    /// Install the FPS unlocker.
    InstallFpsUnlocker,
    /// Install the optimiser.
    InstallVortexOptim,
    /// A name that is no known plugin.
    Unknown(String),
    /// `uninstall <name>`.
    Uninstall(String),
    /// Anything else: show the usage.
    Usage,
}

/// Reads the arguments of `tempest plugin`: none lists; one names a plugin to install;
/// `uninstall <name>` removes one; anything else asks for the usage.
pub fn parse_command(args: &Vec<String>) -> (res: PluginCommand)
    ensures
        args@.len() == 0 ==> res is List,
        args@.len() == 1 ==> (if args@[0]@ == "fps-unlocker"@ {
            res is InstallFpsUnlocker
        } else if args@[0]@ == "vortex-optim"@ {
            res is InstallVortexOptim
        } else {
            res matches PluginCommand::Unknown(n) && n@ == args@[0]@
        }),
        args@.len() == 2 ==> (if args@[0]@ == "uninstall"@ {
            res matches PluginCommand::Uninstall(n) && n@ == args@[1]@
        } else {
            res is Usage
        }),
        args@.len() > 2 ==> res is Usage,
{
    if args.len() == 0 {
        PluginCommand::List
    } else if args.len() == 1 {
        let a = to_chars(args[0].as_str());
        if chars_eq_str(&a, "fps-unlocker") {
            PluginCommand::InstallFpsUnlocker
        } else if chars_eq_str(&a, "vortex-optim") {
            PluginCommand::InstallVortexOptim
        } else {
            PluginCommand::Unknown(args[0].clone())
        }
    } else if args.len() == 2 {
        let a = to_chars(args[0].as_str());
        if chars_eq_str(&a, "uninstall") {
            PluginCommand::Uninstall(args[1].clone())
        } else {
            PluginCommand::Usage
        }
    } else {
        PluginCommand::Usage
    }
}

/// The installed plugin directories with, for each, whether all its files are in place.
pub fn list_entries(st: &PluginState) -> (res: Vec<(String, bool)>)
    ensures
        res@.len() == st.dirs@.len(),
        forall|i: int|
            0 <= i < res@.len() ==> (#[trigger] res@[i]).0@ == st.dirs@[i]@ && res@[i].1
                == complete(*st, st.dirs@[i]@),
{
    let mut res: Vec<(String, bool)> = Vec::new();
    let mut i: usize = 0;
    while i < st.dirs.len()
        invariant
            i <= st.dirs.len(),
            res@.len() == i,
            forall|j: int|
                0 <= j < i ==> (#[trigger] res@[j]).0@ == st.dirs@[j]@ && res@[j].1 == complete(
                    *st,
                    st.dirs@[j]@,
                ),
        decreases st.dirs.len() - i,
    {
        let ok = is_installed(st, st.dirs[i].as_str());
        res.push((st.dirs[i].clone(), ok));
        i = i + 1;
    }
    res
}

/// The compiler arguments that build the FPS unlocker's Vulkan layer `so` from `c_src`.
pub fn fps_unlocker_cc_args(so: &str, c_src: &str) -> (res: Vec<String>)
    ensures
        res@.map_values(|s: String| s@) == seq![
            "-I/usr/include"@,
            "-shared"@,
            "-fPIC"@,
            "-O2"@,
            "-fvisibility=hidden"@,
            "-Wall"@,
            "-Wextra"@,
            "-o"@,
            so@,
            c_src@,
        ],
{
    let mut v: Vec<String> = Vec::new();
    v.push(owned("-I/usr/include"));
    v.push(owned("-shared"));
    v.push(owned("-fPIC"));
    v.push(owned("-O2"));
    v.push(owned("-fvisibility=hidden"));
    v.push(owned("-Wall"));
    v.push(owned("-Wextra"));
    v.push(owned("-o"));
    v.push(owned(so));
    v.push(owned(c_src));
    assert(v@.map_values(|s: String| s@) =~= seq![
        "-I/usr/include"@,
        "-shared"@,
        "-fPIC"@,
        "-O2"@,
        "-fvisibility=hidden"@,
        "-Wall"@,
        "-Wextra"@,
        "-o"@,
        so@,
        c_src@,
    ]);
    v
}

/// The compiler arguments that build the optimiser binary `bin` from `c_src`.
pub fn vortex_optim_cc_args(bin: &str, c_src: &str) -> (res: Vec<String>)
    ensures
        res@.map_values(|s: String| s@) == seq![
            "-O2"@,
            "-std=c11"@,
            "-Wall"@,
            "-Wextra"@,
            "-o"@,
            bin@,
            c_src@,
        ],
{
    let mut v: Vec<String> = Vec::new();
    v.push(owned("-O2"));
    v.push(owned("-std=c11"));
    v.push(owned("-Wall"));
    v.push(owned("-Wextra"));
    v.push(owned("-o"));
    v.push(owned(bin));
    v.push(owned(c_src));
    assert(v@.map_values(|s: String| s@) =~= seq![
        "-O2"@,
        "-std=c11"@,
        "-Wall"@,
        "-Wextra"@,
        "-o"@,
        bin@,
        c_src@,
    ]);
    v
}

} // verus!
