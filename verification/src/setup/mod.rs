use vstd::prelude::*;
use crate::error::TempestError;
use crate::num::{decimal, u64_to_string};
use crate::text::{
    chars_eq_str, ends_with, ends_with_exec, remove_sudo, replace_all, trim, trim_exec, contains, contains_str, extend_str, from_chars, lines, lines_exec, lowercase,
    lowercase_exec, owned, strip_prefix, strip_prefix_str, to_chars, trim_char, trim_char_exec,
    views,
};

pub mod dll;
pub mod dxvk;
pub mod steps;
pub mod vkd3d;

verus! {

/// The Linux distribution families that setup knows how to provision.
#[derive(Debug, Clone, PartialEq, Eq)]
pub enum Distro {
    Fedora,
    Debian,
    Arch,
    OpenSuse,
    Unknown(String),
}

/// What a `Distro` stands for.
pub enum DistroView {
    Fedora,
    Debian,
    Arch,
    OpenSuse,
    Unknown(Seq<char>),
}

impl View for Distro {
    type V = DistroView;

    open spec fn view(&self) -> DistroView {
        match self {
            Distro::Fedora => DistroView::Fedora,
            Distro::Debian => DistroView::Debian,
            Distro::Arch => DistroView::Arch,
            Distro::OpenSuse => DistroView::OpenSuse,
            Distro::Unknown(s) => DistroView::Unknown(s@),
        }
    }
}

/// The name under which a distribution family is shown.
pub open spec fn distro_label(d: DistroView) -> Seq<char> {
    match d {
        DistroView::Fedora => "Fedora/RHEL"@,
        DistroView::Debian => "Debian/Ubuntu"@,
        DistroView::Arch => "Arch Linux"@,
        DistroView::OpenSuse => "openSUSE"@,
        DistroView::Unknown(s) => "Unknown ("@ + s + ")"@,
    }
}

impl Distro {
    /// The name under which the distribution family is shown.
    pub fn label(&self) -> (res: String)
        ensures
            res@ == distro_label(self@),
    {
        match self {
            Distro::Fedora => owned("Fedora/RHEL"),
            Distro::Debian => owned("Debian/Ubuntu"),
            Distro::Arch => owned("Arch Linux"),
            Distro::OpenSuse => owned("openSUSE"),
            Distro::Unknown(s) => {
                let mut v = to_chars("Unknown (");
                extend_str(&mut v, s.as_str());
                extend_str(&mut v, ")");
                from_chars(&v)
            },
        }
    }
}

/// The value of an `os-release` field, with surrounding quotes removed and in lower case.
pub open spec fn field_value(v: Seq<char>) -> Seq<char> {
    lowercase(trim_char(v, '"'))
}

/// The `ID` and `ID_LIKE` values set by the given `os-release` lines; a later line wins.
pub open spec fn os_fields(ls: Seq<Seq<char>>) -> (Seq<char>, Seq<char>)
    decreases ls.len(),
{
    if ls.len() == 0 {
        (Seq::empty(), Seq::empty())
    } else {
        let prev = os_fields(ls.drop_last());
        let l = ls.last();
        match strip_prefix(l, "ID="@) {
            Some(v) => (field_value(v), prev.1),
            None => match strip_prefix(l, "ID_LIKE="@) {
                Some(v) => (prev.0, field_value(v)),
                None => prev,
            },
        }
    }
}

/// The distribution is `name`, or declares itself like `name`.
pub open spec fn is_like(id: Seq<char>, like: Seq<char>, name: Seq<char>) -> bool {
    id == name || contains(like, name)
}

/// The family of a distribution with the given `ID` and `ID_LIKE`.
pub open spec fn classify(id: Seq<char>, like: Seq<char>) -> DistroView {
    if is_like(id, like, "fedora"@) || is_like(id, like, "rhel"@) || is_like(id, like, "centos"@) {
        DistroView::Fedora
    } else if is_like(id, like, "debian"@) || is_like(id, like, "ubuntu"@) {
        DistroView::Debian
    } else if is_like(id, like, "arch"@) {
        DistroView::Arch
    } else if is_like(id, like, "opensuse"@) || is_like(id, like, "suse"@) {
        DistroView::OpenSuse
    } else {
        DistroView::Unknown(id)
    }
}

/// Which family a distribution belongs to, by its `ID` or a name in its `ID_LIKE`, checked in
/// this order: Fedora, RHEL and CentOS are the Fedora family; Debian and Ubuntu (and so every
/// distribution built on Ubuntu, such as elementary OS or Zorin OS) the Debian family; Arch
/// the Arch family; openSUSE and SUSE the openSUSE family; anything else stays unknown under
/// its own `ID`.
pub proof fn lemma_distro_families(id: Seq<char>, like: Seq<char>)
    ensures
        (id == "fedora"@ || contains(like, "fedora"@))
            || (id == "rhel"@ || contains(like, "rhel"@))
            || (id == "centos"@ || contains(like, "centos"@))
            ==> classify(id, like) == DistroView::Fedora,
        !(id == "fedora"@ || contains(like, "fedora"@))
            && !(id == "rhel"@ || contains(like, "rhel"@))
            && !(id == "centos"@ || contains(like, "centos"@))
            && ((id == "debian"@ || contains(like, "debian"@))
                || (id == "ubuntu"@ || contains(like, "ubuntu"@)))
            ==> classify(id, like) == DistroView::Debian,
        !(id == "fedora"@ || contains(like, "fedora"@))
            && !(id == "rhel"@ || contains(like, "rhel"@))
            && !(id == "centos"@ || contains(like, "centos"@))
            && !(id == "debian"@ || contains(like, "debian"@))
            && !(id == "ubuntu"@ || contains(like, "ubuntu"@))
            && (id == "arch"@ || contains(like, "arch"@))
            ==> classify(id, like) == DistroView::Arch,
        !(id == "fedora"@ || contains(like, "fedora"@))
            && !(id == "rhel"@ || contains(like, "rhel"@))
            && !(id == "centos"@ || contains(like, "centos"@))
            && !(id == "debian"@ || contains(like, "debian"@))
            && !(id == "ubuntu"@ || contains(like, "ubuntu"@))
            && !(id == "arch"@ || contains(like, "arch"@))
            && ((id == "opensuse"@ || contains(like, "opensuse"@))
                || (id == "suse"@ || contains(like, "suse"@)))
            ==> classify(id, like) == DistroView::OpenSuse,
        !(id == "fedora"@ || contains(like, "fedora"@))
            && !(id == "rhel"@ || contains(like, "rhel"@))
            && !(id == "centos"@ || contains(like, "centos"@))
            && !(id == "debian"@ || contains(like, "debian"@))
            && !(id == "ubuntu"@ || contains(like, "ubuntu"@))
            && !(id == "arch"@ || contains(like, "arch"@))
            && !(id == "opensuse"@ || contains(like, "opensuse"@))
            && !(id == "suse"@ || contains(like, "suse"@))
            ==> classify(id, like) == DistroView::Unknown(id),
{
}

/// The family that the text of `/etc/os-release` describes.
pub open spec fn distro_of(os_release: Seq<char>) -> DistroView {
    let f = os_fields(lines(os_release));
    classify(f.0, f.1)
}

fn field_value_exec(v: &Vec<char>) -> (res: Vec<char>)
    ensures
        res@ == field_value(v@),
{
    let t = trim_char_exec(v, '"');
    lowercase_exec(&t)
}

fn is_like_exec(id: &Vec<char>, like: &Vec<char>, name: &str) -> (res: bool)
    ensures
        res == is_like(id@, like@, name@),
{
    chars_eq_str(id, name) || contains_str(like, name)
}

/// The distribution family that the text of `/etc/os-release` describes: by its `ID`, or by
/// a name that its `ID_LIKE` contains.
pub fn detect_distro(os_release: &str) -> (res: Distro)
    ensures
        res@ == distro_of(os_release@),
{
    let text = to_chars(os_release);
    let ls = lines_exec(&text);
    let mut id: Vec<char> = Vec::new();
    let mut like: Vec<char> = Vec::new();
    let mut i: usize = 0;
    while i < ls.len()
        invariant
            i <= ls.len(),
            views(ls@) == lines(os_release@),
            (id@, like@) == os_fields(views(ls@).take(i as int)),
        decreases ls.len() - i,
    {
        proof {
            assert(views(ls@).take(i as int + 1).drop_last() =~= views(ls@).take(i as int));
            assert(views(ls@).take(i as int + 1).last() == ls@[i as int]@);
        }
        match strip_prefix_str(&ls[i], "ID=") {
            Some(v) => {
                id = field_value_exec(&v);
            },
            None => match strip_prefix_str(&ls[i], "ID_LIKE=") {
                Some(v) => {
                    like = field_value_exec(&v);
                },
                None => {},
            },
        }
        i = i + 1;
    }
    assert(views(ls@).take(ls.len() as int) =~= views(ls@));
    classify_distro(&from_chars(&id), &from_chars(&like))
}

/// The family of a distribution with the given (lower-case) `ID` and `ID_LIKE`: by its `ID`,
/// or by a family name that its `ID_LIKE` contains; unknown (with its `ID`) otherwise.
pub fn classify_distro(id: &String, id_like: &String) -> (res: Distro)
    ensures
        res@ == classify(id@, id_like@),
{
    let id = to_chars(id.as_str());
    let like = to_chars(id_like.as_str());
    if is_like_exec(&id, &like, "fedora") || is_like_exec(&id, &like, "rhel") || is_like_exec(
        &id,
        &like,
        "centos",
    ) {
        Distro::Fedora
    } else if is_like_exec(&id, &like, "debian") || is_like_exec(&id, &like, "ubuntu") {
        Distro::Debian
    } else if is_like_exec(&id, &like, "arch") {
        Distro::Arch
    } else if is_like_exec(&id, &like, "opensuse") || is_like_exec(&id, &like, "suse") {
        Distro::OpenSuse
    } else {
        Distro::Unknown(from_chars(&id))
    }
}


/// The shell commands that bring a distribution up to date and install Wine on it.
pub struct DistroCommands {
    pub update: String,
    pub wine_packages: String,
    pub extra_setup: Option<String>,
    pub winetricks_manual: bool,
}

/// The update command of each family.
pub open spec fn update_cmd(d: DistroView) -> Seq<char> {
    match d {
        DistroView::Fedora => "sudo dnf upgrade --refresh"@,
        DistroView::Debian => "sudo apt update && sudo apt upgrade"@,
        DistroView::Arch => "sudo pacman -Syu"@,
        DistroView::OpenSuse => "sudo zypper refresh && sudo zypper update"@,
        DistroView::Unknown(_) => "# Update your system"@,
    }
}

/// The Wine install command of each family.
pub open spec fn wine_packages_cmd(d: DistroView) -> Seq<char> {
    match d {
        DistroView::Fedora => "sudo dnf install wine winetricks wine.i686"@,
        DistroView::Debian => "sudo apt install wine64 wine32"@,
        DistroView::Arch => "sudo pacman -S wine winetricks"@,
        DistroView::OpenSuse => "sudo zypper install wine winetricks wine-32bit"@,
        DistroView::Unknown(_) => "# Install wine and winetricks"@,
    }
}

/// The preparation that a family needs before Wine can be installed.
pub open spec fn extra_setup_cmd(d: DistroView) -> Option<Seq<char>> {
    match d {
        DistroView::Debian => Some("sudo dpkg --add-architecture i386 && sudo apt update"@),
        _ => None,
    }
}

/// The families whose packages lack winetricks, which setup then downloads itself.
pub open spec fn needs_manual_winetricks(d: DistroView) -> bool {
    d is Debian
}

/// The command that downloads winetricks where the package manager lacks it.
pub open spec fn winetricks_download_cmd() -> Seq<char> {
    "sudo curl -L https://raw.githubusercontent.com/Winetricks/winetricks/master/src/winetricks -o /usr/local/bin/winetricks"@
}

/// The command that makes the downloaded winetricks executable.
pub open spec fn winetricks_chmod_cmd() -> Seq<char> {
    "sudo chmod +x /usr/local/bin/winetricks"@
}

impl DistroCommands {
    pub open spec fn describes(&self, d: DistroView) -> bool {
        &&& self.update@ == update_cmd(d)
        &&& self.wine_packages@ == wine_packages_cmd(d)
        &&& match (self.extra_setup, extra_setup_cmd(d)) {
            (Some(x), Some(y)) => x@ == y,
            (None, None) => true,
            _ => false,
        }
        &&& self.winetricks_manual == needs_manual_winetricks(d)
    }
}

/// The commands that update a distribution of the family and install Wine on it.
pub fn distro_commands(distro: &Distro) -> (res: DistroCommands)
    ensures
        res.describes(distro@),
{
    match distro {
        Distro::Fedora => DistroCommands {
            update: owned("sudo dnf upgrade --refresh"),
            wine_packages: owned("sudo dnf install wine winetricks wine.i686"),
            extra_setup: None,
            winetricks_manual: false,
        },
        Distro::Debian => DistroCommands {
            update: owned("sudo apt update && sudo apt upgrade"),
            wine_packages: owned("sudo apt install wine64 wine32"),
            extra_setup: Some(owned("sudo dpkg --add-architecture i386 && sudo apt update")),
            winetricks_manual: true,
        },
        Distro::Arch => DistroCommands {
            update: owned("sudo pacman -Syu"),
            wine_packages: owned("sudo pacman -S wine winetricks"),
            extra_setup: None,
            winetricks_manual: false,
        },
        Distro::OpenSuse => DistroCommands {
            update: owned("sudo zypper refresh && sudo zypper update"),
            wine_packages: owned("sudo zypper install wine winetricks wine-32bit"),
            extra_setup: None,
            winetricks_manual: false,
        },
        Distro::Unknown(_) => DistroCommands {
            update: owned("# Update your system"),
            wine_packages: owned("# Install wine and winetricks"),
            extra_setup: None,
            winetricks_manual: false,
        },
    }
}

/// The commands shown before Wine is installed: the preparation, the update, the packages.
pub open spec fn preview_cmds(d: DistroView) -> Seq<Seq<char>> {
    match extra_setup_cmd(d) {
        Some(x) => seq![x, update_cmd(d), wine_packages_cmd(d)],
        None => seq![update_cmd(d), wine_packages_cmd(d)],
    }
}

/// The commands run, in order, once the user agrees to install Wine.
pub open spec fn install_cmds(d: DistroView) -> Seq<Seq<char>> {
    if needs_manual_winetricks(d) {
        preview_cmds(d) + seq![winetricks_download_cmd(), winetricks_chmod_cmd()]
    } else {
        preview_cmds(d)
    }
}

/// The commands shown before Wine is installed on the family.
pub fn preview_commands(distro: &Distro) -> (res: Vec<String>)
    ensures
        res@.map_values(|c: String| c@) == preview_cmds(distro@),
{
    let cmds = distro_commands(distro);
    let mut res: Vec<String> = Vec::new();
    match cmds.extra_setup {
        Some(x) => res.push(x),
        None => {},
    }
    res.push(cmds.update);
    res.push(cmds.wine_packages);
    assert(res@.map_values(|c: String| c@) =~= preview_cmds(distro@));
    res
}

/// The commands run, in order, to install Wine on the family.
pub fn install_commands(distro: &Distro) -> (res: Vec<String>)
    ensures
        res@.map_values(|c: String| c@) == install_cmds(distro@),
{
    let mut res = preview_commands(distro);
    let ghost before = res@;
    if matches!(distro, Distro::Debian) {
        res.push(owned("sudo curl -L https://raw.githubusercontent.com/Winetricks/winetricks/master/src/winetricks -o /usr/local/bin/winetricks"));
        res.push(owned("sudo chmod +x /usr/local/bin/winetricks"));
        assert(res@.map_values(|c: String| c@) =~= before.map_values(|c: String| c@) + seq![
            winetricks_download_cmd(),
            winetricks_chmod_cmd(),
        ]);
    }
    res
}

/// The GameMode install command of each family, where setup offers one.
pub open spec fn setup_gamemode_cmd(d: DistroView) -> Option<Seq<char>> {
    match d {
        DistroView::Fedora => Some("sudo dnf install gamemode"@),
        DistroView::Debian => Some("sudo apt install gamemode"@),
        DistroView::Arch => Some("sudo pacman -S gamemode"@),
        DistroView::OpenSuse => Some("sudo zypper install gamemode"@),
        DistroView::Unknown(_) => None,
    }
}

/// The command with which setup offers to install GameMode on the family.
pub fn gamemode_command(distro: &Distro) -> (res: Option<String>)
    ensures
        match (res, setup_gamemode_cmd(distro@)) {
            (Some(x), Some(y)) => x@ == y,
            (None, None) => true,
            _ => false,
        },
{
    match distro {
        Distro::Fedora => Some(owned("sudo dnf install gamemode")),
        Distro::Debian => Some(owned("sudo apt install gamemode")),
        Distro::Arch => Some(owned("sudo pacman -S gamemode")),
        Distro::OpenSuse => Some(owned("sudo zypper install gamemode")),
        Distro::Unknown(_) => None,
    }
}

/// The command as it is run: every `"sudo "` dropped where the user is already root.
pub open spec fn effective_cmd(cmd: Seq<char>, is_root: bool) -> Seq<char> {
    if is_root {
        replace_all(cmd, "sudo "@, Seq::empty())
    } else {
        cmd
    }
}

/// The command as it is run: every `"sudo "` dropped where the user is already root.
pub fn effective_command(cmd: &str, is_root: bool) -> (res: String)
    ensures
        res@ == effective_cmd(cmd@, is_root),
{
    if is_root {
        remove_sudo(cmd)
    } else {
        owned(cmd)
    }
}

/// The answer to a yes/no question is yes: `y` or `yes` in any case, around whitespace.
pub open spec fn is_yes_answer(input: Seq<char>) -> bool {
    let a = lowercase(trim(input));
    a == "y"@ || a == "yes"@
}

/// Whether the answer to a yes/no question is yes.
pub fn is_yes(input: &str) -> (res: bool)
    ensures
        res == is_yes_answer(input@),
{
    let v = to_chars(input);
    let t = trim_exec(&v);
    let a = lowercase_exec(&t);
    is_yes_word(&from_chars(&a))
}

/// Whether a trimmed, lower-case answer is yes: `y` or `yes`.
pub fn is_yes_word(answer: &String) -> (res: bool)
    ensures
        res == (answer@ == "y"@ || answer@ == "yes"@),
{
    let a = to_chars(answer.as_str());
    chars_eq_str(&a, "y") || chars_eq_str(&a, "yes")
}

/// The command that initialises the Wine prefix.
pub open spec fn wineboot_cmd(prefix: Seq<char>) -> Seq<char> {
    "WINEPREFIX=\""@ + prefix + "\" WINEDEBUG=-all wine wineboot --init"@
}

/// The command that installs the winetricks components into the Wine prefix.
pub open spec fn winetricks_cmd(prefix: Seq<char>) -> Seq<char> {
    "WINEPREFIX=\""@ + prefix + "\" WINEDEBUG=-all winetricks -q d3dcompiler_47 vcrun2022 corefonts"@
}

/// The command that initialises the Wine prefix at `prefix`.
pub fn wineboot_command(prefix: &str) -> (res: String)
    ensures
        res@ == wineboot_cmd(prefix@),
{
    let mut v = to_chars("WINEPREFIX=\"");
    extend_str(&mut v, prefix);
    extend_str(&mut v, "\" WINEDEBUG=-all wine wineboot --init");
    from_chars(&v)
}

/// The command that installs the winetricks components into the Wine prefix at `prefix`.
pub fn winetricks_command(prefix: &str) -> (res: String)
    ensures
        res@ == winetricks_cmd(prefix@),
{
    let mut v = to_chars("WINEPREFIX=\"");
    extend_str(&mut v, prefix);
    extend_str(&mut v, "\" WINEDEBUG=-all winetricks -q d3dcompiler_47 vcrun2022 corefonts");
    from_chars(&v)
}

/// One asset of a GitHub release, as its JSON gives it (`name`, `browser_download_url`).
pub struct ReleaseAsset {
    pub name: Option<String>,
    pub download_url: Option<String>,
}

/// A GitHub release, as its JSON gives it (`tag_name`, `assets`).
pub struct ReleaseInfo {
    pub tag_name: Option<String>,
    pub assets: Option<Vec<ReleaseAsset>>,
}

/// The download URL of the first asset that has a name ending in `suffix` and a URL.
pub open spec fn first_asset_url(assets: Seq<ReleaseAsset>, suffix: Seq<char>) -> Option<Seq<char>>
    decreases assets.len(),
{
    if assets.len() == 0 {
        None
    } else {
        let a = assets[0];
        match (a.name, a.download_url) {
            (Some(n), Some(u)) => if ends_with(n@, suffix) {
                Some(u@)
            } else {
                first_asset_url(assets.drop_first(), suffix)
            },
            _ => first_asset_url(assets.drop_first(), suffix),
        }
    }
}

/// The message of the error for a release without a matching asset.
pub open spec fn no_asset_msg(suffix: Seq<char>, tag: Seq<char>) -> Seq<char> {
    "No asset with suffix '"@ + suffix + "' in release "@ + tag
}

/// The tag of the release and the URL of its asset whose name ends in `suffix`.
///
/// Fails without a tag, without an asset list, or without such an asset (with a URL).
pub fn select_release_asset(info: &ReleaseInfo, suffix: &str) -> (res: Result<
    (String, String),
    TempestError,
>)
    ensures
        info.tag_name is None ==> (res matches Err(TempestError::Other(m)) && m@
            == "No tag_name in GitHub release"@),
        info.tag_name is Some && info.assets is None ==> (res matches Err(
            TempestError::Other(m),
        ) && m@ == "No assets in GitHub release"@),
        info.tag_name matches Some(t) ==> (info.assets matches Some(a) ==> (match first_asset_url(
            a@,
            suffix@,
        ) {
            Some(u) => res matches Ok((rt, ru)) && rt@ == t@ && ru@ == u,
            None => res matches Err(TempestError::Other(m)) && m@ == no_asset_msg(suffix@, t@),
        })),
{
    let tag = match &info.tag_name {
        Some(t) => t,
        None => {
            return Err(TempestError::Other(owned("No tag_name in GitHub release")));
        },
    };
    let assets = match &info.assets {
        Some(a) => a,
        None => {
            return Err(TempestError::Other(owned("No assets in GitHub release")));
        },
    };
    let suffix_v = to_chars(suffix);
    let mut i: usize = 0;
    assert(assets@.skip(0) =~= assets@);
    while i < assets.len()
        invariant
            i <= assets.len(),
            suffix_v@ == suffix@,
            info.tag_name == Some(*tag),
            info.assets == Some(*assets),
            first_asset_url(assets@.skip(i as int), suffix@) == first_asset_url(assets@, suffix@),
        decreases assets.len() - i,
    {
        assert(assets@.skip(i as int).drop_first() =~= assets@.skip(i as int + 1));
        assert(assets@.skip(i as int)[0] == assets@[i as int]);
        let a = &assets[i];
        match (&a.name, &a.download_url) {
            (Some(n), Some(u)) => {
                let nv = to_chars(n.as_str());
                if ends_with_exec(&nv, &suffix_v) {
                    return Ok((tag.clone(), u.clone()));
                }
            },
            _ => {},
        }
        i = i + 1;
    }
    assert(assets@.skip(i as int) =~= Seq::<ReleaseAsset>::empty());
    let mut m = to_chars("No asset with suffix '");
    extend_str(&mut m, suffix);
    extend_str(&mut m, "' in release ");
    extend_str(&mut m, tag.as_str());
    Err(TempestError::Other(from_chars(&m)))
}

} // verus!
