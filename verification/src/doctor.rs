use vstd::prelude::*;
use crate::num::{decimal, u64_to_string};
use crate::setup::{Distro, DistroView};
use crate::text::{
    chars_eq_str, contains, contains_str, ends_with, ends_with_str, extend_chars, extend_str,
    find, find_char, from_chars, lines, lines_exec, lowercase, lowercase_exec, owned, remove_sudo,
    replace_all, starts_with, starts_with_str, subvec, to_chars, trim, trim_exec, views,
};

verus! {

/// One diagnostic: what was checked, whether it passed, what was seen, and how to fix a failure.
#[derive(Debug, Clone, PartialEq, Eq)]
pub struct Check {
    pub name: String,
    pub passed: bool,
    pub detail: String,
    pub fix: Option<String>,
}

/// What a `Check` says.
pub struct CheckView {
    pub name: Seq<char>,
    pub passed: bool,
    pub detail: Seq<char>,
    pub fix: Option<Seq<char>>,
}

impl View for Check {
    type V = CheckView;

    open spec fn view(&self) -> CheckView {
        CheckView {
            name: self.name@,
            passed: self.passed,
            detail: self.detail@,
            fix: match self.fix {
                Some(f) => Some(f@),
                None => None,
            },
        }
    }
}

/// A passed check.
pub open spec fn passed(name: Seq<char>, detail: Seq<char>) -> CheckView {
    CheckView { name, passed: true, detail, fix: None }
}

/// A failed check with the fix to suggest.
pub open spec fn failed(name: Seq<char>, detail: Seq<char>, fix: Seq<char>) -> CheckView {
    CheckView { name, passed: false, detail, fix: Some(fix) }
}

impl Check {
    /// A passed check.
    pub fn pass(name: &str, detail: String) -> (res: Check)
        ensures
            res@ == passed(name@, detail@),
    {
        Check { name: owned(name), passed: true, detail, fix: None }
    }

    /// A failed check, with the fix to suggest.
    pub fn fail(name: &str, detail: String, fix: String) -> (res: Check)
        ensures
            res@ == failed(name@, detail@, fix@),
    {
        Check { name: owned(name), passed: false, detail, fix: Some(fix) }
    }

    /// The fix shown under a failed check: without `sudo ` where the user is already root.
    pub fn hint(&self, is_root: bool) -> (res: Option<String>)
        ensures
            match (res, self@.fix) {
                (Some(h), Some(f)) => h@ == (if is_root {
                    replace_all(f, "sudo "@, Seq::empty())
                } else {
                    f
                }),
                (None, None) => true,
                _ => false,
            },
    {
        match &self.fix {
            Some(f) => if is_root {
                Some(remove_sudo(f.as_str()))
            } else {
                Some(f.clone())
            },
            None => None,
        }
    }
}

/// The views of a sequence of checks.
pub open spec fn checks_view(v: Seq<Check>) -> Seq<CheckView> {
    v.map_values(|c: Check| c@)
}

// ---------------------------------------------------------------------------
// Fix suggestions per distribution family
// ---------------------------------------------------------------------------

pub open spec fn wine_install_fix(d: DistroView) -> Seq<char> {
    match d {
        DistroView::Fedora => "sudo dnf install wine winetricks wine.i686"@,
        DistroView::Debian => "sudo apt install wine64 wine32 winetricks"@,
        DistroView::Arch => "sudo pacman -S wine winetricks"@,
        DistroView::OpenSuse => "sudo zypper install wine winetricks wine-32bit"@,
        DistroView::Unknown(_) => "Install wine via your package manager"@,
    }
}

pub open spec fn winetricks_install_fix(d: DistroView) -> Seq<char> {
    match d {
        DistroView::Fedora => "sudo dnf install winetricks"@,
        DistroView::Arch => "sudo pacman -S winetricks"@,
        _ => "curl -L https://raw.githubusercontent.com/Winetricks/winetricks/master/src/winetricks | sudo tee /usr/local/bin/winetricks && sudo chmod +x /usr/local/bin/winetricks"@,
    }
}

pub open spec fn vulkan_install_fix(d: DistroView) -> Seq<char> {
    match d {
        DistroView::Fedora => "sudo dnf install vulkan-tools mesa-vulkan-drivers"@,
        DistroView::Debian => "sudo apt install vulkan-tools mesa-vulkan-drivers"@,
        DistroView::Arch => "sudo pacman -S vulkan-tools vulkan-icd-loader"@,
        DistroView::OpenSuse => "sudo zypper install vulkan-tools"@,
        DistroView::Unknown(_) => "Install vulkan-tools and GPU drivers"@,
    }
}

pub open spec fn gpu_driver_install_fix(d: DistroView) -> Seq<char> {
    match d {
        DistroView::Fedora => "Install GPU drivers: sudo dnf install mesa-dri-drivers"@,
        DistroView::Debian => "Install GPU drivers: sudo apt install mesa-utils"@,
        _ => "Install your GPU's Vulkan driver"@,
    }
}

pub open spec fn gamemode_install_fix(d: DistroView) -> Seq<char> {
    match d {
        DistroView::Fedora => "sudo dnf install gamemode"@,
        DistroView::Debian => "sudo apt install gamemode"@,
        DistroView::Arch => "sudo pacman -S gamemode"@,
        DistroView::OpenSuse => "sudo zypper install gamemode"@,
        DistroView::Unknown(_) => "Install gamemode via your package manager"@,
    }
}

pub open spec fn nvidia_install_fix(d: DistroView) -> Seq<char> {
    match d {
        DistroView::Fedora => "sudo dnf install nvidia-driver-libs"@,
        DistroView::Debian => "sudo apt install nvidia-driver"@,
        DistroView::Arch => "sudo pacman -S nvidia-utils"@,
        _ => "Install NVIDIA Vulkan driver libraries"@,
    }
}

/// How to install Wine on the family.
pub fn wine_install_cmd(distro: &Distro) -> (res: String)
    ensures
        res@ == wine_install_fix(distro@),
{
    match distro {
        Distro::Fedora => owned("sudo dnf install wine winetricks wine.i686"),
        Distro::Debian => owned("sudo apt install wine64 wine32 winetricks"),
        Distro::Arch => owned("sudo pacman -S wine winetricks"),
        Distro::OpenSuse => owned("sudo zypper install wine winetricks wine-32bit"),
        Distro::Unknown(_) => owned("Install wine via your package manager"),
    }
}

/// How to install winetricks on the family.
pub fn winetricks_fix(distro: &Distro) -> (res: String)
    ensures
        res@ == winetricks_install_fix(distro@),
{
    match distro {
        Distro::Fedora => owned("sudo dnf install winetricks"),
        Distro::Arch => owned("sudo pacman -S winetricks"),
        _ => owned(
            "curl -L https://raw.githubusercontent.com/Winetricks/winetricks/master/src/winetricks | sudo tee /usr/local/bin/winetricks && sudo chmod +x /usr/local/bin/winetricks",
        ),
    }
}

/// How to install the Vulkan tools and drivers on the family.
pub fn vulkan_fix(distro: &Distro) -> (res: String)
    ensures
        res@ == vulkan_install_fix(distro@),
{
    match distro {
        Distro::Fedora => owned("sudo dnf install vulkan-tools mesa-vulkan-drivers"),
        Distro::Debian => owned("sudo apt install vulkan-tools mesa-vulkan-drivers"),
        Distro::Arch => owned("sudo pacman -S vulkan-tools vulkan-icd-loader"),
        Distro::OpenSuse => owned("sudo zypper install vulkan-tools"),
        Distro::Unknown(_) => owned("Install vulkan-tools and GPU drivers"),
    }
}

/// How to install hardware GPU drivers on the family.
pub fn gpu_driver_fix(distro: &Distro) -> (res: String)
    ensures
        res@ == gpu_driver_install_fix(distro@),
{
    match distro {
        Distro::Fedora => owned("Install GPU drivers: sudo dnf install mesa-dri-drivers"),
        Distro::Debian => owned("Install GPU drivers: sudo apt install mesa-utils"),
        _ => owned("Install your GPU's Vulkan driver"),
    }
}

/// How to install GameMode on the family.
pub fn gamemode_install_cmd(distro: &Distro) -> (res: String)
    ensures
        res@ == gamemode_install_fix(distro@),
{
    match distro {
        Distro::Fedora => owned("sudo dnf install gamemode"),
        Distro::Debian => owned("sudo apt install gamemode"),
        Distro::Arch => owned("sudo pacman -S gamemode"),
        Distro::OpenSuse => owned("sudo zypper install gamemode"),
        Distro::Unknown(_) => owned("Install gamemode via your package manager"),
    }
}

/// How to install the NVIDIA Vulkan driver libraries on the family.
pub fn nvidia_fix(distro: &Distro) -> (res: String)
    ensures
        res@ == nvidia_install_fix(distro@),
{
    match distro {
        Distro::Fedora => owned("sudo dnf install nvidia-driver-libs"),
        Distro::Debian => owned("sudo apt install nvidia-driver"),
        Distro::Arch => owned("sudo pacman -S nvidia-utils"),
        _ => owned("Install NVIDIA Vulkan driver libraries"),
    }
}


// ---------------------------------------------------------------------------
// Reading `vulkaninfo --summary`
// ---------------------------------------------------------------------------

/// A (trimmed) line that opens a device block: `GPU0:` and the like.
pub open spec fn is_gpu_header(t: Seq<char>) -> bool {
    starts_with(t, "GPU"@) && ends_with(t, ":"@)
}

/// A device name that belongs to a software renderer.
pub open spec fn is_software(name: Seq<char>) -> bool {
    contains(lowercase(name), "llvmpipe"@) || contains(lowercase(name), "softpipe"@)
}

/// A device block that names a hardware GPU.
pub open spec fn usable_gpu(kind: Seq<char>, name: Seq<char>) -> bool {
    name.len() > 0 && !contains(kind, "CPU"@) && !is_software(name)
}

/// The trimmed key and value of a `key = value` line.
pub open spec fn key_value(t: Seq<char>) -> Option<(Seq<char>, Seq<char>)> {
    match find(t, seq!['=']) {
        Some(eq) => Some((trim(t.take(eq)), trim(t.skip(eq + 1)))),
        None => None,
    }
}

/// The state of a scan through the device blocks.
pub struct GpuScan {
    pub in_block: bool,
    pub kind: Seq<char>,
    pub name: Seq<char>,
    pub found: Option<Seq<char>>,
}

pub open spec fn scan_start() -> GpuScan {
    GpuScan { in_block: false, kind: Seq::empty(), name: Seq::empty(), found: None }
}

/// One line of the scan: a header closes the previous block (taking it if it names a hardware
/// GPU) and opens a new one; inside a block, `deviceName` and `deviceType` are recorded.
pub open spec fn gpu_step(st: GpuScan, line: Seq<char>) -> GpuScan {
    if st.found is Some {
        st
    } else {
        let t = trim(line);
        if is_gpu_header(t) {
            if st.in_block && usable_gpu(st.kind, st.name) {
                GpuScan { in_block: st.in_block, kind: st.kind, name: st.name, found: Some(st.name) }
            } else {
                GpuScan { in_block: true, kind: Seq::empty(), name: Seq::empty(), found: None }
            }
        } else if st.in_block {
            match key_value(t) {
                Some(kv) => if kv.0 == "deviceName"@ {
                    GpuScan { in_block: st.in_block, kind: st.kind, name: kv.1, found: None }
                } else if kv.0 == "deviceType"@ {
                    GpuScan { in_block: st.in_block, kind: kv.1, name: st.name, found: None }
                } else {
                    st
                },
                None => st,
            }
        } else {
            st
        }
    }
}

/// The scan over the given lines.
pub open spec fn gpu_scan(ls: Seq<Seq<char>>) -> GpuScan
    decreases ls.len(),
{
    if ls.len() == 0 {
        scan_start()
    } else {
        gpu_step(gpu_scan(ls.drop_last()), ls.last())
    }
}

/// The value of the first `deviceName = ...` line.
pub open spec fn first_device_name(ls: Seq<Seq<char>>) -> Option<Seq<char>>
    decreases ls.len(),
{
    if ls.len() == 0 {
        None
    } else {
        match key_value(trim(ls[0])) {
            Some(kv) => if kv.0 == "deviceName"@ {
                Some(kv.1)
            } else {
                first_device_name(ls.drop_first())
            },
            None => first_device_name(ls.drop_first()),
        }
    }
}

/// The GPU that `vulkaninfo --summary` reports: the first device block that names a hardware
/// GPU, else the first device name at all.
pub open spec fn gpu_of(out: Seq<char>) -> Option<Seq<char>> {
    let ls = lines(out);
    let st = gpu_scan(ls);
    match st.found {
        Some(n) => Some(n),
        None => if st.in_block && usable_gpu(st.kind, st.name) {
            Some(st.name)
        } else {
            first_device_name(ls)
        },
    }
}

/// The number of device blocks in the lines.
pub open spec fn header_count(ls: Seq<Seq<char>>) -> nat
    decreases ls.len(),
{
    if ls.len() == 0 {
        0
    } else {
        header_count(ls.drop_last()) + if is_gpu_header(trim(ls.last())) {
            1nat
        } else {
            0nat
        }
    }
}

/// Line `j` opens a device block.
pub open spec fn header_at(ls: Seq<Seq<char>>, j: int) -> bool {
    0 <= j < ls.len() && is_gpu_header(trim(ls[j]))
}

/// The first line at or after `j` that opens a device block, or the number of lines: where
/// the block whose lines start at `j` ends.
pub open spec fn next_header(ls: Seq<Seq<char>>, j: int) -> int
    decreases ls.len() - j,
{
    if j >= ls.len() {
        ls.len() as int
    } else if header_at(ls, j) {
        j
    } else {
        next_header(ls, j + 1)
    }
}

/// The value that the last `key = value` line among the lines `from..to` gives `key`; empty
/// where none does.
pub open spec fn block_value(ls: Seq<Seq<char>>, from: int, to: int, key: Seq<char>) -> Seq<
    char,
>
    decreases to - from,
{
    if to <= from {
        Seq::empty()
    } else {
        match key_value(trim(ls[to - 1])) {
            Some(kv) => if kv.0 == key {
                kv.1
            } else {
                block_value(ls, from, to - 1, key)
            },
            None => block_value(ls, from, to - 1, key),
        }
    }
}

/// The `deviceName` of the device block that opens at line `h`.
pub open spec fn block_name(ls: Seq<Seq<char>>, h: int) -> Seq<char> {
    block_value(ls, h + 1, next_header(ls, h + 1), "deviceName"@)
}

/// The `deviceType` of the device block that opens at line `h`.
pub open spec fn block_type(ls: Seq<Seq<char>>, h: int) -> Seq<char> {
    block_value(ls, h + 1, next_header(ls, h + 1), "deviceType"@)
}

/// The device block that opens at line `h` names a hardware GPU: its name is set, its type is
/// no CPU, and the name is no llvmpipe or softpipe software renderer (in any case).
pub open spec fn hardware_block(ls: Seq<Seq<char>>, h: int) -> bool {
    &&& header_at(ls, h)
    &&& block_name(ls, h).len() > 0
    &&& !contains(block_type(ls, h), "CPU"@)
    &&& !contains(lowercase(block_name(ls, h)), "llvmpipe"@)
    &&& !contains(lowercase(block_name(ls, h)), "softpipe"@)
}

/// The last line before `i` that opens a device block, or -1.
spec fn last_header(ls: Seq<Seq<char>>, i: int) -> int
    decreases i,
{
    if i <= 0 {
        -1
    } else if header_at(ls, i - 1) {
        i - 1
    } else {
        last_header(ls, i - 1)
    }
}

proof fn lemma_last_header(ls: Seq<Seq<char>>, i: int)
    ensures
        last_header(ls, i) >= 0 ==> last_header(ls, i) < i && header_at(ls, last_header(ls, i))
            && forall|j: int| last_header(ls, i) < j < i ==> !header_at(ls, j),
        last_header(ls, i) < 0 ==> forall|j: int| 0 <= j < i ==> !header_at(ls, j),
    decreases i,
{
    if i > 0 && !header_at(ls, i - 1) {
        lemma_last_header(ls, i - 1);
    }
}

proof fn lemma_last_header_is(ls: Seq<Seq<char>>, h: int, i: int)
    requires
        0 <= h < i,
        header_at(ls, h),
        forall|j: int| h < j < i ==> !header_at(ls, j),
    ensures
        last_header(ls, i) == h,
    decreases i,
{
    if i - 1 > h {
        lemma_last_header_is(ls, h, i - 1);
    }
}

proof fn lemma_next_header(ls: Seq<Seq<char>>, a: int)
    requires
        0 <= a <= ls.len(),
    ensures
        a <= next_header(ls, a) <= ls.len(),
        next_header(ls, a) == ls.len() || header_at(ls, next_header(ls, a)),
        forall|j: int| a <= j < next_header(ls, a) ==> !header_at(ls, j),
    decreases ls.len() - a,
{
    if a < ls.len() && !header_at(ls, a) {
        lemma_next_header(ls, a + 1);
    }
}

proof fn lemma_next_header_is(ls: Seq<Seq<char>>, a: int, b: int)
    requires
        0 <= a <= b <= ls.len(),
        forall|j: int| a <= j < b ==> !header_at(ls, j),
        b == ls.len() || header_at(ls, b),
    ensures
        next_header(ls, a) == b,
    decreases b - a,
{
    if a < b {
        lemma_next_header_is(ls, a + 1, b);
    }
}

/// While no finished block names a hardware GPU, the scan has found nothing and holds the
/// fields of the block that is open.
proof fn lemma_scan_open_block(ls: Seq<Seq<char>>, i: int)
    requires
        0 <= i <= ls.len(),
        forall|k: int|
            header_at(ls, k) && next_header(ls, k + 1) < i ==> !hardware_block(ls, k),
    ensures
        gpu_scan(ls.take(i)).found is None,
        last_header(ls, i) < 0 ==> !gpu_scan(ls.take(i)).in_block,
        last_header(ls, i) >= 0 ==> gpu_scan(ls.take(i)).in_block && gpu_scan(ls.take(i)).kind
            == block_value(ls, last_header(ls, i) + 1, i, "deviceType"@) && gpu_scan(
            ls.take(i),
        ).name == block_value(ls, last_header(ls, i) + 1, i, "deviceName"@),
    decreases i,
{
    if i > 0 {
        lemma_scan_open_block(ls, i - 1);
        assert(ls.take(i).drop_last() =~= ls.take(i - 1));
        assert(ls.take(i).last() == ls[i - 1]);
        let st0 = gpu_scan(ls.take(i - 1));
        let g = last_header(ls, i - 1);
        lemma_last_header(ls, i - 1);
        reveal_strlit("deviceName");
        reveal_strlit("deviceType");
        assert("deviceName"@ != "deviceType"@) by {
            assert("deviceName"@[6] != "deviceType"@[6]);
        }
        if header_at(ls, i - 1) {
            if st0.in_block {
                lemma_next_header_is(ls, g + 1, i - 1);
                assert(!hardware_block(ls, g));
                assert(!usable_gpu(st0.kind, st0.name));
            }
            assert(ls.take(i).len() == i);
        } else {
            assert(last_header(ls, i) == g);
        }
    }
}

/// Once the scan has found a GPU, it keeps it.
proof fn lemma_scan_keeps(ls: Seq<Seq<char>>, i: int, j: int, n: Seq<char>)
    requires
        0 <= i <= j <= ls.len(),
        gpu_scan(ls.take(i)).found == Some(n),
    ensures
        gpu_scan(ls.take(j)).found == Some(n),
    decreases j - i,
{
    if i < j {
        lemma_scan_keeps(ls, i, j - 1, n);
        assert(ls.take(j).drop_last() =~= ls.take(j - 1));
    }
}

/// On a machine with several devices (a hybrid-graphics laptop, or a GPU beside a software
/// renderer), the GPU reported is that of the first device block that names a hardware GPU:
/// its `deviceName`, whatever blocks follow it.
pub proof fn lemma_first_hardware_gpu(out: Seq<char>, h: int)
    requires
        hardware_block(lines(out), h),
        forall|k: int| 0 <= k < h ==> !hardware_block(lines(out), k),
    ensures
        gpu_of(out) == Some(block_name(lines(out), h)),
{
    let ls = lines(out);
    let e = next_header(ls, h + 1);
    lemma_next_header(ls, h + 1);
    assert forall|k: int|
        header_at(ls, k) && next_header(ls, k + 1) < e implies !hardware_block(ls, k) by {
        lemma_next_header(ls, k + 1);
    }
    lemma_scan_open_block(ls, e);
    lemma_last_header_is(ls, h, e);
    let st = gpu_scan(ls.take(e));
    assert(usable_gpu(st.kind, st.name));
    if e == ls.len() {
        assert(ls.take(e) =~= ls);
    } else {
        assert(ls.take(e + 1).drop_last() =~= ls.take(e));
        assert(ls.take(e + 1).last() == ls[e]);
        assert(gpu_scan(ls.take(e + 1)).found == Some(block_name(ls, h)));
        lemma_scan_keeps(ls, e + 1, ls.len() as int, block_name(ls, h));
        assert(ls.take(ls.len() as int) =~= ls);
    }
}

/// Where no device block names a hardware GPU (only software renderers or CPUs, or no blocks),
/// the GPU reported is the first `deviceName` in the output, wherever it stands.
pub proof fn lemma_no_hardware_gpu(out: Seq<char>)
    requires
        forall|k: int| 0 <= k < lines(out).len() ==> !hardware_block(lines(out), k),
    ensures
        gpu_of(out) == first_device_name(lines(out)),
{
    let ls = lines(out);
    let n = ls.len() as int;
    lemma_scan_open_block(ls, n);
    lemma_last_header(ls, n);
    let g = last_header(ls, n);
    if g >= 0 {
        lemma_next_header_is(ls, g + 1, n);
        assert(!hardware_block(ls, g));
    }
    assert(ls.take(n) =~= ls);
}

fn key_value_exec(t: &Vec<char>) -> (res: Option<(Vec<char>, Vec<char>)>)
    ensures
        match (res, key_value(t@)) {
            (Some(r), Some(kv)) => r.0@ == kv.0 && r.1@ == kv.1,
            (None, None) => true,
            _ => false,
        },
{
    match find_char(t, '=') {
        Some(eq) => {
            proof {
                crate::text::lemma_find_from(t@, seq!['='], 0);
            }
            let k = subvec(t, 0, eq);
            let v = subvec(t, eq + 1, t.len());
            assert(k@ =~= t@.take(eq as int));
            assert(v@ =~= t@.skip(eq + 1));
            Some((trim_exec(&k), trim_exec(&v)))
        },
        None => None,
    }
}

/// Whether the trimmed line opens a device block.
fn is_gpu_header_exec(t: &Vec<char>) -> (res: bool)
    ensures
        res == is_gpu_header(t@),
{
    starts_with_str(t, "GPU") && ends_with_str(t, ":")
}

/// Whether the device name belongs to a software renderer (llvmpipe, softpipe).
pub fn is_software_renderer(name: &str) -> (res: bool)
    ensures
        res == is_software(name@),
{
    let v = to_chars(name);
    let l = lowercase_exec(&v);
    names_software_renderer(&from_chars(&l))
}

/// Whether a lower-case device name names a software renderer: it mentions `llvmpipe` or
/// `softpipe`.
pub fn names_software_renderer(lower: &String) -> (res: bool)
    ensures
        res == (contains(lower@, "llvmpipe"@) || contains(lower@, "softpipe"@)),
{
    let l = to_chars(lower.as_str());
    contains_str(&l, "llvmpipe") || contains_str(&l, "softpipe")
}

fn usable_gpu_exec(kind: &Vec<char>, name: &Vec<char>) -> (res: bool)
    ensures
        res == usable_gpu(kind@, name@),
{
    if name.len() == 0 || contains_str(kind, "CPU") {
        return false;
    }
    let n = from_chars(name);
    !is_software_renderer(n.as_str())
}

/// The GPU that the output of `vulkaninfo --summary` reports: the first device block whose
/// name is set, whose type is not a CPU and which is no software renderer; failing that, the
/// first `deviceName` in the output.
pub fn extract_gpu(vulkaninfo: &str) -> (res: Option<String>)
    ensures
        match (res, gpu_of(vulkaninfo@)) {
            (Some(r), Some(g)) => r@ == g,
            (None, None) => true,
            _ => false,
        },
{
    let text = to_chars(vulkaninfo);
    let ls = lines_exec(&text);
    let ghost lv = views(ls@);
    let mut in_block = false;
    let mut kind: Vec<char> = Vec::new();
    let mut name: Vec<char> = Vec::new();
    let mut found: Option<Vec<char>> = None;
    let mut i: usize = 0;
    while i < ls.len()
        invariant
            i <= ls.len(),
            lv == views(ls@),
            lv == lines(vulkaninfo@),
            ({
                let st = gpu_scan(lv.take(i as int));
                &&& st.in_block == in_block
                &&& st.kind == kind@
                &&& st.name == name@
                &&& match (found, st.found) {
                    (Some(f), Some(g)) => f@ == g,
                    (None, None) => true,
                    _ => false,
                }
            }),
        decreases ls.len() - i,
    {
        proof {
            assert(lv.take(i as int + 1).drop_last() =~= lv.take(i as int));
            assert(lv.take(i as int + 1).last() == ls@[i as int]@);
        }
        if found.is_none() {
            let t = trim_exec(&ls[i]);
            if is_gpu_header_exec(&t) {
                if in_block && usable_gpu_exec(&kind, &name) {
                    found = Some(name.clone());
                } else {
                    in_block = true;
                    kind = Vec::new();
                    name = Vec::new();
                }
            } else if in_block {
                match key_value_exec(&t) {
                    Some((k, v)) => {
                        if chars_eq_str(&k, "deviceName") {
                            name = v;
                        } else if chars_eq_str(&k, "deviceType") {
                            kind = v;
                        }
                    },
                    None => {},
                }
            }
        }
        i = i + 1;
    }
    assert(lv.take(ls.len() as int) =~= lv);
    match found {
        Some(n) => {
            return Some(from_chars(&n));
        },
        None => {},
    }
    if in_block && usable_gpu_exec(&kind, &name) {
        return Some(from_chars(&name));
    }
    let mut j: usize = 0;
    assert(lv.skip(0) =~= lv);
    assert(gpu_of(vulkaninfo@) == first_device_name(lv));
    while j < ls.len()
        invariant
            j <= ls.len(),
            lv == views(ls@),
            gpu_of(vulkaninfo@) == first_device_name(lv),
            first_device_name(lv.skip(j as int)) == first_device_name(lv),
        decreases ls.len() - j,
    {
        assert(lv.skip(j as int).drop_first() =~= lv.skip(j as int + 1));
        assert(lv.skip(j as int)[0] == ls@[j as int]@);
        let t = trim_exec(&ls[j]);
        match key_value_exec(&t) {
            Some((k, v)) => {
                if chars_eq_str(&k, "deviceName") {
                    return Some(from_chars(&v));
                }
            },
            None => {},
        }
        j = j + 1;
    }
    assert(lv.skip(j as int) =~= Seq::<Seq<char>>::empty());
    None
}

/// The number of device blocks (`GPU...:` lines) in the output of `vulkaninfo --summary`.
pub fn gpu_count(vulkaninfo: &str) -> (res: usize)
    ensures
        res == header_count(lines(vulkaninfo@)),
{
    let text = to_chars(vulkaninfo);
    let ls = lines_exec(&text);
    let ghost lv = views(ls@);
    let mut count: usize = 0;
    let mut i: usize = 0;
    while i < ls.len()
        invariant
            i <= ls.len(),
            lv == views(ls@),
            count == header_count(lv.take(i as int)),
            count <= i,
        decreases ls.len() - i,
    {
        assert(lv.take(i as int + 1).drop_last() =~= lv.take(i as int));
        assert(lv.take(i as int + 1).last() == ls@[i as int]@);
        let t = trim_exec(&ls[i]);
        if is_gpu_header_exec(&t) {
            count = count + 1;
        }
        i = i + 1;
    }
    assert(lv.take(ls.len() as int) =~= lv);
    count
}


// ---------------------------------------------------------------------------
// The diagnosis
// ---------------------------------------------------------------------------

/// What the doctor observed on the machine, gathered before any check is judged.
pub struct DoctorFacts {
    /// The distribution family.
    pub distro: Distro,
    /// Where `wine` was found on the `PATH`.
    pub wine_path: Option<String>,
    /// What `wine --version` printed, where it could be run.
    pub wine_version_output: Option<String>,
    /// The Wine prefix, as shown.
    pub prefix_display: String,
    /// The prefix holds `system.reg` (wineboot has run).
    pub prefix_initialised: bool,
    /// The prefix directory exists.
    pub prefix_dir_exists: bool,
    /// The size of Vortex.exe as shown, where the file exists (empty where it cannot be read).
    pub vortex_exe_size: Option<String>,
    /// Where receiver.exe is expected (beside Vortex.exe), as shown.
    pub receiver_display: String,
    /// receiver.exe exists there.
    pub receiver_found: bool,
    /// What `vulkaninfo --summary` printed, where it ran and succeeded.
    pub vulkaninfo_output: Option<String>,
    /// The machine has an NVIDIA device.
    pub nvidia_present: bool,
    /// An NVIDIA Vulkan ICD file is registered.
    pub nvidia_icd_found: bool,
    /// What `xdg-mime query default x-scheme-handler/vortex` printed, where it could be run.
    pub uri_handler_output: Option<String>,
    /// Where `winetricks` was found on the `PATH`.
    pub winetricks_path: Option<String>,
    /// A session token is stored in the configuration.
    pub session_token_stored: bool,
    /// vortex.towerstats.com:443 accepted a connection.
    pub network_reachable: bool,
    /// `gamemoderun` is on the `PATH`.
    pub gamemode_found: bool,
    /// The configuration asks for GameMode.
    pub use_gamemode: bool,
    /// dxgi.dll in the prefix is a valid PE binary.
    pub dxvk_valid: bool,
    /// d3d12.dll in the prefix is a valid PE binary.
    pub vkd3d_valid: bool,
}

pub open spec fn setup_fix() -> Seq<char> {
    "Run: tempest setup"@
}

pub open spec fn wine_checks(f: DoctorFacts) -> Seq<CheckView> {
    match f.wine_path {
        Some(p) => {
            let version = match f.wine_version_output {
                Some(o) => trim(o@),
                None => "unknown"@,
            };
            seq![passed("Wine installed"@, p@ + " ("@ + version + ")"@)]
        },
        None => seq![failed("Wine installed"@, "not found in PATH"@, wine_install_fix(f.distro@))],
    }
}

pub open spec fn prefix_checks(f: DoctorFacts) -> Seq<CheckView> {
    if f.prefix_initialised {
        seq![passed("Wine prefix exists"@, f.prefix_display@)]
    } else {
        seq![
            failed(
                "Wine prefix exists"@,
                if f.prefix_dir_exists {
                    "directory exists but not initialised (wineboot not run)"@
                } else {
                    f.prefix_display@
                },
                setup_fix(),
            ),
        ]
    }
}

pub open spec fn vortex_checks(f: DoctorFacts) -> Seq<CheckView> {
    match f.vortex_exe_size {
        Some(size) => seq![passed("Vortex.exe exists"@, size@)],
        None => seq![failed("Vortex.exe exists"@, "not found"@, "Run: tempest update"@)],
    }
}

pub open spec fn receiver_checks(f: DoctorFacts) -> Seq<CheckView> {
    if f.receiver_found {
        seq![passed("receiver.exe exists"@, f.receiver_display@)]
    } else {
        seq![
            failed(
                "receiver.exe exists"@,
                "not found at "@ + f.receiver_display@ + " (in-game notifications may not work)"@,
                "Place receiver.exe beside Vortex.exe"@,
            ),
        ]
    }
}

pub open spec fn vulkan_checks(f: DoctorFacts) -> Seq<CheckView> {
    match f.vulkaninfo_output {
        Some(o) => {
            let gpu = match gpu_of(o@) {
                Some(g) => g,
                None => "GPU detected"@,
            };
            let count = header_count(lines(o@));
            seq![
                passed("Vulkan working"@, decimal(count) + " device(s) found"@),
                if is_software(gpu) {
                    failed(
                        "GPU detected"@,
                        gpu + " (software renderer)"@,
                        gpu_driver_install_fix(f.distro@),
                    )
                } else {
                    passed("GPU detected"@, gpu)
                },
            ]
        },
        None => seq![
            failed("Vulkan working"@, "vulkaninfo failed"@, vulkan_install_fix(f.distro@)),
            failed("GPU detected"@, "no Vulkan device found"@, gpu_driver_install_fix(f.distro@)),
        ],
    }
}

pub open spec fn nvidia_checks(f: DoctorFacts) -> Seq<CheckView> {
    if !f.nvidia_present {
        Seq::empty()
    } else if f.nvidia_icd_found {
        seq![passed("NVIDIA Vulkan ICD"@, "registered"@)]
    } else {
        seq![failed("NVIDIA Vulkan ICD"@, "not found"@, nvidia_install_fix(f.distro@))]
    }
}

pub open spec fn uri_checks(f: DoctorFacts) -> Seq<CheckView> {
    match f.uri_handler_output {
        Some(o) => {
            let handler = trim(o@);
            if contains(handler, "tempest"@) {
                seq![passed("URI handler registered"@, handler)]
            } else if handler.len() == 0 {
                seq![failed("URI handler registered"@, "not registered"@, setup_fix())]
            } else {
                seq![failed("URI handler registered"@, "wrong handler: "@ + handler, setup_fix())]
            }
        },
        None => seq![
            failed("URI handler registered"@, "xdg-mime not found"@, "Install xdg-utils"@),
        ],
    }
}

pub open spec fn winetricks_checks(f: DoctorFacts) -> Seq<CheckView> {
    match f.winetricks_path {
        Some(p) => seq![passed("Winetricks installed"@, p@)],
        None => seq![
            failed("Winetricks installed"@, "not found"@, winetricks_install_fix(f.distro@)),
        ],
    }
}

pub open spec fn session_checks(f: DoctorFacts) -> Seq<CheckView> {
    if f.session_token_stored {
        seq![passed("Session token stored"@, ""@)]
    } else {
        seq![failed("Session token stored"@, "not found"@, "Run: tempest login"@)]
    }
}

pub open spec fn network_checks(f: DoctorFacts) -> Seq<CheckView> {
    if f.network_reachable {
        seq![passed("Network (HTTPS)"@, "vortex.towerstats.com:443 reachable"@)]
    } else {
        seq![
            failed(
                "Network (HTTPS)"@,
                "vortex.towerstats.com:443 unreachable"@,
                "Check your internet connection or firewall"@,
            ),
        ]
    }
}

pub open spec fn gamemode_checks(f: DoctorFacts) -> Seq<CheckView> {
    if f.gamemode_found {
        seq![
            passed(
                "GameMode"@,
                if f.use_gamemode {
                    "enabled"@
                } else {
                    "installed (set use_gamemode=true to enable)"@
                },
            ),
        ]
    } else {
        seq![
            failed(
                "GameMode"@,
                "not installed (optional but recommended)"@,
                gamemode_install_fix(f.distro@),
            ),
        ]
    }
}

pub open spec fn dll_checks(f: DoctorFacts) -> Seq<CheckView> {
    seq![
        if f.dxvk_valid {
            passed("DXVK installed"@, "dxgi.dll is a valid PE"@)
        } else {
            failed("DXVK installed"@, "dxgi.dll not found or invalid"@, setup_fix())
        },
        if f.vkd3d_valid {
            passed("vkd3d-proton installed"@, "d3d12.dll is a valid PE"@)
        } else {
            failed("vkd3d-proton installed"@, "d3d12.dll not found or invalid"@, setup_fix())
        },
    ]
}

/// Every check of the diagnosis, in the order in which they are shown.
pub open spec fn doctor_checks(f: DoctorFacts) -> Seq<CheckView> {
    wine_checks(f) + prefix_checks(f) + vortex_checks(f) + receiver_checks(f) + vulkan_checks(f)
        + nvidia_checks(f)
        + uri_checks(f) + winetricks_checks(f) + session_checks(f) + network_checks(f)
        + gamemode_checks(f) + dll_checks(f)
}

/// Appends a check to a list of checks.
fn push_check(v: &mut Vec<Check>, c: Check)
    ensures
        checks_view(final(v)@) == checks_view(old(v)@).push(c@),
{
    v.push(c);
    assert(checks_view(v@) =~= checks_view(old(v)@).push(c@));
}

fn cat(a: &Vec<char>, b: &str) -> (res: String)
    ensures
        res@ == a@ + b@,
{
    let mut v = a.clone();
    assert(v@ == a@);
    extend_str(&mut v, b);
    from_chars(&v)
}

fn add_wine_checks(v: &mut Vec<Check>, f: &DoctorFacts)
    ensures
        checks_view(final(v)@) == checks_view(old(v)@) + wine_checks(*f),
{
    let ghost before = checks_view(v@);
    match &f.wine_path {
        Some(p) => {
            let version = match &f.wine_version_output {
                Some(o) => trim_exec(&to_chars(o.as_str())),
                None => to_chars("unknown"),
            };
            let mut d = to_chars(p.as_str());
            extend_str(&mut d, " (");
            extend_chars(&mut d, &version);
            extend_str(&mut d, ")");
            push_check(v, Check::pass("Wine installed", from_chars(&d)));
        },
        None => {
            push_check(
                v,
                Check::fail("Wine installed", owned("not found in PATH"), wine_install_cmd(&f.distro)),
            );
        },
    }
    assert(checks_view(v@) =~= before + wine_checks(*f));
}

fn add_prefix_checks(v: &mut Vec<Check>, f: &DoctorFacts)
    ensures
        checks_view(final(v)@) == checks_view(old(v)@) + prefix_checks(*f),
{
    let ghost before = checks_view(v@);
    if f.prefix_initialised {
        push_check(v, Check::pass("Wine prefix exists", f.prefix_display.clone()));
    } else {
        let detail = if f.prefix_dir_exists {
            owned("directory exists but not initialised (wineboot not run)")
        } else {
            f.prefix_display.clone()
        };
        push_check(v, Check::fail("Wine prefix exists", detail, owned("Run: tempest setup")));
    }
    assert(checks_view(v@) =~= before + prefix_checks(*f));
}

fn add_vortex_checks(v: &mut Vec<Check>, f: &DoctorFacts)
    ensures
        checks_view(final(v)@) == checks_view(old(v)@) + vortex_checks(*f),
{
    let ghost before = checks_view(v@);
    match &f.vortex_exe_size {
        Some(size) => push_check(v, Check::pass("Vortex.exe exists", size.clone())),
        None => push_check(
            v,
            Check::fail("Vortex.exe exists", owned("not found"), owned("Run: tempest update")),
        ),
    }
    assert(checks_view(v@) =~= before + vortex_checks(*f));
}

fn add_receiver_checks(v: &mut Vec<Check>, f: &DoctorFacts)
    ensures
        checks_view(final(v)@) == checks_view(old(v)@) + receiver_checks(*f),
{
    let ghost before = checks_view(v@);
    if f.receiver_found {
        push_check(v, Check::pass("receiver.exe exists", f.receiver_display.clone()));
    } else {
        let mut d = to_chars("not found at ");
        extend_str(&mut d, f.receiver_display.as_str());
        extend_str(&mut d, " (in-game notifications may not work)");
        push_check(
            v,
            Check::fail(
                "receiver.exe exists",
                from_chars(&d),
                owned("Place receiver.exe beside Vortex.exe"),
            ),
        );
    }
    assert(checks_view(v@) =~= before + receiver_checks(*f));
}

fn add_vulkan_checks(v: &mut Vec<Check>, f: &DoctorFacts)
    ensures
        checks_view(final(v)@) == checks_view(old(v)@) + vulkan_checks(*f),
{
    let ghost before = checks_view(v@);
    match &f.vulkaninfo_output {
        Some(o) => {
            let gpu = match extract_gpu(o.as_str()) {
                Some(g) => g,
                None => owned("GPU detected"),
            };
            let count = gpu_count(o.as_str());
            let mut d = to_chars(u64_to_string(count as u64).as_str());
            extend_str(&mut d, " device(s) found");
            push_check(v, Check::pass("Vulkan working", from_chars(&d)));
            if is_software_renderer(gpu.as_str()) {
                let g = to_chars(gpu.as_str());
                push_check(
                    v,
                    Check::fail(
                        "GPU detected",
                        cat(&g, " (software renderer)"),
                        gpu_driver_fix(&f.distro),
                    ),
                );
            } else {
                push_check(v, Check::pass("GPU detected", gpu));
            }
        },
        None => {
            push_check(
                v,
                Check::fail("Vulkan working", owned("vulkaninfo failed"), vulkan_fix(&f.distro)),
            );
            push_check(
                v,
                Check::fail("GPU detected", owned("no Vulkan device found"), gpu_driver_fix(&f.distro)),
            );
        },
    }
    assert(checks_view(v@) =~= before + vulkan_checks(*f));
}

fn add_nvidia_checks(v: &mut Vec<Check>, f: &DoctorFacts)
    ensures
        checks_view(final(v)@) == checks_view(old(v)@) + nvidia_checks(*f),
{
    let ghost before = checks_view(v@);
    if f.nvidia_present {
        if f.nvidia_icd_found {
            push_check(v, Check::pass("NVIDIA Vulkan ICD", owned("registered")));
        } else {
            push_check(
                v,
                Check::fail("NVIDIA Vulkan ICD", owned("not found"), nvidia_fix(&f.distro)),
            );
        }
    }
    assert(checks_view(v@) =~= before + nvidia_checks(*f));
}

fn add_uri_checks(v: &mut Vec<Check>, f: &DoctorFacts)
    ensures
        checks_view(final(v)@) == checks_view(old(v)@) + uri_checks(*f),
{
    let ghost before = checks_view(v@);
    match &f.uri_handler_output {
        Some(o) => {
            let handler = trim_exec(&to_chars(o.as_str()));
            if contains_str(&handler, "tempest") {
                push_check(v, Check::pass("URI handler registered", from_chars(&handler)));
            } else if handler.len() == 0 {
                push_check(
                    v,
                    Check::fail(
                        "URI handler registered",
                        owned("not registered"),
                        owned("Run: tempest setup"),
                    ),
                );
            } else {
                let mut d = to_chars("wrong handler: ");
                extend_chars(&mut d, &handler);
                push_check(
                    v,
                    Check::fail(
                        "URI handler registered",
                        from_chars(&d),
                        owned("Run: tempest setup"),
                    ),
                );
            }
        },
        None => {
            push_check(
                v,
                Check::fail(
                    "URI handler registered",
                    owned("xdg-mime not found"),
                    owned("Install xdg-utils"),
                ),
            );
        },
    }
    assert(checks_view(v@) =~= before + uri_checks(*f));
}

fn add_winetricks_checks(v: &mut Vec<Check>, f: &DoctorFacts)
    ensures
        checks_view(final(v)@) == checks_view(old(v)@) + winetricks_checks(*f),
{
    let ghost before = checks_view(v@);
    match &f.winetricks_path {
        Some(p) => push_check(v, Check::pass("Winetricks installed", p.clone())),
        None => push_check(
            v,
            Check::fail("Winetricks installed", owned("not found"), winetricks_fix(&f.distro)),
        ),
    }
    assert(checks_view(v@) =~= before + winetricks_checks(*f));
}

fn add_session_checks(v: &mut Vec<Check>, f: &DoctorFacts)
    ensures
        checks_view(final(v)@) == checks_view(old(v)@) + session_checks(*f),
{
    let ghost before = checks_view(v@);
    if f.session_token_stored {
        push_check(v, Check::pass("Session token stored", owned("")));
    } else {
        push_check(
            v,
            Check::fail("Session token stored", owned("not found"), owned("Run: tempest login")),
        );
    }
    assert(checks_view(v@) =~= before + session_checks(*f));
}

fn add_network_checks(v: &mut Vec<Check>, f: &DoctorFacts)
    ensures
        checks_view(final(v)@) == checks_view(old(v)@) + network_checks(*f),
{
    let ghost before = checks_view(v@);
    if f.network_reachable {
        push_check(
            v,
            Check::pass("Network (HTTPS)", owned("vortex.towerstats.com:443 reachable")),
        );
    } else {
        push_check(
            v,
            Check::fail(
                "Network (HTTPS)",
                owned("vortex.towerstats.com:443 unreachable"),
                owned("Check your internet connection or firewall"),
            ),
        );
    }
    assert(checks_view(v@) =~= before + network_checks(*f));
}

fn add_gamemode_checks(v: &mut Vec<Check>, f: &DoctorFacts)
    ensures
        checks_view(final(v)@) == checks_view(old(v)@) + gamemode_checks(*f),
{
    let ghost before = checks_view(v@);
    if f.gamemode_found {
        let status = if f.use_gamemode {
            owned("enabled")
        } else {
            owned("installed (set use_gamemode=true to enable)")
        };
        push_check(v, Check::pass("GameMode", status));
    } else {
        push_check(
            v,
            Check::fail(
                "GameMode",
                owned("not installed (optional but recommended)"),
                gamemode_install_cmd(&f.distro),
            ),
        );
    }
    assert(checks_view(v@) =~= before + gamemode_checks(*f));
}

fn add_dll_checks(v: &mut Vec<Check>, f: &DoctorFacts)
    ensures
        checks_view(final(v)@) == checks_view(old(v)@) + dll_checks(*f),
{
    let ghost before = checks_view(v@);
    if f.dxvk_valid {
        push_check(v, Check::pass("DXVK installed", owned("dxgi.dll is a valid PE")));
    } else {
        push_check(
            v,
            Check::fail(
                "DXVK installed",
                owned("dxgi.dll not found or invalid"),
                owned("Run: tempest setup"),
            ),
        );
    }
    if f.vkd3d_valid {
        push_check(v, Check::pass("vkd3d-proton installed", owned("d3d12.dll is a valid PE")));
    } else {
        push_check(
            v,
            Check::fail(
                "vkd3d-proton installed",
                owned("d3d12.dll not found or invalid"),
                owned("Run: tempest setup"),
            ),
        );
    }
    assert(checks_view(v@) =~= before + dll_checks(*f));
}

/// Judges every check of the diagnosis from what was observed, in the order they are shown:
/// Wine, the prefix, Vortex.exe, receiver.exe, Vulkan and the GPU, the NVIDIA ICD (on NVIDIA machines), the
/// URI handler, winetricks, the session token, the network, GameMode, DXVK and vkd3d-proton.
pub fn evaluate(facts: &DoctorFacts) -> (res: Vec<Check>)
    ensures
        checks_view(res@) == doctor_checks(*facts),
{
    let mut v: Vec<Check> = Vec::new();
    assert(checks_view(v@) =~= Seq::<CheckView>::empty());
    add_wine_checks(&mut v, facts);
    add_prefix_checks(&mut v, facts);
    add_vortex_checks(&mut v, facts);
    add_receiver_checks(&mut v, facts);
    add_vulkan_checks(&mut v, facts);
    add_nvidia_checks(&mut v, facts);
    add_uri_checks(&mut v, facts);
    add_winetricks_checks(&mut v, facts);
    add_session_checks(&mut v, facts);
    add_network_checks(&mut v, facts);
    add_gamemode_checks(&mut v, facts);
    add_dll_checks(&mut v, facts);
    assert(checks_view(v@) =~= doctor_checks(*facts));
    v
}

/// A check suggests a fix exactly when it failed.
pub open spec fn fix_iff_failed(c: CheckView) -> bool {
    c.fix is Some <==> !c.passed
}

/// Every check suggests a fix exactly when it failed.
pub open spec fn all_fix_iff_failed(cs: Seq<CheckView>) -> bool {
    forall|i: int| 0 <= i < cs.len() ==> fix_iff_failed(#[trigger] cs[i])
}

proof fn lemma_all_concat(a: Seq<CheckView>, b: Seq<CheckView>)
    requires
        all_fix_iff_failed(a),
        all_fix_iff_failed(b),
    ensures
        all_fix_iff_failed(a + b),
{
    assert forall|i: int| 0 <= i < (a + b).len() implies fix_iff_failed(#[trigger] (a + b)[i]) by {
        if i < a.len() {
            assert((a + b)[i] == a[i]);
        } else {
            assert((a + b)[i] == b[i - a.len()]);
        }
    }
}

/// Every failed check of the diagnosis comes with a fix to suggest, and no passed one does;
/// the diagnosis has thirteen checks, and one more on NVIDIA machines (the ICD).
pub proof fn lemma_failures_have_fixes(f: DoctorFacts)
    ensures
        all_fix_iff_failed(doctor_checks(f)),
        doctor_checks(f).len() == 13 + (if f.nvidia_present {
            1int
        } else {
            0int
        }),
{
    assert(all_fix_iff_failed(wine_checks(f)));
    assert(all_fix_iff_failed(prefix_checks(f)));
    assert(all_fix_iff_failed(vortex_checks(f)));
    assert(all_fix_iff_failed(receiver_checks(f)));
    assert(all_fix_iff_failed(vulkan_checks(f)));
    assert(all_fix_iff_failed(nvidia_checks(f)));
    assert(all_fix_iff_failed(uri_checks(f)));
    assert(all_fix_iff_failed(winetricks_checks(f)));
    assert(all_fix_iff_failed(session_checks(f)));
    assert(all_fix_iff_failed(network_checks(f)));
    assert(all_fix_iff_failed(gamemode_checks(f)));
    assert(all_fix_iff_failed(dll_checks(f)));
    let s1 = wine_checks(f) + prefix_checks(f);
    lemma_all_concat(wine_checks(f), prefix_checks(f));
    let s2 = s1 + vortex_checks(f);
    lemma_all_concat(s1, vortex_checks(f));
    let s2r = s2 + receiver_checks(f);
    lemma_all_concat(s2, receiver_checks(f));
    let s3 = s2r + vulkan_checks(f);
    lemma_all_concat(s2r, vulkan_checks(f));
    let s4 = s3 + nvidia_checks(f);
    lemma_all_concat(s3, nvidia_checks(f));
    let s5 = s4 + uri_checks(f);
    lemma_all_concat(s4, uri_checks(f));
    let s6 = s5 + winetricks_checks(f);
    lemma_all_concat(s5, winetricks_checks(f));
    let s7 = s6 + session_checks(f);
    lemma_all_concat(s6, session_checks(f));
    let s8 = s7 + network_checks(f);
    lemma_all_concat(s7, network_checks(f));
    let s9 = s8 + gamemode_checks(f);
    lemma_all_concat(s8, gamemode_checks(f));
    lemma_all_concat(s9, dll_checks(f));
}

/// The number of failed checks among the first `n`.
pub open spec fn failures_in(cs: Seq<CheckView>) -> nat
    decreases cs.len(),
{
    if cs.len() == 0 {
        0
    } else {
        failures_in(cs.drop_last()) + if cs.last().passed {
            0nat
        } else {
            1nat
        }
    }
}

/// The number of failed checks.
pub fn failure_count(checks: &Vec<Check>) -> (res: usize)
    ensures
        res == failures_in(checks_view(checks@)),
        res <= checks@.len(),
{
    let ghost cv = checks_view(checks@);
    let mut n: usize = 0;
    let mut i: usize = 0;
    while i < checks.len()
        invariant
            i <= checks.len(),
            cv == checks_view(checks@),
            n == failures_in(cv.take(i as int)),
            n <= i,
        decreases checks.len() - i,
    {
        assert(cv.take(i as int + 1).drop_last() =~= cv.take(i as int));
        if !checks[i].passed {
            n = n + 1;
        }
        i = i + 1;
    }
    assert(cv.take(checks.len() as int) =~= cv);
    n
}

} // verus!
