use vstd::prelude::*;
use crate::path::{join, join_str};
use crate::setup::dll::{
    copies_view, copy_plan, install_dlls_from, is_valid_dll, system32_dir, syswow64_dir, verify_dll,
    DllCopy, DllProbe,
};
use crate::text::owned;

verus! {

/// The GitHub repository that vkd3d-proton is released from.
pub open spec fn repo() -> Seq<char> {
    "HansKristian-Work/vkd3d-proton"@
}

/// The suffix of the release asset to download.
pub open spec fn asset_suffix() -> Seq<char> {
    ".tar.zst"@
}

/// The DLLs that vkd3d-proton provides.
pub open spec fn dll_names() -> Seq<Seq<char>> {
    seq!["d3d12.dll"@, "d3d12core.dll"@]
}

/// The DLL overrides that make Wine load vkd3d-proton's DLLs.
pub open spec fn override_list() -> Seq<(Seq<char>, Seq<char>)> {
    seq![("d3d12"@, "native"@), ("d3d12core"@, "native"@)]
}

/// The GitHub repository that vkd3d-proton is released from.
pub fn release_repo() -> (res: String)
    ensures
        res@ == repo(),
{
    owned("HansKristian-Work/vkd3d-proton")
}

/// The suffix of the release asset to download.
pub fn release_asset_suffix() -> (res: String)
    ensures
        res@ == asset_suffix(),
{
    owned(".tar.zst")
}

/// The DLLs that vkd3d-proton provides.
pub fn dlls() -> (res: Vec<&'static str>)
    ensures
        res@.map_values(|s: &str| s@) == dll_names(),
{
    let v: Vec<&'static str> = vec!["d3d12.dll", "d3d12core.dll"];
    assert(v@.map_values(|s: &str| s@) =~= dll_names());
    v
}

/// The DLL overrides that make Wine load vkd3d-proton's DLLs.
pub fn overrides() -> (res: Vec<(&'static str, &'static str)>)
    ensures
        res@.map_values(|p: (&str, &str)| (p.0@, p.1@)) == override_list(),
{
    let v: Vec<(&'static str, &'static str)> = vec![("d3d12", "native"), ("d3d12core", "native")];
    assert(v@.map_values(|p: (&str, &str)| (p.0@, p.1@)) =~= override_list());
    v
}

/// The DLL whose validity shows that vkd3d-proton is installed in the prefix.
pub fn marker_dll(prefix: &str) -> (res: String)
    ensures
        res@ == join(prefix@, "drive_c/windows/system32/d3d12.dll"@),
{
    join_str(prefix, "drive_c/windows/system32/d3d12.dll")
}

/// vkd3d-proton is installed: the prefix's `d3d12.dll` is a valid PE binary.
pub fn is_installed(marker: &DllProbe) -> (res: bool)
    ensures
        res == is_valid_dll(*marker),
{
    verify_dll(marker)
}

/// The vkd3d-proton DLLs to install from one architecture directory of a release into `dest_dir`.
pub fn install_arch_dlls(src_dir_exists: bool, src_dir: &str, dest_dir: &str) -> (res: Vec<DllCopy>)
    ensures
        !src_dir_exists ==> res@.len() == 0,
        src_dir_exists ==> copies_view(res@) == copy_plan(src_dir@, dest_dir@, dll_names()),
{
    let names = dlls();
    install_dlls_from(src_dir_exists, src_dir, dest_dir, &names)
}

/// Where each architecture directory of an unpacked release goes: `x64` into `system32`,
/// `x86` into `syswow64`.
pub fn arch_targets(release_dir: &str, prefix: &str) -> (res: Vec<(String, String)>)
    ensures
        res@.map_values(|p: (String, String)| (p.0@, p.1@)) == seq![
            (join(release_dir@, "x64"@), join(prefix@, "drive_c/windows/system32"@)),
            (join(release_dir@, "x86"@), join(prefix@, "drive_c/windows/syswow64"@)),
        ],
{
    let mut v: Vec<(String, String)> = Vec::new();
    v.push((join_str(release_dir, "x64"), system32_dir(prefix)));
    v.push((join_str(release_dir, "x86"), syswow64_dir(prefix)));
    assert(v@.map_values(|p: (String, String)| (p.0@, p.1@)) =~= seq![
        (join(release_dir@, "x64"@), join(prefix@, "drive_c/windows/system32"@)),
        (join(release_dir@, "x86"@), join(prefix@, "drive_c/windows/syswow64"@)),
    ]);
    v
}

} // verus!
