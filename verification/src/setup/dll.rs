use vstd::prelude::*;
use crate::error::TempestError;
use crate::launcher::{env_view, strs_view, CommandSpec};
use crate::path::{join, join_str, path_with_extension, with_extension};
use crate::text::{contains, contains_str, extend_str, from_chars, owned, to_chars};

verus! {

/// What is known of a file that should be a Windows DLL.
pub struct DllProbe {
    /// The file exists.
    pub exists: bool,
    /// What `file` printed about it, where `file` ran and succeeded.
    pub file_output: Option<String>,
    /// Its first two bytes, where they could be read.
    pub magic: Option<(u8, u8)>,
}

/// The file is a PE binary: `file` says `PE32` or `MS-DOS executable`; where `file` did not
/// run, the file starts with `MZ`.
pub open spec fn is_valid_dll(p: DllProbe) -> bool {
    if !p.exists {
        false
    } else {
        match p.file_output {
            Some(o) => contains(o@, "PE32"@) || contains(o@, "MS-DOS executable"@),
            None => p.magic == Some((0x4Du8, 0x5Au8)),
        }
    }
}

/// Whether the probed file is a valid PE binary.
pub fn verify_dll(probe: &DllProbe) -> (res: bool)
    ensures
        res == is_valid_dll(*probe),
{
    if !probe.exists {
        return false;
    }
    match &probe.file_output {
        Some(o) => {
            let v = to_chars(o.as_str());
            contains_str(&v, "PE32") || contains_str(&v, "MS-DOS executable")
        },
        None => match probe.magic {
            Some((a, b)) => a == 0x4D && b == 0x5A,
            None => false,
        },
    }
}

/// Where a DLL is backed up before it is replaced: the path with the extension `dll.bak`.
pub fn backup_path(path: &str) -> (res: String)
    ensures
        res@ == with_extension(path@, "dll.bak"@),
{
    proof {
        reveal_strlit("dll.bak");
        assert(!"dll.bak"@.contains('/')) by {
            assert forall|i: int| 0 <= i < "dll.bak"@.len() implies "dll.bak"@[i] != '/' by {}
        }
    }
    path_with_extension(path, "dll.bak")
}

/// Whether installing a DLL may go on: the source must be a valid PE binary (else an error
/// naming it); on success, whether to warn that an existing destination is not one.
pub fn install_check(src_valid: bool, src_display: &str, dest_exists: bool, dest_valid: bool) -> (res:
    Result<bool, TempestError>)
    ensures
        !src_valid ==> (res matches Err(TempestError::Other(m)) && m@ == src_display@
            + " does not appear to be a valid PE binary"@),
        src_valid ==> res == Ok::<bool, TempestError>(dest_exists && !dest_valid),
{
    if !src_valid {
        let mut v = to_chars(src_display);
        extend_str(&mut v, " does not appear to be a valid PE binary");
        return Err(TempestError::Other(from_chars(&v)));
    }
    Ok(dest_exists && !dest_valid)
}

/// A DLL to copy: from the source to the destination.
#[derive(Debug, Clone, PartialEq, Eq)]
pub struct DllCopy {
    pub src: String,
    pub dest: String,
}

/// The copies for the named DLLs from `src_dir` to `dest_dir`, in order.
pub open spec fn copy_plan(src_dir: Seq<char>, dest_dir: Seq<char>, names: Seq<Seq<char>>) -> Seq<
    (Seq<char>, Seq<char>),
> {
    names.map_values(|n: Seq<char>| (join(src_dir, n), join(dest_dir, n)))
}

/// The views of planned copies.
pub open spec fn copies_view(v: Seq<DllCopy>) -> Seq<(Seq<char>, Seq<char>)> {
    v.map_values(|c: DllCopy| (c.src@, c.dest@))
}

/// The DLLs to install from `src_dir` into `dest_dir`: none where `src_dir` does not exist,
/// else each named DLL, in order; each is installed where its source exists.
pub fn install_dlls_from(src_dir_exists: bool, src_dir: &str, dest_dir: &str, dlls: &Vec<&str>) -> (res:
    Vec<DllCopy>)
    ensures
        !src_dir_exists ==> res@.len() == 0,
        src_dir_exists ==> copies_view(res@) == copy_plan(
            src_dir@,
            dest_dir@,
            dlls@.map_values(|s: &str| s@),
        ),
{
    let mut res: Vec<DllCopy> = Vec::new();
    if !src_dir_exists {
        return res;
    }
    let ghost names = dlls@.map_values(|s: &str| s@);
    let mut i: usize = 0;
    while i < dlls.len()
        invariant
            i <= dlls.len(),
            names == dlls@.map_values(|s: &str| s@),
            copies_view(res@) == copy_plan(src_dir@, dest_dir@, names.take(i as int)),
        decreases dlls.len() - i,
    {
        let ghost before = res@;
        res.push(DllCopy { src: join_str(src_dir, dlls[i]), dest: join_str(dest_dir, dlls[i]) });
        assert(names[i as int] == dlls@[i as int]@);
        assert(copies_view(res@) =~= copies_view(before).push(
            (join(src_dir@, names[i as int]), join(dest_dir@, names[i as int])),
        ));
        assert(copy_plan(src_dir@, dest_dir@, names.take(i as int + 1)) =~= copy_plan(
            src_dir@,
            dest_dir@,
            names.take(i as int),
        ).push((join(src_dir@, names[i as int]), join(dest_dir@, names[i as int]))));
        i = i + 1;
    }
    assert(names.take(dlls.len() as int) =~= names);
    res
}

/// The arguments of `wine reg add` that set the DLL override of `dll` to `kind`.
pub open spec fn override_args(dll: Seq<char>, kind: Seq<char>) -> Seq<Seq<char>> {
    seq![
        "reg"@,
        "add"@,
        "HKCU\\Software\\Wine\\DllOverrides"@,
        "/v"@,
        dll,
        "/t"@,
        "REG_SZ"@,
        "/d"@,
        kind,
        "/f"@,
    ]
}

/// The command that sets the DLL override of `dll` to `kind` in the prefix, with Wine's debug
/// output off.
pub fn set_dll_override(prefix: &str, dll_name: &str, override_type: &str) -> (res: CommandSpec)
    ensures
        res.program@ == "wine"@,
        strs_view(res.args@) == override_args(dll_name@, override_type@),
        env_view(res.env@) == seq![("WINEPREFIX"@, prefix@), ("WINEDEBUG"@, "-all"@)],
{
    let mut args: Vec<String> = Vec::new();
    args.push(owned("reg"));
    args.push(owned("add"));
    args.push(owned("HKCU\\Software\\Wine\\DllOverrides"));
    args.push(owned("/v"));
    args.push(owned(dll_name));
    args.push(owned("/t"));
    args.push(owned("REG_SZ"));
    args.push(owned("/d"));
    args.push(owned(override_type));
    args.push(owned("/f"));
    let mut env: Vec<(String, String)> = Vec::new();
    env.push((owned("WINEPREFIX"), owned(prefix)));
    env.push((owned("WINEDEBUG"), owned("-all")));
    assert(strs_view(args@) =~= override_args(dll_name@, override_type@));
    assert(env_view(env@) =~= seq![("WINEPREFIX"@, prefix@), ("WINEDEBUG"@, "-all"@)]);
    CommandSpec { program: owned("wine"), args, env }
}

/// The 64-bit system directory of the prefix.
pub fn system32_dir(prefix: &str) -> (res: String)
    ensures
        res@ == join(prefix@, "drive_c/windows/system32"@),
{
    join_str(prefix, "drive_c/windows/system32")
}

/// The 32-bit system directory of the prefix.
pub fn syswow64_dir(prefix: &str) -> (res: String)
    ensures
        res@ == join(prefix@, "drive_c/windows/syswow64"@),
{
    join_str(prefix, "drive_c/windows/syswow64")
}

} // verus!
