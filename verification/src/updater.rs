use vstd::prelude::*;
use crate::error::{IoKind, TempestError};
use crate::text::{contains, contains_str, ends_with, ends_with_str, lowercase, lowercase_exec, owned, to_chars};

verus! {

/// Where the Vortex client is downloaded from.
pub fn download_url() -> (res: String)
    ensures
        res@ == "https://playvortex.io/download/windows"@,
{
    owned("https://playvortex.io/download/windows")
}

/// What the `zip` crate lists in the archive `bytes`: an error message where
/// `ZipArchive::new` fails, else for each entry its name, or none where `by_index` fails.
pub uninterp spec fn zip_entry_names(bytes: Seq<u8>) -> Result<Seq<Option<Seq<char>>>, Seq<char>>;

/// What the `zip` crate reads from entry `index` of the archive `bytes`: its name and its
/// contents, or an error message where opening, `by_index` or reading fails.
pub uninterp spec fn zip_entry(bytes: Seq<u8>, index: nat) -> Result<(Seq<char>, Seq<u8>), Seq<char>>;

/// The views of optional entry names.
pub open spec fn names_view(v: Seq<Option<String>>) -> Seq<Option<Seq<char>>> {
    v.map_values(|o: Option<String>| crate::text::opt_view(o))
}

/// `zip::ZipArchive::new` on the bytes, then `by_index(i)` and `name()` for every entry;
/// the result is named `zip_entry_names`.
#[verifier::external_body]
fn zip_names(bytes: &[u8]) -> (res: Result<Vec<Option<String>>, String>)
    ensures
        match (res, zip_entry_names(bytes@)) {
            (Ok(v), Ok(n)) => names_view(v@) == n,
            (Err(e), Err(m)) => e@ == m,
            _ => false,
        },
{
    let mut a = zip::ZipArchive::new(std::io::Cursor::new(bytes)).map_err(|e| e.to_string())?;
    Ok((0..a.len()).map(|i| a.by_index(i).ok().map(|f| f.name().to_string())).collect())
}

/// `zip::ZipArchive::new` on the bytes, then `by_index(index)`, its `name()` and its contents
/// (`read_to_end`); the result is named `zip_entry`.
#[verifier::external_body]
fn zip_read(bytes: &[u8], index: usize) -> (res: Result<(String, Vec<u8>), String>)
    ensures
        match (res, zip_entry(bytes@, index as nat)) {
            (Ok(r), Ok(z)) => r.0@ == z.0 && r.1@ == z.1,
            (Err(e), Err(m)) => e@ == m,
            _ => false,
        },
{
    let mut a = zip::ZipArchive::new(std::io::Cursor::new(bytes)).map_err(|e| e.to_string())?;
    let mut f = a.by_index(index).map_err(|e| e.to_string())?;
    let mut out = Vec::new();
    std::io::Read::read_to_end(&mut f, &mut out).map_err(|e| e.to_string())?;
    Ok((f.name().to_string(), out))
}

/// An entry name that is the Vortex client: in lower case, it ends in `.exe` and mentions
/// `vortex`.
pub open spec fn is_vortex_exe(name: Seq<char>) -> bool {
    let l = lowercase(name);
    ends_with(l, ".exe"@) && (contains(l, "vortex"@) || contains(l, "/vortex"@))
}

/// Whether an entry name is the Vortex client.
pub fn is_vortex_exe_name(name: &str) -> (res: bool)
    ensures
        res == is_vortex_exe(name@),
{
    let l = lowercase_exec(&to_chars(name));
    is_client_name(&crate::text::from_chars(&l))
}

/// Whether a lower-case entry name is the Vortex client: it ends in `.exe` and mentions
/// `vortex`.
pub fn is_client_name(lower: &String) -> (res: bool)
    ensures
        res == (ends_with(lower@, ".exe"@) && (contains(lower@, "vortex"@) || contains(
            lower@,
            "/vortex"@,
        ))),
{
    let l = to_chars(lower.as_str());
    ends_with_str(&l, ".exe") && (contains_str(&l, "vortex") || contains_str(&l, "/vortex"))
}

/// The first entry (by position) whose name is the Vortex client.
pub open spec fn first_exe(names: Seq<Option<Seq<char>>>, i: int) -> Option<int>
    decreases names.len() - i,
{
    if i < 0 || i >= names.len() {
        None
    } else {
        match names[i] {
            Some(n) => if is_vortex_exe(n) {
                Some(i)
            } else {
                first_exe(names, i + 1)
            },
            None => first_exe(names, i + 1),
        }
    }
}

/// The position of the first entry whose name is the Vortex client.
pub fn find_vortex_exe(names: &Vec<Option<String>>) -> (res: Option<usize>)
    ensures
        match (res, first_exe(names_view(names@), 0)) {
            (Some(r), Some(i)) => r == i,
            (None, None) => true,
            _ => false,
        },
{
    let ghost nv = names_view(names@);
    let mut i: usize = 0;
    while i < names.len()
        invariant
            i <= names.len(),
            nv == names_view(names@),
            first_exe(nv, i as int) == first_exe(nv, 0),
        decreases names.len() - i,
    {
        match &names[i] {
            Some(n) => {
                if is_vortex_exe_name(n.as_str()) {
                    return Some(i);
                }
            },
            None => {},
        }
        i = i + 1;
    }
    None
}

/// The Vortex client inside a downloaded zip archive: the name and contents of the first entry
/// whose name is the client; an IO error where the archive cannot be read or the entry cannot be
/// read, and one of kind `NotFound` where the archive holds no such entry.
pub fn extract_exe_from_zip(zip_bytes: &Vec<u8>) -> (res: Result<(String, Vec<u8>), TempestError>)
    ensures
        match zip_entry_names(zip_bytes@) {
            Err(m) => res matches Err(TempestError::IoError(k, e)) && k == IoKind::Other && e@
                == m,
            Ok(names) => match first_exe(names, 0) {
                None => res matches Err(TempestError::IoError(k, e)) && k == IoKind::NotFound
                    && e@ == "No .exe found inside zip"@,
                Some(i) => match zip_entry(zip_bytes@, i as nat) {
                    Ok(z) => res matches Ok(r) && r.0@ == z.0 && r.1@ == z.1,
                    Err(m) => res matches Err(TempestError::IoError(k, e)) && k == IoKind::Other
                        && e@ == m,
                },
            },
        },
{
    let names = match zip_names(zip_bytes.as_slice()) {
        Ok(n) => n,
        Err(e) => {
            return Err(TempestError::IoError(IoKind::Other, e));
        },
    };
    let index = match find_vortex_exe(&names) {
        Some(i) => i,
        None => {
            return Err(TempestError::IoError(IoKind::NotFound, owned("No .exe found inside zip")));
        },
    };
    match zip_read(zip_bytes.as_slice(), index) {
        Ok(r) => Ok(r),
        Err(e) => Err(TempestError::IoError(IoKind::Other, e)),
    }
}

} // verus!
