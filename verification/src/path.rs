use vstd::prelude::*;
use crate::text::{extend_chars, from_chars, to_chars};

verus! {

/// `Path::join` for paths written with `/`: an absolute `b` replaces `a`; otherwise `b` is
/// appended, with a separator unless `a` is empty or already ends in one.
pub open spec fn join(a: Seq<char>, b: Seq<char>) -> Seq<char> {
    if b.len() > 0 && b[0] == '/' {
        b
    } else if a.len() == 0 || a.last() == '/' {
        a + b
    } else {
        a + seq!['/'] + b
    }
}

/// `a` joined with `b`, as `Path::join` does.
pub fn join_exec(a: &Vec<char>, b: &Vec<char>) -> (res: Vec<char>)
    ensures
        res@ == join(a@, b@),
{
    if b.len() > 0 && b[0] == '/' {
        let mut r: Vec<char> = Vec::new();
        extend_chars(&mut r, b);
        assert(r@ =~= b@);
        r
    } else if a.len() == 0 || a[a.len() - 1] == '/' {
        let mut r: Vec<char> = Vec::new();
        extend_chars(&mut r, a);
        extend_chars(&mut r, b);
        assert(r@ =~= a@ + b@);
        r
    } else {
        let mut r: Vec<char> = Vec::new();
        extend_chars(&mut r, a);
        r.push('/');
        extend_chars(&mut r, b);
        assert(r@ =~= a@ + seq!['/'] + b@);
        r
    }
}

/// `a` joined with `b`, as `Path::join` does, as a `String`.
pub fn join_str(a: &str, b: &str) -> (res: String)
    ensures
        res@ == join(a@, b@),
{
    let av = to_chars(a);
    let bv = to_chars(b);
    from_chars(&join_exec(&av, &bv))
}

/// What std's `Path::parent` gives for the path `p`.
pub uninterp spec fn parent_of(p: Seq<char>) -> Option<Seq<char>>;

/// std's `Path::parent`; its result is named `parent_of`. The parent of a path given as text is
/// a prefix of that text, so converting it back to text loses nothing.
#[verifier::external_body]
pub(crate) fn path_parent(p: &str) -> (res: Option<String>)
    ensures
        res matches Some(r) ==> parent_of(p@) == Some(r@),
        res is None ==> parent_of(p@) is None,
{
    std::path::Path::new(p).parent().map(|q| q.to_string_lossy().into_owned())
}

/// What std's `Path::with_extension` gives for the path `p` and the extension `ext`.
pub uninterp spec fn with_extension(p: Seq<char>, ext: Seq<char>) -> Seq<char>;

/// std's `Path::with_extension`; its result is named `with_extension`. std panics where the
/// extension holds a path separator, so the extension holds no `/`.
#[verifier::external_body]
pub(crate) fn path_with_extension(p: &str, ext: &str) -> (res: String)
    requires
        !ext@.contains('/'),
    ensures
        res@ == with_extension(p@, ext@),
{
    std::path::Path::new(p).with_extension(ext).to_string_lossy().into_owned()
}

} // verus!
