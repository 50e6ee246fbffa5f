//! Where the local driver keeps files, and the URLs it hands out.
use vstd::prelude::*;
use vstd::string::*;
use crate::text::{joined_path, join_path};

verus! {

/// `s` without any trailing `c`.
pub open spec fn trim_end(s: Seq<char>, c: char) -> Seq<char>
    decreases s.len(),
{
    if s.len() > 0 && s.last() == c { trim_end(s.drop_last(), c) } else { s }
}

/// `s` without any leading `c`.
pub open spec fn trim_start(s: Seq<char>, c: char) -> Seq<char>
    decreases s.len(),
{
    if s.len() > 0 && s[0] == c { trim_start(s.drop_first(), c) } else { s }
}

/// The URL of the file `path` on a disk served at `base`: exactly one `/` between them.
pub open spec fn file_url(base: Seq<char>, path: Seq<char>) -> Seq<char> {
    trim_end(base, '/') + seq!['/'] + trim_start(path, '/')
}

fn trim_end_char(s: &str, c: char) -> (r: &str)
    ensures
        r@ == trim_end(s@, c),
{
    let mut n = s.unicode_len();
    proof {
        assert(s@.subrange(0, n as int) =~= s@);
    }
    while n > 0 && s.get_char(n - 1) == c
        invariant
            n <= s@.len(),
            trim_end(s@, c) == trim_end(s@.subrange(0, n as int), c),
        decreases n,
    {
        assert(s@.subrange(0, n as int).drop_last() =~= s@.subrange(0, n - 1));
        n = n - 1;
    }
    s.substring_char(0, n)
}

fn trim_start_char(s: &str, c: char) -> (r: &str)
    ensures
        r@ == trim_start(s@, c),
{
    let len = s.unicode_len();
    let mut n: usize = 0;
    proof {
        assert(s@.subrange(0, len as int) =~= s@);
    }
    while n < len && s.get_char(n) == c
        invariant
            len == s@.len(),
            n <= len,
            trim_start(s@, c) == trim_start(s@.subrange(n as int, len as int), c),
        decreases len - n,
    {
        assert(s@.subrange(n as int, len as int).drop_first() =~= s@.subrange(n + 1, len as int));
        n = n + 1;
    }
    s.substring_char(n, len)
}

/// A disk in a local directory.
pub struct LocalDriver {
    root: String,
    url: String,
}

impl LocalDriver {
    /// The root directory.
    pub closed spec fn spec_root(&self) -> Seq<char> {
        self.root@
    }

    /// The base URL.
    pub closed spec fn spec_url(&self) -> Seq<char> {
        self.url@
    }

    /// A driver for the directory `root` served at `url` (the directory is created by
    /// the caller).
    pub fn with_root(root: String, url: &str) -> (d: Self)
        ensures
            d.spec_root() == root@,
            d.spec_url() == url@,
    {
        LocalDriver { root, url: String::from_str(url) }
    }

    /// The root directory.
    pub fn root(&self) -> (s: &str)
        ensures
            s@ == self.spec_root(),
    {
        self.root.as_str()
    }

    /// Where `path` is kept.
    pub fn ensure_path(&self, path: &str) -> (p: String)
        ensures
            p@ == joined_path(self.spec_root(), path@),
    {
        join_path(self.root.as_str(), path)
    }

    /// The URL of `path`.
    pub fn url(&self, path: &str) -> (u: String)
        ensures
            u@ == file_url(self.spec_url(), path@),
    {
        let base = trim_end_char(self.url.as_str(), '/');
        let rest = trim_start_char(path, '/');
        let u = String::from_str(base).concat("/").concat(rest);
        proof { reveal_strlit("/"); }
        assert(u@ =~= file_url(self.spec_url(), path@));
        u
    }
}

/// Slashes at the end of the base URL or at the start of the path do not change a
/// file's URL.
pub proof fn url_ignores_extra_slashes(base: Seq<char>, path: Seq<char>)
    ensures
        file_url(base.push('/'), path) == file_url(base, path),
        file_url(base, seq!['/'] + path) == file_url(base, path),
{
    assert(base.push('/').drop_last() =~= base);
    assert((seq!['/'] + path).drop_first() =~= path);
}

} // verus!
