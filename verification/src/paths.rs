use vstd::prelude::*;

use crate::errors::Error;
use crate::strings::str_eq;

verus! {

/// The final path component of `p`: everything after the last `/`
/// (the whole string when there is no `/`, empty when `p` ends in `/`).
pub open spec fn file_name_of(p: Seq<char>) -> Seq<char>
    decreases p.len(),
{
    if p.len() == 0 {
        Seq::empty()
    } else if p.last() == '/' {
        Seq::empty()
    } else {
        file_name_of(p.drop_last()).push(p.last())
    }
}

/// The index of the last `.` of `n` that does not stand first, or -1 when
/// there is none: the dot that separates a name's stem from its extension.
pub open spec fn last_dot_of(n: Seq<char>) -> int
    decreases n.len(),
{
    if n.len() <= 1 {
        -1
    } else if n.last() == '.' {
        n.len() - 1
    } else {
        last_dot_of(n.drop_last())
    }
}

/// The file name without its extension; the whole name when it has none.
pub open spec fn stem_of(n: Seq<char>) -> Seq<char> {
    if last_dot_of(n) >= 0 {
        n.subrange(0, last_dot_of(n))
    } else {
        n
    }
}

/// The file name's extension, without the dot; empty when it has none.
pub open spec fn extension_of(n: Seq<char>) -> Seq<char> {
    if last_dot_of(n) >= 0 {
        n.subrange(last_dot_of(n) + 1, n.len() as int)
    } else {
        Seq::empty()
    }
}

/// A path is usable as an input artifact only when its final component
/// exists and is a real name, not a `.` or `..` segment.
pub open spec fn has_file_name(p: Seq<char>) -> bool {
    &&& file_name_of(p).len() > 0
    &&& file_name_of(p) != "."@
    &&& file_name_of(p) != ".."@
}

pub proof fn lemma_file_name_has_no_slash(p: Seq<char>)
    ensures
        forall|i: int| 0 <= i < file_name_of(p).len() ==> file_name_of(p)[i] != '/',
    decreases p.len(),
{
    if p.len() == 0 {
    } else if p.last() == '/' {
    } else {
        lemma_file_name_has_no_slash(p.drop_last());
        let f = file_name_of(p);
        let f0 = file_name_of(p.drop_last());
        assert forall|i: int| 0 <= i < f.len() implies f[i] != '/' by {
            if i < f0.len() {
                assert(f[i] == f0[i]);
            } else {
                assert(f[i] == p.last());
            }
        }
    }
}

/// Appending `/` and then a slash-free name to any prefix makes that name
/// the path's final component.
pub proof fn lemma_file_name_after_slash(a: Seq<char>, b: Seq<char>)
    requires
        forall|i: int| 0 <= i < b.len() ==> b[i] != '/',
    ensures
        file_name_of(a + "/"@ + b) == b,
    decreases b.len(),
{
    reveal_strlit("/");
    if b.len() == 0 {
        assert(a + "/"@ + b =~= a + "/"@);
        assert((a + "/"@).last() == '/');
    } else {
        let x = a + "/"@ + b;
        assert(x.last() == b.last());
        assert(b.last() != '/');
        assert(x.drop_last() =~= a + "/"@ + b.drop_last());
        lemma_file_name_after_slash(a, b.drop_last());
        assert(file_name_of(x) =~= b.drop_last().push(b.last()));
        assert(b.drop_last().push(b.last()) =~= b);
    }
}

/// In `a` + `.` + `e` with `a` non-empty and `e` dot-free, the stem-extension
/// dot is the one between `a` and `e`.
pub proof fn lemma_last_dot_after_dot(a: Seq<char>, e: Seq<char>)
    requires
        a.len() >= 1,
        forall|i: int| 0 <= i < e.len() ==> e[i] != '.',
    ensures
        last_dot_of(a + "."@ + e) == a.len(),
    decreases e.len(),
{
    reveal_strlit(".");
    if e.len() == 0 {
        assert(a + "."@ + e =~= a + "."@);
        assert((a + "."@).last() == '.');
        assert((a + "."@).len() == a.len() + 1);
    } else {
        let x = a + "."@ + e;
        assert(x.last() == e.last());
        assert(e.last() != '.');
        assert(x.len() == a.len() + 1 + e.len());
        assert(x.drop_last() =~= a + "."@ + e.drop_last());
        lemma_last_dot_after_dot(a, e.drop_last());
    }
}

/// A non-empty file name has a non-empty stem.
pub proof fn lemma_stem_nonempty(n: Seq<char>)
    requires
        n.len() > 0,
    ensures
        stem_of(n).len() > 0,
{
    if last_dot_of(n) >= 0 {
        lemma_last_dot_positive(n);
    }
}

/// The stem-extension dot never stands first in the name.
pub proof fn lemma_last_dot_positive(n: Seq<char>)
    ensures
        last_dot_of(n) == -1 || 1 <= last_dot_of(n) < n.len(),
    decreases n.len(),
{
    if n.len() <= 1 {
    } else if n.last() == '.' {
    } else {
        lemma_last_dot_positive(n.drop_last());
    }
}

/// A validated input artifact: its path, the display name derived from the
/// path's final component, and that name's stem.
pub struct FileInfo {
    pub path: String,
    pub name: String,
    pub stem: String,
}

impl FileInfo {
    /// The name and stem are exactly the ones the path derives.
    pub open spec fn wf(&self) -> bool {
        &&& has_file_name(self.path@)
        &&& self.name@ == file_name_of(self.path@)
        &&& self.stem@ == stem_of(self.name@)
    }

    /// Derives the display name and stem of `path`'s final component, and
    /// fails when the path has no usable file-name component.
    pub fn from_path(path: &str) -> (r: Result<FileInfo, Error>)
        ensures
            r is Ok <==> has_file_name(path@),
            r is Ok ==> r->Ok_0.wf() && r->Ok_0.path@ == path@,
            r is Err ==> (r->Err_0 matches Error::InvalidPath { path: p } && p@ == path@),
    {
        let name = file_name(path);
        if name.as_str().unicode_len() == 0 || str_eq(name.as_str(), ".") || str_eq(
            name.as_str(),
            "..",
        ) {
            Err(Error::InvalidPath { path: String::from_str(path) })
        } else {
            let stem = name_stem(name.as_str());
            Ok(FileInfo { path: String::from_str(path), name, stem })
        }
    }
}

impl FileInfo {
    /// The descriptor of the converted artifact: a file in `temp_dir` that
    /// reuses this artifact's stem with the target extension substituted.
    pub fn converted_in(&self, temp_dir: &str, ext: &str) -> (r: FileInfo)
        requires
            self.wf(),
            ext@.len() > 0,
            forall|i: int| 0 <= i < ext@.len() ==> ext@[i] != '/' && ext@[i] != '.',
        ensures
            r.wf(),
            r.path@ == temp_dir@ + "/"@ + self.stem@ + "."@ + ext@,
            r.name@ == self.stem@ + "."@ + ext@,
            r.stem@ == self.stem@,
    {
        let name = String::from_str(self.stem.as_str()).concat(".").concat(ext);
        let path = String::from_str(temp_dir).concat("/").concat(name.as_str());
        proof {
            reveal_strlit(".");
            reveal_strlit("..");
            reveal_strlit("/");
            lemma_file_name_has_no_slash(self.path@);
            lemma_last_dot_positive(self.name@);
            lemma_stem_nonempty(self.name@);
            assert(forall|i: int|
                0 <= i < self.stem@.len() ==> self.stem@[i] == self.name@[i]);
            assert forall|i: int| 0 <= i < name@.len() implies name@[i] != '/' by {
                if i < self.stem@.len() {
                    assert(name@[i] == self.stem@[i]);
                } else if i == self.stem@.len() {
                    assert(name@[i] == '.');
                } else {
                    assert(name@[i] == ext@[i - self.stem@.len() - 1]);
                }
            }
            lemma_file_name_after_slash(temp_dir@, name@);
            assert(path@ =~= temp_dir@ + "/"@ + name@);
            assert(path@ =~= temp_dir@ + "/"@ + self.stem@ + "."@ + ext@);
            lemma_last_dot_after_dot(self.stem@, ext@);
            assert(stem_of(name@) =~= self.stem@);
            assert(name@.len() >= 3);
            assert(name@ != "."@ && name@ != ".."@);
        }
        FileInfo { path, name, stem: self.stem.clone() }
    }
}

/// Extracts the final path component as an owned string.
fn file_name(path: &str) -> (r: String)
    ensures
        r@ == file_name_of(path@),
{
    let len = path.unicode_len();
    let mut start: usize = 0;
    let mut i: usize = 0;
    while i < len
        invariant
            len == path@.len(),
            start <= i <= len,
            file_name_of(path@.subrange(0, i as int)) == path@.subrange(
                start as int,
                i as int,
            ),
        decreases len - i,
    {
        let c = path.get_char(i);
        proof {
            let pre = path@.subrange(0, i as int);
            assert(path@.subrange(0, i + 1) =~= pre.push(path@[i as int]));
            assert(pre.push(path@[i as int]).drop_last() =~= pre);
            if path@[i as int] == '/' {
                assert(path@.subrange(i + 1, i + 1) =~= Seq::<char>::empty());
            } else {
                assert(path@.subrange(start as int, i as int).push(path@[i as int]) =~= path@
                    .subrange(start as int, i + 1));
            }
        }
        if c == '/' {
            start = i + 1;
        }
        i += 1;
    }
    proof {
        assert(path@.subrange(0, len as int) =~= path@);
    }
    let r = path.substring_char(start, len);
    String::from_str(r)
}

/// Finds the stem-extension dot of a file name: `(true, i)` when it stands
/// at `i`, `(false, 0)` when the name has no extension.
fn find_last_dot(name: &str) -> (r: (bool, usize))
    ensures
        (if r.0 {
            r.1 as int
        } else {
            -1
        }) == last_dot_of(name@),
        r.0 ==> 1 <= r.1 < name@.len(),
{
    proof {
        lemma_last_dot_positive(name@);
    }
    let len = name.unicode_len();
    let mut found = false;
    let mut dot: usize = 0;
    let mut i: usize = 0;
    while i < len
        invariant
            len == name@.len(),
            i <= len,
            (if found {
                dot as int
            } else {
                -1
            }) == last_dot_of(name@.subrange(0, i as int)),
            found ==> 1 <= dot < i,
        decreases len - i,
    {
        let c = name.get_char(i);
        proof {
            let pre = name@.subrange(0, i as int);
            assert(name@.subrange(0, i + 1) =~= pre.push(name@[i as int]));
            assert(pre.push(name@[i as int]).drop_last() =~= pre);
        }
        if c == '.' && i >= 1 {
            found = true;
            dot = i;
        }
        i += 1;
    }
    proof {
        assert(name@.subrange(0, len as int) =~= name@);
    }
    (found, dot)
}

/// Extracts a file name's stem: the name up to its stem-extension dot.
fn name_stem(name: &str) -> (r: String)
    ensures
        r@ == stem_of(name@),
{
    let (found, dot) = find_last_dot(name);
    if found {
        String::from_str(name.substring_char(0, dot))
    } else {
        String::from_str(name)
    }
}

/// Extracts a file name's extension, without the dot; empty when none.
pub fn name_extension(name: &str) -> (r: String)
    ensures
        r@ == extension_of(name@),
{
    let len = name.unicode_len();
    let (found, dot) = find_last_dot(name);
    if found {
        String::from_str(name.substring_char(dot + 1, len))
    } else {
        String::new()
    }
}

} // verus!
