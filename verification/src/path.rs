//! Locations on disk, as the library speaks of them.
//!
//! The library never touches the file system. It names a location as a root,
//! taken from the configuration as it stands there, and the parts that were
//! joined to it one after the other. Whoever acts on a location joins the
//! parts to the root with the platform's own rules.

use crate::text::{chars_of, last_segment, last_segment_start, string_of};
use vstd::prelude::*;

verus! {

/// A root and the parts joined to it, in the order of the joins.
#[derive(Debug)]
pub struct LocalPath {
    pub root: String,
    pub parts: Vec<String>,
}

/// The mathematical model of a [`LocalPath`].
pub struct PathView {
    pub root: Seq<char>,
    pub parts: Seq<Seq<char>>,
}

impl PathView {
    /// The location one join further.
    pub open spec fn join(self, part: Seq<char>) -> PathView {
        PathView { root: self.root, parts: self.parts.push(part) }
    }

    /// The location written out with `/` between its pieces.
    pub open spec fn text(self) -> Seq<char>
        decreases self.parts.len(),
    {
        if self.parts.len() == 0 {
            self.root
        } else {
            PathView { root: self.root, parts: self.parts.drop_last() }.text() + seq!['/']
                + self.parts.last()
        }
    }
}

impl View for LocalPath {
    type V = PathView;

    open spec fn view(&self) -> PathView {
        PathView { root: self.root@, parts: self.parts.deep_view() }
    }
}

impl DeepView for LocalPath {
    type V = PathView;

    open spec fn deep_view(&self) -> PathView {
        self.view()
    }
}

impl Clone for LocalPath {
    fn clone(&self) -> (r: Self)
        ensures
            r@ == self@,
    {
        let parts = self.parts.clone();
        assert(parts.deep_view() =~= self.parts.deep_view());
        LocalPath { root: self.root.clone(), parts }
    }
}

impl LocalPath {
    /// The location that `root` names by itself.
    pub fn new(root: &str) -> (r: LocalPath)
        ensures
            r@ == (PathView { root: root@, parts: Seq::empty() }),
    {
        let r = LocalPath { root: root.to_owned(), parts: Vec::new() };
        assert(r.parts.deep_view() =~= Seq::<Seq<char>>::empty());
        r
    }

    /// The location one join further; `self` stays as it is.
    pub fn join(&self, part: &str) -> (r: LocalPath)
        ensures
            r@ == self@.join(part@),
    {
        let mut next = self.clone();
        next.parts.push(part.to_owned());
        assert(next.parts.deep_view() =~= self.parts.deep_view().push(part@));
        next
    }

    /// The location written out with `/` between its pieces, for messages.
    pub fn to_text(&self) -> (r: String)
        ensures
            r@ == self@.text(),
    {
        let mut out = self.root.clone();
        let mut i: usize = 0;
        assert(self.parts.deep_view().take(0) =~= Seq::<Seq<char>>::empty());
        while i < self.parts.len()
            invariant
                i <= self.parts.len(),
                out@ == (PathView {
                    root: self.root@,
                    parts: self.parts.deep_view().take(i as int),
                }).text(),
            decreases self.parts.len() - i,
        {
            let ghost all = self.parts.deep_view();
            assert(all.take(i + 1).drop_last() =~= all.take(i as int));
            assert(all.take(i + 1).last() == self.parts[i as int]@);
            out.push('/');
            out.append(self.parts[i].as_str());
            i += 1;
        }
        assert(self.parts.deep_view().take(self.parts.len() as int) =~= self.parts.deep_view());
        out
    }
}

/// The name of the directory above, which is no file's name.
pub open spec fn parent_name() -> Seq<char> {
    seq!['.', '.']
}

/// The extension of a file's name: what follows its last `.`, where it has
/// one that is not its first character. The name is that of a file, the
/// last piece of a path and never the name of the directory above.
pub open spec fn extension_of(file_name: Seq<char>) -> Option<Seq<char>> {
    if file_name != parent_name() && last_segment(file_name, '.').len() + 1 < file_name.len() {
        Some(last_segment(file_name, '.'))
    } else {
        None
    }
}

/// The stem of a file's name: what stands before the `.` of its extension,
/// or all of the name where it has no extension.
pub open spec fn stem_of(file_name: Seq<char>) -> Seq<char> {
    match extension_of(file_name) {
        Some(extension) => file_name.take(file_name.len() - extension.len() - 1),
        None => file_name,
    }
}

/// Where the extension of a file's name begins, if it has one.
fn extension_start(chars: &Vec<char>) -> (r: Option<usize>)
    ensures
        match r {
            Some(start) => 2 <= start <= chars.len() && extension_of(chars@) == Some(
                chars@.skip(start as int),
            ),
            None => extension_of(chars@) is None,
        },
{
    let start = last_segment_start(chars, '.');
    if chars.len() == 2 && chars[0] == '.' && chars[1] == '.' {
        assert(chars@ =~= parent_name());
        return None;
    }
    if start >= 2 {
        assert(chars@ != parent_name()) by {
            if chars@ == parent_name() {
                assert(chars@.len() == 2);
            }
        }
        Some(start)
    } else {
        None
    }
}

/// The extension of a file's name, if it has one.
pub fn extension(file_name: &str) -> (r: Option<String>)
    ensures
        r.deep_view() == extension_of(file_name@),
{
    let chars = chars_of(file_name);
    match extension_start(&chars) {
        Some(start) => {
            assert(chars@.skip(start as int) =~= chars@.subrange(
                start as int,
                chars.len() as int,
            ));
            Some(string_of(&chars, start, chars.len()))
        },
        None => None,
    }
}

/// The stem of a file's name.
pub fn file_stem(file_name: &str) -> (r: String)
    ensures
        r@ == stem_of(file_name@),
{
    let chars = chars_of(file_name);
    match extension_start(&chars) {
        Some(start) => {
            assert(chars@.take(start - 1) =~= chars@.subrange(0, start - 1));
            string_of(&chars, 0, start - 1)
        },
        None => {
            assert(chars@.subrange(0, chars.len() as int) =~= chars@);
            string_of(&chars, 0, chars.len())
        },
    }
}

} // verus!
