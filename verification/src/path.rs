//! The path model: an absolute filesystem path as a sequence of components.
//!
//! The resolver never hands strings to the operating system directly; it
//! works on this model, so that the ancestry walk and the candidate
//! filtering can be stated and proved.  Parsing splits on `/` and drops
//! empty components; rendering joins them back with a leading `/`.

use vstd::prelude::*;

verus! {

/// An absolute filesystem path, held as its components in order.  The root
/// directory is the empty component sequence.
#[derive(Debug)]
pub struct FsPath {
    pub components: Vec<String>,
}

impl View for FsPath {
    type V = Seq<Seq<char>>;

    open spec fn view(&self) -> Seq<Seq<char>> {
        self.components.deep_view()
    }
}

impl DeepView for FsPath {
    type V = Seq<Seq<char>>;

    open spec fn deep_view(&self) -> Seq<Seq<char>> {
        self.view()
    }
}

/// The components of `s` between `/` separators, scanning from position `i`
/// with the current component starting at `start`; empty components are
/// dropped.
pub open spec fn spec_split_from(s: Seq<char>, i: int, start: int) -> Seq<Seq<char>>
    decreases s.len() - i,
{
    if i < 0 || start < 0 || i >= s.len() {
        if 0 <= start < i <= s.len() {
            seq![s.subrange(start, i)]
        } else {
            Seq::empty()
        }
    } else if s[i] == '/' {
        if start < i {
            seq![s.subrange(start, i)] + spec_split_from(s, i + 1, i + 1)
        } else {
            spec_split_from(s, i + 1, i + 1)
        }
    } else {
        spec_split_from(s, i + 1, start)
    }
}

/// What parsing a path yields: its non-empty `/`-separated components.
pub open spec fn spec_parse_path(s: Seq<char>) -> Seq<Seq<char>> {
    spec_split_from(s, 0, 0)
}

/// The rendering of a non-empty component sequence: `/` before each
/// component.
pub open spec fn spec_join(p: Seq<Seq<char>>) -> Seq<char>
    decreases p.len(),
{
    if p.len() == 0 {
        Seq::empty()
    } else {
        spec_join(p.drop_last()) + "/"@ + p.last()
    }
}

/// What rendering a path yields: the root alone is `/`; otherwise `/` before
/// each component.
pub open spec fn spec_render_path(p: Seq<Seq<char>>) -> Seq<char> {
    if p.len() == 0 {
        "/"@
    } else {
        spec_join(p)
    }
}

impl FsPath {
    /// The root directory.
    pub fn root() -> (r: FsPath)
        ensures
            r@ == Seq::<Seq<char>>::empty(),
    {
        let r = FsPath { components: Vec::new() };
        proof {
            assert(r@ =~= Seq::<Seq<char>>::empty());
        }
        r
    }

    /// A path from its components.
    pub fn from_components(components: Vec<String>) -> (r: FsPath)
        ensures
            r@ == components.deep_view(),
    {
        FsPath { components }
    }

    /// Splits a string on `/` into a path, dropping empty components, so
    /// that `/a//b/` and `a/b` both mean `/a/b`.
    pub fn parse(s: &str) -> (r: FsPath)
        ensures
            r@ == spec_parse_path(s@),
    {
        let n = s.unicode_len();
        let mut components: Vec<String> = Vec::new();
        let mut i: usize = 0;
        let mut start: usize = 0;
        proof {
            assert(components.deep_view() + spec_split_from(s@, 0, 0) =~= spec_split_from(
                s@,
                0,
                0,
            ));
        }
        while i < n
            invariant
                n == s@.len(),
                start <= i <= n,
                spec_parse_path(s@) == components.deep_view() + spec_split_from(
                    s@,
                    i as int,
                    start as int,
                ),
            decreases n - i,
        {
            let c = s.get_char(i);
            if c == '/' {
                if start < i {
                    let comp = s.substring_char(start, i).to_owned();
                    let ghost old_components = components.deep_view();
                    components.push(comp);
                    proof {
                        assert(components.deep_view() =~= old_components.push(
                            s@.subrange(start as int, i as int),
                        ));
                        assert(components.deep_view() + spec_split_from(
                            s@,
                            i + 1,
                            i + 1,
                        ) =~= old_components + (seq![s@.subrange(start as int, i as int)]
                            + spec_split_from(s@, i + 1, i + 1)));
                    }
                }
                start = i + 1;
            }
            i = i + 1;
        }
        if start < n {
            let comp = s.substring_char(start, n).to_owned();
            let ghost old_components = components.deep_view();
            components.push(comp);
            proof {
                assert(components.deep_view() =~= old_components.push(
                    s@.subrange(start as int, n as int),
                ));
                assert(components.deep_view() =~= old_components + spec_split_from(
                    s@,
                    n as int,
                    start as int,
                ));
            }
        }
        let r = FsPath { components };
        proof {
            assert(r@ =~= spec_parse_path(s@));
        }
        r
    }

    /// Renders the path back as a string: `/` for the root, otherwise `/`
    /// before each component.
    pub fn render(&self) -> (r: String)
        ensures
            r@ == spec_render_path(self@),
    {
        let n = self.components.len();
        if n == 0 {
            let mut out = String::new();
            out.append("/");
            proof {
                assert(out@ =~= "/"@);
            }
            return out;
        }
        let mut out = String::new();
        let mut i: usize = 0;
        proof {
            assert(self@.subrange(0, 0) =~= Seq::<Seq<char>>::empty());
            assert(out@ =~= spec_join(self@.subrange(0, 0)));
        }
        while i < n
            invariant
                n == self.components.len(),
                i <= n,
                self@.len() == n,
                out@ == spec_join(self@.subrange(0, i as int)),
            decreases n - i,
        {
            out.append("/");
            out.append(self.components[i].as_str());
            proof {
                let pre = self@.subrange(0, i + 1);
                assert(pre.drop_last() =~= self@.subrange(0, i as int));
                assert(pre.last() == self@[i as int]);
                assert(self@[i as int] == self.components.deep_view()[i as int]);
                assert(out@ =~= spec_join(pre));
            }
            i = i + 1;
        }
        proof {
            assert(self@.subrange(0, n as int) =~= self@);
        }
        out
    }

    /// The path made of the first `n` components: an ancestor of this path.
    pub fn prefix(&self, n: usize) -> (r: FsPath)
        requires
            n <= self@.len(),
        ensures
            r@ == self@.subrange(0, n as int),
    {
        let mut components: Vec<String> = Vec::new();
        let mut i: usize = 0;
        proof {
            assert(components.deep_view() =~= self@.subrange(0, 0));
        }
        while i < n
            invariant
                n <= self.components.len(),
                i <= n,
                self@.len() == self.components.len(),
                components.deep_view() == self@.subrange(0, i as int),
            decreases n - i,
        {
            let ghost old_components = components.deep_view();
            components.push(self.components[i].clone());
            proof {
                assert(components.deep_view() =~= old_components.push(self@[i as int]));
                assert(components.deep_view() =~= self@.subrange(0, i + 1));
            }
            i = i + 1;
        }
        FsPath { components }
    }

    /// Component-wise equality with another path.
    pub fn same_path(&self, other: &FsPath) -> (r: bool)
        ensures
            r == (self@ == other@),
    {
        let n = self.components.len();
        if n != other.components.len() {
            proof {
                assert(self@.len() != other@.len());
            }
            return false;
        }
        let mut i: usize = 0;
        while i < n
            invariant
                n == self.components.len(),
                n == other.components.len(),
                self@.len() == n,
                other@.len() == n,
                i <= n,
                forall|j: int| 0 <= j < i ==> self@[j] == other@[j],
            decreases n - i,
        {
            if !crate::text::str_eq(self.components[i].as_str(), other.components[i].as_str()) {
                proof {
                    assert(self@[i as int] != other@[i as int]);
                }
                return false;
            }
            i = i + 1;
        }
        proof {
            assert(self@ =~= other@);
        }
        true
    }
}

impl Clone for FsPath {
    /// An equal path, component by component.
    fn clone(&self) -> (r: Self)
        ensures
            r@ == self@,
    {
        let r = self.prefix(self.components.len());
        proof {
            assert(self@.subrange(0, self@.len() as int) =~= self@);
        }
        r
    }
}

} // verus!
