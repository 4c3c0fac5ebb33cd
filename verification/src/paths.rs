//! A structural model of file-system paths: whether the path starts at the
//! root, and the names that follow.

use vstd::prelude::*;

verus! {

/// A path as a root marker and a list of component names.
#[derive(Debug, PartialEq)]
pub struct FilePath {
    /// whether the path starts at the file-system root
    pub absolute: bool,
    /// the names after the root, outermost first
    pub components: Vec<String>,
}

/// The names of a list of strings, each by its characters.
pub open spec fn names_of(components: Seq<String>) -> Seq<Seq<char>> {
    components.map_values(|s: String| s@)
}

/// The separator between the components of a path written as text.
pub const SEPARATOR: char = '/';

/// The components of a path written as text: the non-empty pieces
/// between separators, in order. `from` is where the piece at hand
/// begins and `at` is how far the text has been read.
pub open spec fn pieces(text: Seq<char>, from: int, at: int) -> Seq<Seq<char>>
    decreases text.len() - at,
{
    if from < 0 || at < from {
        Seq::empty()
    } else if at >= text.len() {
        if from < text.len() {
            seq![text.subrange(from, text.len() as int)]
        } else {
            Seq::empty()
        }
    } else if text[at] == SEPARATOR {
        if from < at {
            seq![text.subrange(from, at)] + pieces(text, at + 1, at + 1)
        } else {
            pieces(text, at + 1, at + 1)
        }
    } else {
        pieces(text, from, at + 1)
    }
}

/// The components written one after the other, each after a separator.
pub open spec fn chained(parts: Seq<Seq<char>>) -> Seq<char>
    decreases parts.len(),
{
    if parts.len() == 0 {
        Seq::empty()
    } else {
        chained(parts.drop_last()) + seq![SEPARATOR] + parts.last()
    }
}

/// A path written as text: the components with separators between them,
/// after a separator if the path is absolute.
pub open spec fn written(absolute: bool, parts: Seq<Seq<char>>) -> Seq<char> {
    if absolute {
        if parts.len() == 0 {
            seq![SEPARATOR]
        } else {
            chained(parts)
        }
    } else if parts.len() == 0 {
        Seq::empty()
    } else {
        chained(parts).drop_first()
    }
}

impl FilePath {
    /// Writes the path as text.
    pub fn to_text(&self) -> (text: String)
        ensures
            text@ == written(self.absolute, self.parts()),
    {
        let n = self.components.len();
        if n == 0 {
            proof {
                reveal_strlit("/");
                reveal_strlit("");
                assert("/"@ =~= seq![SEPARATOR]);
                assert(""@ =~= Seq::<char>::empty());
            }
            if self.absolute {
                return String::from_str("/");
            } else {
                return String::from_str("");
            }
        }
        let mut text = if self.absolute {
            String::from_str("/")
        } else {
            String::from_str("")
        };
        text.append(self.components[0].as_str());
        proof {
            reveal_strlit("/");
            reveal_strlit("");
            let first = self.parts().subrange(0, 1);
            assert(first.drop_last() =~= Seq::<Seq<char>>::empty());
            assert(chained(first.drop_last()) =~= Seq::<char>::empty());
            assert(first.last() == self.components@[0]@);
            assert(chained(first) =~= seq![SEPARATOR] + self.components@[0]@);
            assert(text@ =~= written(self.absolute, first));
        }
        let mut i: usize = 1;
        while i < n
            invariant
                1 <= i <= n,
                n == self.components@.len(),
                text@ == written(self.absolute, self.parts().subrange(0, i as int)),
            decreases n - i,
        {
            let ghost before = self.parts().subrange(0, i as int);
            text.append("/");
            text.append(self.components[i].as_str());
            i = i + 1;
            proof {
                reveal_strlit("/");
                let now = self.parts().subrange(0, i as int);
                assert(now.drop_last() =~= before);
                assert(now.last() == self.components@[i - 1]@);
                assert(chained(before).len() > 0) by {
                    assert(chained(before) == chained(before.drop_last()) + seq![SEPARATOR] + before.last());
                }
                assert(text@ =~= written(self.absolute, now));
            }
        }
        assert(self.parts().subrange(0, n as int) =~= self.parts());
        text
    }

    /// Reads a path written as text. The path is absolute if the text
    /// begins with a separator; repeated and trailing separators name
    /// nothing.
    pub fn from_text(text: &str) -> (path: FilePath)
        ensures
            path.absolute == (text@.len() > 0 && text@[0] == SEPARATOR),
            path.parts() == pieces(text@, 0, 0),
            forall|k: int| 0 <= k < path.parts().len() ==> (#[trigger] path.parts()[k]).len() > 0,
    {
        let n = text.unicode_len();
        let absolute = n > 0 && text.get_char(0) == SEPARATOR;
        let mut components: Vec<String> = Vec::new();
        let mut from: usize = 0;
        let mut at: usize = 0;
        assert(names_of(components@) + pieces(text@, 0, 0) =~= pieces(text@, 0, 0));
        while at < n
            invariant
                n == text@.len(),
                from <= at <= n,
                names_of(components@) + pieces(text@, from as int, at as int) == pieces(text@, 0, 0),
                forall|k: int| 0 <= k < components@.len() ==> (#[trigger] names_of(components@)[k]).len() > 0,
            decreases n - at,
        {
            let ghost before = names_of(components@);
            if text.get_char(at) == SEPARATOR {
                if from < at {
                    components.push(String::from_str(text.substring_char(from, at)));
                    assert(names_of(components@) =~= before + seq![text@.subrange(from as int, at as int)]);
                    assert(names_of(components@) + pieces(text@, at + 1, at + 1) =~= before + pieces(
                        text@,
                        from as int,
                        at as int,
                    ));
                }
                from = at + 1;
            }
            at = at + 1;
        }
        if from < n {
            let ghost before = names_of(components@);
            components.push(String::from_str(text.substring_char(from, n)));
            assert(names_of(components@) =~= before + seq![text@.subrange(from as int, n as int)]);
        } else {
            assert(names_of(components@) + Seq::<Seq<char>>::empty() =~= names_of(components@));
        }
        FilePath { absolute, components }
    }

    /// The component names of the path, outermost first.
    pub open spec fn parts(&self) -> Seq<Seq<char>> {
        names_of(self.components@)
    }

    /// The path that holds the first `n` components of this one.
    pub open spec fn prefix_parts(&self, n: int) -> Seq<Seq<char>> {
        self.parts().subrange(0, n)
    }

    /// An empty relative path, or the root when `absolute` is set.
    pub fn new(absolute: bool) -> (path: FilePath)
        ensures
            path.absolute == absolute,
            path.parts() == Seq::<Seq<char>>::empty(),
    {
        let path = FilePath { absolute, components: Vec::new() };
        assert(path.parts() =~= Seq::<Seq<char>>::empty());
        path
    }

    /// The number of components after the root.
    pub fn depth(&self) -> (n: usize)
        ensures
            n == self.parts().len(),
    {
        self.components.len()
    }

    /// A copy of the first `n` components, with the same root marker.
    pub fn truncated(&self, n: usize) -> (path: FilePath)
        requires
            n <= self.parts().len(),
        ensures
            path.absolute == self.absolute,
            path.parts() == self.prefix_parts(n as int),
    {
        let mut components: Vec<String> = Vec::new();
        let mut i: usize = 0;
        while i < n
            invariant
                i <= n <= self.components@.len(),
                components@.len() == i,
                names_of(components@) == names_of(self.components@).subrange(0, i as int),
            decreases n - i,
        {
            let ghost before = components@;
            let name = self.components[i].clone();
            components.push(name);
            i = i + 1;
            proof {
                let copied = names_of(components@);
                let wanted = names_of(self.components@).subrange(0, i as int);
                assert forall|k: int| 0 <= k < copied.len() implies copied[k] == wanted[k] by {
                    if k < i - 1 {
                        assert(names_of(before)[k] == names_of(self.components@).subrange(
                            0,
                            i - 1,
                        )[k]);
                    }
                }
                assert(copied =~= wanted);
            }
        }
        FilePath { absolute: self.absolute, components }
    }

    /// A full copy of the path.
    pub fn duplicate(&self) -> (path: FilePath)
        ensures
            path.absolute == self.absolute,
            path.parts() == self.parts(),
    {
        let path = self.truncated(self.components.len());
        assert(self.prefix_parts(self.components@.len() as int) =~= self.parts());
        path
    }

    /// The path with `name` adjoined as a further component.
    pub fn join(&self, name: &str) -> (path: FilePath)
        ensures
            path.absolute == self.absolute,
            path.parts() == self.parts().push(name@),
    {
        let mut path = self.duplicate();
        path.components.push(String::from_str(name));
        assert(path.parts() =~= self.parts().push(name@));
        path
    }

    /// The path without its last component; `None` for the root and for the
    /// empty relative path.
    pub fn parent(&self) -> (result: Option<FilePath>)
        ensures
            self.parts().len() == 0 ==> result.is_none(),
            self.parts().len() > 0 ==> result.is_some()
                && result.unwrap().absolute == self.absolute
                && result.unwrap().parts() == self.parts().drop_last(),
    {
        let n = self.components.len();
        if n == 0 {
            None
        } else {
            Some(self.truncated(n - 1))
        }
    }

    /// Whether the path is relative and begins with the component `name`.
    /// The first component of an absolute path is the root, which has no
    /// name.
    pub fn starts_with_name(&self, name: &str) -> (result: bool)
        ensures
            result == (!self.absolute && self.parts().len() > 0 && self.parts()[0] == name@),
    {
        if self.absolute || self.components.len() == 0 {
            false
        } else {
            let first = self.components[0].as_str();
            let same = str_equal(first, name);
            same
        }
    }
}

/// Whether two strings hold the same characters.
pub fn str_equal(a: &str, b: &str) -> (result: bool)
    ensures
        result == (a@ == b@),
{
    let left = String::from_str(a);
    let right = String::from_str(b);
    left == right
}

/// Whether `path` is what is called `name` in `directory`.
pub open spec fn lies_in_directory(path: &FilePath, directory: &FilePath, name: Seq<char>) -> bool {
    path.absolute == directory.absolute && path.parts() == directory.parts().push(name)
}

/// Whether a name can be a component: it is not empty and holds no
/// separator.
pub open spec fn is_name(name: Seq<char>) -> bool {
    name.len() > 0 && forall|i: int| 0 <= i < name.len() ==> name[i] != SEPARATOR
}

/// Whether every component is a name.
pub open spec fn are_names(parts: Seq<Seq<char>>) -> bool {
    forall|i: int| 0 <= i < parts.len() ==> is_name(#[trigger] parts[i])
}

/// The chain of some components is a separator, the first component, and
/// the chain of the others.
proof fn chain_from_the_front(parts: Seq<Seq<char>>)
    requires
        parts.len() > 0,
    ensures
        chained(parts) == seq![SEPARATOR] + parts[0] + chained(parts.drop_first()),
    decreases parts.len(),
{
    if parts.len() == 1 {
        assert(parts.drop_last() =~= Seq::<Seq<char>>::empty());
        assert(parts.drop_first() =~= Seq::<Seq<char>>::empty());
        assert(chained(parts) =~= seq![SEPARATOR] + parts[0] + chained(parts.drop_first()));
    } else {
        let front = parts.drop_last();
        chain_from_the_front(front);
        assert(front.drop_first() =~= parts.drop_first().drop_last());
        assert(parts.drop_first().last() == parts.last());
        assert(front[0] == parts[0]);
        assert(chained(parts) =~= seq![SEPARATOR] + parts[0] + chained(parts.drop_first()));
    }
}

/// Reading runs over characters that are no separators.
proof fn reading_runs_over_names(text: Seq<char>, from: int, at: int, to: int)
    requires
        0 <= from <= at <= to <= text.len(),
        forall|i: int| at <= i < to ==> text[i] != SEPARATOR,
    ensures
        pieces(text, from, at) == pieces(text, from, to),
    decreases to - at,
{
    if at < to {
        reading_runs_over_names(text, from, at + 1, to);
    }
}

/// Text that holds, from `at` on, a name and the chain of further names
/// is read from there as those names.
proof fn names_are_read(text: Seq<char>, at: int, name: Seq<char>, rest: Seq<Seq<char>>)
    requires
        0 <= at <= text.len(),
        text.subrange(at, text.len() as int) == name + chained(rest),
        is_name(name),
        are_names(rest),
    ensures
        pieces(text, at, at) == seq![name] + rest,
    decreases rest.len(),
{
    let tail = text.subrange(at, text.len() as int);
    let end = at + name.len();
    assert(tail.len() == text.len() - at);
    assert(tail.len() == name.len() + chained(rest).len());
    assert forall|i: int| at <= i < end implies text[i] != SEPARATOR by {
        assert(text[i] == tail[i - at]);
        assert(tail[i - at] == name[i - at]);
    }
    reading_runs_over_names(text, at, at, end);
    assert(text.subrange(at, end) =~= name) by {
        assert forall|i: int| 0 <= i < name.len() implies text.subrange(at, end)[i] == name[i] by {
            assert(text[at + i] == tail[i]);
        }
    }
    if rest.len() == 0 {
        assert(chained(rest) =~= Seq::<char>::empty());
        assert(end == text.len());
        assert(seq![name] + rest =~= seq![name]);
    } else {
        chain_from_the_front(rest);
        let others = rest.drop_first();
        assert(text[end] == SEPARATOR) by {
            assert(text[end] == tail[name.len() as int]);
        }
        assert(text.subrange(end + 1, text.len() as int) =~= rest[0] + chained(others)) by {
            assert forall|i: int| 0 <= i < text.len() - end - 1 implies text.subrange(
                end + 1,
                text.len() as int,
            )[i] == (rest[0] + chained(others))[i] by {
                assert(text[end + 1 + i] == tail[name.len() + 1 + i]);
            }
        }
        assert(are_names(others)) by {
            assert forall|i: int| 0 <= i < others.len() implies is_name(#[trigger] others[i]) by {
                assert(others[i] == rest[i + 1]);
            }
        }
        names_are_read(text, end + 1, rest[0], others);
        assert(seq![name] + (seq![rest[0]] + others) =~= seq![name] + rest);
    }
}

/// What is written is read back: the text of a path made of names reads
/// as that path.
pub proof fn written_reads_back(absolute: bool, parts: Seq<Seq<char>>)
    requires
        are_names(parts),
    ensures
        pieces(written(absolute, parts), 0, 0) == parts,
        absolute == (written(absolute, parts).len() > 0 && written(absolute, parts)[0] == SEPARATOR),
{
    let text = written(absolute, parts);
    if parts.len() == 0 {
        if absolute {
            reveal_with_fuel(pieces, 2);
        }
        assert(pieces(text, 0, 0) =~= parts);
    } else {
        chain_from_the_front(parts);
        let others = parts.drop_first();
        assert(are_names(others)) by {
            assert forall|i: int| 0 <= i < others.len() implies is_name(#[trigger] others[i]) by {
                assert(others[i] == parts[i + 1]);
            }
        }
        assert(is_name(parts[0]));
        if absolute {
            assert(text[0] == SEPARATOR);
            assert(text.subrange(1, text.len() as int) =~= parts[0] + chained(others));
            names_are_read(text, 1, parts[0], others);
        } else {
            assert(text =~= parts[0] + chained(others));
            assert(text.subrange(0, text.len() as int) =~= text);
            names_are_read(text, 0, parts[0], others);
            assert(text[0] == parts[0][0]);
        }
        assert(seq![parts[0]] + others =~= parts);
    }
}

} // verus!
