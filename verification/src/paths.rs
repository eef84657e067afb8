//! Paths as text: the name of the file or device that a path ends in.

use crate::text::{chars_of, same_text};
use crate::words::{
    count_leading, count_trailing, leading, lemma_leading_run, lemma_trailing_run, trailing,
    CharClass,
};
use vstd::prelude::*;
use vstd::slice::slice_subrange;

verus! {

/// The final component of `path`. Slashes at the end and components `.`
/// after another component are passed over; a path that is empty, is the
/// root or the current directory, or ends in `..`, has none.
pub open spec fn file_name(path: Seq<char>) -> Option<Seq<char>>
    decreases path.len(),
{
    if path.len() == 0 {
        None
    } else if path.last() == '/' {
        file_name(path.drop_last())
    } else {
        let n = trailing(path, CharClass::InName);
        let parent = path.take(path.len() - n);
        let name = path.skip(path.len() - n);
        proof {
            lemma_trailing_run(path, CharClass::InName);
        }
        if name == seq!['.', '.'] {
            None
        } else if name == seq!['.'] {
            if parent.len() == 0 {
                None
            } else {
                file_name(parent)
            }
        } else {
            Some(name)
        }
    }
}

/// The final component of `path`, if it has one.
pub fn path_file_name(path: &[char]) -> (r: Option<&[char]>)
    ensures
        match r {
            Some(name) => file_name(path@) == Some(name@),
            None => file_name(path@) is None,
        },
{
    let mut end: usize = path.len();
    assert(path@.take(end as int) == path@);
    loop
        invariant
            end <= path.len(),
            file_name(path@) == file_name(path@.take(end as int)),
        decreases end,
    {
        let ghost head = path@.take(end as int);
        if end == 0 {
            return None;
        }
        if path[end - 1] == '/' {
            assert(head.drop_last() == path@.take(end - 1));
            end -= 1;
        } else {
            let n = count_trailing(path, end, CharClass::InName);
            let start = end - n;
            proof {
                lemma_trailing_run(head, CharClass::InName);
                assert(head.take(head.len() - n) == path@.take(start as int));
                assert(head.skip(head.len() - n) == path@.subrange(start as int, end as int));
            }
            let name = slice_subrange(path, start, end);
            if n == 2 && name[0] == '.' && name[1] == '.' {
                assert(name@ == seq!['.', '.']);
                return None;
            } else if n == 1 && name[0] == '.' {
                assert(name@ == seq!['.']);
                if start == 0 {
                    return None;
                }
                end = start;
            } else {
                assert(name@ != seq!['.', '.']) by {
                    if name@ == seq!['.', '.'] {
                        assert(name@.len() == 2);
                        assert(name@[0] == '.' && name@[1] == '.');
                    }
                }
                assert(name@ != seq!['.']) by {
                    if name@ == seq!['.'] {
                        assert(name@.len() == 1);
                        assert(name@[0] == '.');
                    }
                }
                return Some(name);
            }
        }
    }
}

/// The components of `path`: its runs of characters between slashes, in
/// order, but for the runs `.`, which stand for no component.
pub open spec fn components(path: Seq<char>) -> Seq<Seq<char>>
    decreases path.len(),
{
    let t = path.skip(leading(path, CharClass::Slash) as int);
    if t.len() == 0 {
        Seq::empty()
    } else {
        let n = leading(t, CharClass::InName) as int;
        proof {
            lemma_leading_run(path, CharClass::Slash);
            assert(t[0] == path[leading(path, CharClass::Slash) as int]);
            assert(CharClass::InName.has(t[0]));
            lemma_leading_run(t, CharClass::InName);
        }
        if t.take(n) == seq!['.'] {
            components(t.skip(n))
        } else {
            seq![t.take(n)] + components(t.skip(n))
        }
    }
}

/// Whether `path` names an entry of the directory `/dev`: it starts at the
/// root and has the two components `dev` and an entry's name.
pub open spec fn is_dev_entry(path: Seq<char>) -> bool {
    &&& path.len() > 0
    &&& path[0] == '/'
    &&& components(path).len() == 2
    &&& components(path)[0] == "dev"@
}

/// The first component of `path` at or after position `from`, as the pair
/// of its start and its end, or `None` when no component is left.
fn next_component(path: &[char], from: usize) -> (r: Option<(usize, usize)>)
    requires
        from <= path.len(),
    ensures
        match r {
            None => components(path@.skip(from as int)) == Seq::<Seq<char>>::empty(),
            Some((a, b)) => {
                &&& from <= a < b <= path.len()
                &&& components(path@.skip(from as int)) == seq![
                    path@.subrange(a as int, b as int),
                ] + components(path@.skip(b as int))
            },
        },
    decreases path.len() - from,
{
    let k = count_leading(path, from, CharClass::Slash);
    let a = from + k;
    let ghost rest = path@.skip(from as int);
    let ghost t = rest.skip(k as int);
    assert(t == path@.skip(a as int));
    if a == path.len() {
        return None;
    }
    let n = count_leading(path, a, CharClass::InName);
    let b = a + n;
    proof {
        lemma_leading_run(rest, CharClass::Slash);
        lemma_leading_run(t, CharClass::InName);
        assert(t.take(n as int) == path@.subrange(a as int, b as int));
        assert(t.skip(n as int) == path@.skip(b as int));
    }
    if n == 1 && path[a] == '.' {
        assert(t.take(n as int) == seq!['.']);
        next_component(path, b)
    } else {
        assert(t.take(n as int) != seq!['.']) by {
            if t.take(n as int) == seq!['.'] {
                assert(t.take(n as int).len() == 1);
                assert(t.take(n as int)[0] == '.');
            }
        }
        Some((a, b))
    }
}

/// Tests whether `path` names an entry of the directory `/dev`.
pub fn path_is_dev_entry(path: &[char]) -> (r: bool)
    ensures
        r == is_dev_entry(path@),
{
    if path.len() == 0 || path[0] != '/' {
        return false;
    }
    assert(path@.skip(0) == path@);
    let (a, b) = match next_component(path, 0) {
        None => {
            return false;
        },
        Some(range) => range,
    };
    let ghost all = components(path@);
    let ghost after_first = components(path@.skip(b as int));
    assert(all == seq![path@.subrange(a as int, b as int)] + after_first);
    assert(all[0] == path@.subrange(a as int, b as int));
    let dev = chars_of("dev");
    let first_is_dev = same_text(slice_subrange(path, a, b), dev.as_slice());
    let (_, d) = match next_component(path, b) {
        None => {
            return false;
        },
        Some(range) => range,
    };
    let ghost after_second = components(path@.skip(d as int));
    assert(all.len() == 2 + after_second.len());
    match next_component(path, d) {
        None => first_is_dev,
        Some(_) => false,
    }
}

/// The extension of a file name: what follows its last full stop. A name
/// without a full stop has none, nor has one whose only full stop comes
/// first.
pub open spec fn extension_of_name(name: Seq<char>) -> Option<Seq<char>> {
    let n = trailing(name, CharClass::InPart);
    if n == name.len() || n + 1 == name.len() {
        None
    } else {
        Some(name.skip(name.len() - n))
    }
}

/// The extension of the file that a path ends in.
pub open spec fn extension(path: Seq<char>) -> Option<Seq<char>> {
    match file_name(path) {
        Some(name) => extension_of_name(name),
        None => None,
    }
}

/// Tests whether the file that a path ends in has the extension `wanted`.
pub fn has_extension(path: &str, wanted: &str) -> (r: bool)
    ensures
        r == (extension(path@) == Some(wanted@)),
{
    let chars = chars_of(path);
    let name = match path_file_name(chars.as_slice()) {
        Some(name) => name,
        None => {
            return false;
        },
    };
    let n = count_trailing(name, name.len(), CharClass::InPart);
    assert(name@.take(name.len() as int) == name@);
    if n == name.len() || n + 1 == name.len() {
        return false;
    }
    let ext = slice_subrange(name, name.len() - n, name.len());
    let w = chars_of(wanted);
    same_text(ext, w.as_slice())
}

} // verus!
