//! Unix path text, read the way `std::path::Path` reads it: components
//! separated by `/` (repeated separators and `.` components ignored),
//! prefix tests compare whole components, and the file name is the last
//! component unless that is `..`. No filesystem access.

use vstd::prelude::*;

use crate::text::{chars_of, push_chars, push_str, string_from_chars};

verus! {

/// Splitting `s` at `/`: the segments completed so far and the one in
/// progress.
pub open spec fn split_state(s: Seq<char>) -> (Seq<Seq<char>>, Seq<char>)
    decreases s.len(),
{
    if s.len() == 0 {
        (Seq::empty(), Seq::empty())
    } else {
        let (done, cur) = split_state(s.drop_last());
        if s.last() == '/' {
            (done.push(cur), Seq::empty())
        } else {
            (done, cur.push(s.last()))
        }
    }
}

/// Whether a segment is a real component (not empty, not `.`).
pub open spec fn is_component(seg: Seq<char>) -> bool {
    seg.len() != 0 && seg != seq!['.']
}

/// The components of `s` after any root: its `/`-separated segments
/// without empty and `.` ones (`..` is kept).
pub open spec fn components(s: Seq<char>) -> Seq<Seq<char>> {
    let (done, cur) = split_state(s);
    done.push(cur).filter(|seg: Seq<char>| is_component(seg))
}

/// Whether the path is absolute.
pub open spec fn is_absolute(s: Seq<char>) -> bool {
    s.len() > 0 && s[0] == '/'
}

/// `Path::starts_with` for an absolute base given by its component names.
pub open spec fn starts_with_abs(s: Seq<char>, base: Seq<Seq<char>>) -> bool {
    is_absolute(s) && components(s).len() >= base.len() && components(s).subrange(
        0,
        base.len() as int,
    ) == base
}

/// Whether some component equals `name`.
pub open spec fn has_component(s: Seq<char>, name: Seq<char>) -> bool {
    components(s).contains(name)
}

/// `Path::file_name`: the last component unless it is `..`.
pub open spec fn file_name(s: Seq<char>) -> Option<Seq<char>> {
    let cs = components(s);
    if cs.len() == 0 || cs.last() == seq!['.', '.'] {
        None
    } else {
        Some(cs.last())
    }
}

/// The components of `path`, as `components` describes them.
pub fn path_components(path: &str) -> (r: Vec<Vec<char>>)
    ensures
        r@.len() == components(path@).len(),
        forall|i: int| 0 <= i < r@.len() ==> (#[trigger] r@[i])@ == components(path@)[i],
{
    let s = chars_of(path);
    let mut out: Vec<Vec<char>> = Vec::new();
    let mut cur: Vec<char> = Vec::new();
    let ghost mut done: Seq<Seq<char>> = Seq::empty();
    let mut i: usize = 0;
    while i < s.len()
        invariant
            0 <= i <= s@.len(),
            s@ == path@,
            split_state(s@.subrange(0, i as int)) == (done, cur@),
            out@.len() == done.filter(|seg: Seq<char>| is_component(seg)).len(),
            forall|j: int|
                0 <= j < out@.len() ==> (#[trigger] out@[j])@ == done.filter(
                    |seg: Seq<char>| is_component(seg),
                )[j],
        decreases s@.len() - i,
    {
        let c = s[i];
        proof {
            assert(s@.subrange(0, i + 1).drop_last() =~= s@.subrange(0, i as int));
        }
        if c == '/' {
            let keep = cur.len() != 0 && !(cur.len() == 1 && cur[0] == '.');
            proof {
                reveal(Seq::filter);
                assert(done.push(cur@).drop_last() =~= done);
                if cur@.len() == 1 {
                    if cur@[0] == '.' {
                        assert(cur@ =~= seq!['.']);
                    } else {
                        assert(seq!['.'][0] == '.');
                    }
                }
            }
            let ghost old_cur = cur@;
            if keep {
                out.push(cur);
            }
            proof {
                done = done.push(old_cur);
            }
            cur = Vec::new();
        } else {
            cur.push(c);
        }
        i = i + 1;
    }
    assert(s@.subrange(0, s@.len() as int) =~= s@);
    proof {
        reveal(Seq::filter);
        assert(done.push(cur@).drop_last() =~= done);
        if cur@.len() == 1 {
            if cur@[0] == '.' {
                assert(cur@ =~= seq!['.']);
            } else {
                assert(seq!['.'][0] == '.');
            }
        }
    }
    let keep = cur.len() != 0 && !(cur.len() == 1 && cur[0] == '.');
    if keep {
        out.push(cur);
    }
    out
}

/// `dir` joined with the relative file name `name`, as `Path::join` does:
/// a separator is added unless `dir` is empty or already ends with one.
pub open spec fn path_join(dir: Seq<char>, name: Seq<char>) -> Seq<char> {
    if dir.len() == 0 {
        name
    } else if dir.last() == '/' {
        dir + name
    } else {
        dir + "/"@ + name
    }
}

/// Appends `dir` joined with `name` to `out`.
pub fn push_joined(out: &mut Vec<char>, dir: &str, name: &str)
    ensures
        final(out)@ == old(out)@ + path_join(dir@, name@),
{
    let d = chars_of(dir);
    push_chars(out, &d);
    if d.len() > 0 && d[d.len() - 1] != '/' {
        push_str(out, "/");
    }
    push_str(out, name);
    assert(out@ =~= old(out)@ + path_join(dir@, name@));
}


/// `dir` joined with the relative name `name`.
pub fn joined(dir: &str, name: &str) -> (r: String)
    ensures
        r@ == path_join(dir@, name@),
{
    let mut out: Vec<char> = Vec::new();
    push_joined(&mut out, dir, name);
    assert(out@ =~= path_join(dir@, name@));
    string_from_chars(out.as_slice())
}

} // verus!
