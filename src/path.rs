//! File names, extensions and joined paths, on text, by the rules of
//! `std::path::Path` for `/`-separated paths: repeated and trailing
//! separators and `.` components are skipped, and `..` names no file.
use vstd::prelude::*;
use vstd::string::{StrSliceExecFns, StringExecFns};

verus! {

/// `p` without the separators and `.` components at its end.
pub open spec fn trim_tail(p: Seq<char>) -> Seq<char>
    decreases p.len(),
{
    if p.len() == 0 {
        p
    } else if p.last() == '/' {
        trim_tail(p.drop_last())
    } else if p.len() == 1 && p[0] == '.' {
        Seq::empty()
    } else if p.len() >= 2 && p.last() == '.' && p[p.len() - 2] == '/' {
        trim_tail(p.drop_last())
    } else {
        p
    }
}

/// Index just past the last separator of `p`, or zero.
pub open spec fn name_start(p: Seq<char>) -> int
    decreases p.len(),
{
    if p.len() == 0 {
        0
    } else if p.last() == '/' {
        p.len() as int
    } else {
        name_start(p.drop_last())
    }
}

/// The last component of `p`, unless that is the root, `.` or `..`.
pub open spec fn file_name(p: Seq<char>) -> Option<Seq<char>> {
    let t = trim_tail(p);
    let n = t.subrange(name_start(t), t.len() as int);
    if t.len() == 0 || n == seq!['.', '.'] {
        None
    } else {
        Some(n)
    }
}

/// Index of the last `.` in `s`, or `-1`.
pub open spec fn last_dot(s: Seq<char>) -> int
    decreases s.len(),
{
    if s.len() == 0 {
        -1
    } else if s.last() == '.' {
        s.len() - 1
    } else {
        last_dot(s.drop_last())
    }
}

/// What follows the last `.` of the file name, where that `.` is not its
/// first character.
pub open spec fn extension(p: Seq<char>) -> Option<Seq<char>> {
    match file_name(p) {
        None => None,
        Some(n) => {
            let d = last_dot(n);
            if d <= 0 {
                None
            } else {
                Some(n.subrange(d + 1, n.len() as int))
            }
        },
    }
}

/// The file name without its extension.
pub open spec fn file_stem(p: Seq<char>) -> Option<Seq<char>> {
    match file_name(p) {
        None => None,
        Some(n) => {
            let d = last_dot(n);
            if d <= 0 {
                Some(n)
            } else {
                Some(n.subrange(0, d))
            }
        },
    }
}

/// `part` placed under the directory `dir`: an absolute `part` stands alone;
/// otherwise one `/` joins them unless `dir` is empty or already ends in one.
pub open spec fn join(dir: Seq<char>, part: Seq<char>) -> Seq<char> {
    if part.len() > 0 && part[0] == '/' {
        part
    } else if dir.len() == 0 || dir.last() == '/' {
        dir + part
    } else {
        dir + seq!['/'] + part
    }
}

proof fn lemma_trim_tail_prefix(p: Seq<char>)
    ensures
        trim_tail(p) == p.subrange(0, trim_tail(p).len() as int),
        trim_tail(p).len() <= p.len(),
    decreases p.len(),
{
    if p.len() > 0 {
        if p.last() == '/' || (p.len() >= 2 && p.last() == '.' && p[p.len() - 2] == '/') {
            lemma_trim_tail_prefix(p.drop_last());
            assert(p.drop_last().subrange(0, trim_tail(p).len() as int) =~= p.subrange(
                0,
                trim_tail(p).len() as int,
            ));
        } else if p.len() == 1 && p[0] == '.' {
            assert(p.subrange(0, 0) =~= Seq::<char>::empty());
        } else {
            assert(p.subrange(0, p.len() as int) =~= p);
        }
    } else {
        assert(p.subrange(0, 0) =~= p);
    }
}

proof fn lemma_name_start_bounds(p: Seq<char>)
    ensures
        0 <= name_start(p) <= p.len(),
    decreases p.len(),
{
    if p.len() > 0 {
        lemma_name_start_bounds(p.drop_last());
    }
}

proof fn lemma_last_dot_bounds(s: Seq<char>)
    ensures
        -1 <= last_dot(s) < s.len(),
    decreases s.len(),
{
    if s.len() > 0 {
        lemma_last_dot_bounds(s.drop_last());
    }
}

/// Length of `trim_tail` of `p`.
fn trimmed_len(p: &str) -> (r: usize)
    ensures
        r <= p@.len(),
        trim_tail(p@) == p@.subrange(0, r as int),
{
    let n = p.unicode_len();
    assert(p@.subrange(0, n as int) =~= p@);
    let mut i: usize = n;
    while i > 0
        invariant
            i <= n == p@.len(),
            trim_tail(p@) == trim_tail(p@.subrange(0, i as int)),
        decreases i,
    {
        let ghost s = p@.subrange(0, i as int);
        assert(s.drop_last() =~= p@.subrange(0, i - 1));
        let c = p.get_char(i - 1);
        if c == '/' {
            i = i - 1;
        } else if i == 1 && c == '.' {
            assert(p@.subrange(0, 0) =~= Seq::<char>::empty());
            i = 0;
        } else if c == '.' && i >= 2 && p.get_char(i - 2) == '/' {
            assert(s[s.len() - 2] == '/');
            i = i - 1;
        } else {
            return i;
        }
    }
    assert(p@.subrange(0, 0) =~= Seq::<char>::empty());
    0
}

/// Index just past the last separator among the first `end` characters.
fn name_start_exec(p: &str, end: usize) -> (r: usize)
    requires
        end <= p@.len(),
    ensures
        r == name_start(p@.subrange(0, end as int)),
        r <= end,
{
    let mut i: usize = end;
    while i > 0
        invariant
            i <= end <= p@.len(),
            name_start(p@.subrange(0, end as int)) == name_start(p@.subrange(0, i as int)),
        decreases i,
    {
        if p.get_char(i - 1) == '/' {
            return i;
        }
        assert(p@.subrange(0, i as int).drop_last() =~= p@.subrange(0, i - 1));
        i = i - 1;
    }
    0
}

/// Where the file name of `p` lies in it, if `p` has one.
fn file_name_bounds(p: &str) -> (r: Option<(usize, usize)>)
    ensures
        r.is_none() == file_name(p@).is_none(),
        r.is_some() ==> {
            let (s, e) = r.unwrap();
            &&& s <= e <= p@.len()
            &&& file_name(p@) == Some(p@.subrange(s as int, e as int))
        },
{
    let e = trimmed_len(p);
    let ghost t = p@.subrange(0, e as int);
    if e == 0 {
        return None;
    }
    let s = name_start_exec(p, e);
    let ghost n = t.subrange(s as int, e as int);
    assert(n =~= p@.subrange(s as int, e as int));
    if e - s == 2 && p.get_char(s) == '.' && p.get_char(s + 1) == '.' {
        assert(n =~= seq!['.', '.']);
        return None;
    }
    assert(n != seq!['.', '.']) by {
        if n == seq!['.', '.'] {
            assert(n.len() == 2 && n[0] == '.' && n[1] == '.');
        }
    }
    Some((s, e))
}

/// Index of the last `.` among the characters `from..to` of `p`, counted
/// from `from`, if there is one.
fn last_dot_exec(p: &str, from: usize, to: usize) -> (r: Option<usize>)
    requires
        from <= to <= p@.len(),
    ensures
        r.is_none() ==> last_dot(p@.subrange(from as int, to as int)) == -1,
        r.is_some() ==> r.unwrap() == last_dot(p@.subrange(from as int, to as int)),
{
    let ghost s = p@.subrange(from as int, to as int);
    assert(s.subrange(0, to - from) =~= s);
    let mut i: usize = to;
    while i > from
        invariant
            from <= i <= to <= p@.len(),
            s == p@.subrange(from as int, to as int),
            last_dot(s) == last_dot(s.subrange(0, i - from)),
        decreases i,
    {
        if p.get_char(i - 1) == '.' {
            assert(s.subrange(0, i - from).last() == '.');
            return Some(i - 1 - from);
        }
        assert(s.subrange(0, i - from).drop_last() =~= s.subrange(0, i - 1 - from));
        i = i - 1;
    }
    assert(s.subrange(0, 0) =~= Seq::<char>::empty());
    None
}

/// The extension of the file name of `p`, if it has one.
pub fn path_extension(p: &str) -> (r: Option<String>)
    ensures
        r.is_some() == extension(p@).is_some(),
        r.is_some() ==> r.unwrap()@ == extension(p@).unwrap(),
{
    match file_name_bounds(p) {
        None => None,
        Some((s, e)) => {
            let ghost name = p@.subrange(s as int, e as int);
            proof {
                lemma_last_dot_bounds(name);
            }
            match last_dot_exec(p, s, e) {
                Some(d) if d > 0 => {
                    let x = p.substring_char(s + d + 1, e);
                    assert(x@ =~= name.subrange(d + 1, name.len() as int));
                    Some(String::from_str(x))
                },
                _ => None,
            }
        },
    }
}

/// The stem of the file name of `p`, if it has a file name.
pub fn path_stem(p: &str) -> (r: Option<String>)
    ensures
        r.is_some() == file_stem(p@).is_some(),
        r.is_some() ==> r.unwrap()@ == file_stem(p@).unwrap(),
{
    match file_name_bounds(p) {
        None => None,
        Some((s, e)) => {
            let ghost name = p@.subrange(s as int, e as int);
            proof {
                lemma_last_dot_bounds(name);
            }
            match last_dot_exec(p, s, e) {
                Some(d) if d > 0 => {
                    let x = p.substring_char(s, s + d);
                    assert(x@ =~= name.subrange(0, d as int));
                    Some(String::from_str(x))
                },
                _ => Some(String::from_str(p.substring_char(s, e))),
            }
        },
    }
}

/// `part` placed under the directory `dir`, as `PathBuf::push` does it.
pub fn join_path(dir: &str, part: &str) -> (r: String)
    ensures
        r@ == join(dir@, part@),
{
    if part.unicode_len() > 0 && part.get_char(0) == '/' {
        return String::from_str(part);
    }
    let n = dir.unicode_len();
    let mut out = String::from_str(dir);
    if n > 0 && dir.get_char(n - 1) != '/' {
        proof {
            reveal_strlit("/");
        }
        out.append("/");
    }
    out.append(part);
    out
}

} // verus!
