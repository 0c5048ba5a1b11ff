use vstd::prelude::*;

verus! {

/// The pieces of a path between its `/` separators, empty ones included:
/// `"a//b/"` has the four segments `a`, ``, `b` and ``.
pub open spec fn segments(p: Seq<char>) -> Seq<Seq<char>>
    decreases p.len(),
{
    if p.len() == 0 {
        seq![Seq::empty()]
    } else {
        let s = segments(p.drop_last());
        if p.last() == '/' {
            s.push(Seq::empty())
        } else {
            s.update(s.len() - 1, s.last().push(p.last()))
        }
    }
}

/// A segment that names a directory or a file: neither empty nor `.`.
pub open spec fn is_name(seg: Seq<char>) -> bool {
    seg.len() > 0 && seg != seq!['.']
}

/// The segment `..`, which names no file of its own.
pub open spec fn is_up(seg: Seq<char>) -> bool {
    seg == seq!['.', '.']
}

/// The names along a path, in order: repeated and trailing separators and
/// `.` segments contribute none.
pub open spec fn names(p: Seq<char>) -> Seq<Seq<char>> {
    segments(p).filter(|seg: Seq<char>| is_name(seg))
}

/// The short identifier of a converted file: the name of its directory, `/`
/// and its own name, or its name alone where the path gives no named
/// directory. A path whose last name is missing or `..` has none.
pub open spec fn short_path_of(p: Seq<char>) -> Option<Seq<char>> {
    let n = names(p);
    if n.len() == 0 || is_up(n.last()) {
        None
    } else if n.len() >= 2 && !is_up(n[n.len() - 2]) {
        Some(n[n.len() - 2] + seq!['/'] + n.last())
    } else {
        Some(n.last())
    }
}

/// The pieces of `p` that the index ranges `r` cover.
pub open spec fn pieces(p: Seq<char>, r: Seq<(usize, usize)>) -> Seq<Seq<char>> {
    r.map_values(|x: (usize, usize)| p.subrange(x.0 as int, x.1 as int))
}

fn is_name_at(s: &str, a: usize, b: usize) -> (r: bool)
    requires
        a <= b <= s@.len(),
    ensures
        r == is_name(s@.subrange(a as int, b as int)),
{
    let ghost seg = s@.subrange(a as int, b as int);
    if a == b {
        return false;
    }
    if b - a != 1 {
        assert(seg.len() != seq!['.'].len());
        return true;
    }
    let c = s.get_char(a);
    assert(seg[0] == c);
    if c == '.' {
        assert(seg =~= seq!['.']);
        false
    } else {
        assert(seg[0] != seq!['.'][0]);
        true
    }
}

fn is_up_at(s: &str, a: usize, b: usize) -> (r: bool)
    requires
        a <= b <= s@.len(),
    ensures
        r == is_up(s@.subrange(a as int, b as int)),
{
    let ghost seg = s@.subrange(a as int, b as int);
    if b - a != 2 {
        assert(seg.len() != seq!['.', '.'].len());
        return false;
    }
    let c = s.get_char(a);
    let d = s.get_char(a + 1);
    assert(seg[0] == c && seg[1] == d);
    if c != '.' {
        assert(seg[0] != seq!['.', '.'][0]);
        false
    } else if d != '.' {
        assert(seg[1] != seq!['.', '.'][1]);
        false
    } else {
        assert(seg =~= seq!['.', '.']);
        true
    }
}

/// The index ranges of the names along `s`, in order.
fn name_ranges(s: &str) -> (r: Vec<(usize, usize)>)
    ensures
        pieces(s@, r@) == names(s@),
        forall|k: int| 0 <= k < r@.len() ==> (#[trigger] r@[k]).0 <= r@[k].1 <= s@.len(),
{
    let len = s.unicode_len();
    let mut r: Vec<(usize, usize)> = Vec::new();
    let mut start: usize = 0;
    let mut i: usize = 0;
    let ghost done: Seq<Seq<char>> = Seq::empty();
    proof {
        assert(s@.take(0) =~= Seq::<char>::empty());
        assert(segments(s@.take(0)) =~= done.push(s@.subrange(0, 0)));
        reveal(Seq::filter);
    }
    while i < len
        invariant
            len == s@.len(),
            start <= i <= len,
            segments(s@.take(i as int)) == done.push(s@.subrange(start as int, i as int)),
            pieces(s@, r@) == done.filter(|seg: Seq<char>| is_name(seg)),
            forall|k: int| 0 <= k < r@.len() ==> (#[trigger] r@[k]).0 <= r@[k].1 <= s@.len(),
        decreases len - i,
    {
        let c = s.get_char(i);
        let ghost cur = s@.subrange(start as int, i as int);
        let ghost before = done;
        proof {
            assert(s@.take(i + 1).drop_last() =~= s@.take(i as int));
            assert(s@.take(i + 1).last() == c);
        }
        if c == '/' {
            let named = is_name_at(s, start, i);
            if named {
                r.push((start, i));
            }
            proof {
                done = done.push(cur);
                before.lemma_filter_push(cur, |seg: Seq<char>| is_name(seg));
                assert(pieces(s@, r@) =~= done.filter(|seg: Seq<char>| is_name(seg)));
                assert(s@.subrange(i + 1, i + 1) =~= Seq::<char>::empty());
            }
            start = i + 1;
        } else {
            proof {
                assert(s@.subrange(start as int, i + 1) =~= cur.push(c));
                assert(done.push(cur).update(done.len() as int, cur.push(c))
                    =~= done.push(s@.subrange(start as int, i + 1)));
            }
        }
        i = i + 1;
    }
    let ghost cur = s@.subrange(start as int, len as int);
    let ghost before = done;
    if is_name_at(s, start, len) {
        r.push((start, len));
    }
    proof {
        assert(s@.take(len as int) =~= s@);
        before.lemma_filter_push(cur, |seg: Seq<char>| is_name(seg));
        assert(pieces(s@, r@) =~= before.push(cur).filter(|seg: Seq<char>| is_name(seg)));
    }
    r
}

/// The short identifier of the file at `path`, as `short_path_of` gives it:
/// `a/b/c.sav` gives `b/c.sav`, and `c.sav` gives `c.sav`.
pub fn short_path(path: &str) -> (r: Option<String>)
    ensures
        match (r, short_path_of(path@)) {
            (Some(t), Some(u)) => t@ == u,
            (None, None) => true,
            _ => false,
        },
{
    let r = name_ranges(path);
    let n = r.len();
    if n == 0 {
        return None;
    }
    let (a, b) = r[n - 1];
    assert(pieces(path@, r@)[n - 1] == path@.subrange(a as int, b as int));
    if is_up_at(path, a, b) {
        return None;
    }
    let file = path.substring_char(a, b);
    if n >= 2 {
        let (c, d) = r[n - 2];
        assert(pieces(path@, r@)[n - 2] == path@.subrange(c as int, d as int));
        if !is_up_at(path, c, d) {
            let mut t = String::from_str(path.substring_char(c, d));
            t.append("/");
            t.append(file);
            proof {
                reveal_strlit("/");
            }
            return Some(t);
        }
    }
    Some(String::from_str(file))
}

} // verus!
