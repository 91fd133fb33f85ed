//! Paths as `std::path::Path` reads them on Unix: the last component
//! (`Path::file_name`) and the components (`Path::components`, which
//! `Path::starts_with` compares). Separators are `/`; repeated separators and
//! `.` components after the first are ignored.

use vstd::prelude::*;

verus! {

/// The characters after the last `/` of `s`.
pub open spec fn last_segment(s: Seq<char>) -> Seq<char>
    decreases s.len(),
{
    if s.len() == 0 || s.last() == '/' {
        Seq::empty()
    } else {
        last_segment(s.drop_last()).push(s.last())
    }
}

/// The last component of the path `s` that names something, if any.
pub open spec fn file_name(s: Seq<char>) -> Option<Seq<char>>
    decreases s.len(),
{
    if s.len() == 0 {
        None
    } else if s.last() == '/' {
        file_name(s.drop_last())
    } else {
        let seg = last_segment(s);
        let rest = s.subrange(0, s.len() - seg.len());
        if seg == seq!['.'] {
            if rest.len() == 0 {
                None
            } else {
                file_name(rest)
            }
        } else if seg == seq!['.', '.'] {
            None
        } else {
            Some(seg)
        }
    }
}

proof fn lemma_last_segment(s: Seq<char>)
    ensures
        last_segment(s).len() <= s.len(),
        last_segment(s) == s.subrange(s.len() - last_segment(s).len(), s.len() as int),
        forall|i: int| 0 <= i < last_segment(s).len() ==> #[trigger] last_segment(s)[i] != '/',
        last_segment(s).len() < s.len() ==> s[s.len() - last_segment(s).len() - 1] == '/',
        s.len() > 0 && s.last() != '/' ==> last_segment(s).len() > 0,
    decreases s.len(),
{
    if s.len() > 0 && s.last() != '/' {
        lemma_last_segment(s.drop_last());
        let t = last_segment(s.drop_last());
        assert(last_segment(s) == t.push(s.last()));
        assert(last_segment(s) =~= s.subrange(s.len() - last_segment(s).len(), s.len() as int));
    }
}

proof fn lemma_last_segment_at(s: Seq<char>, start: int)
    requires
        0 <= start <= s.len(),
        start == 0 || s[start - 1] == '/',
        forall|i: int| start <= i < s.len() ==> #[trigger] s[i] != '/',
    ensures
        last_segment(s) == s.subrange(start, s.len() as int),
    decreases s.len(),
{
    if start < s.len() {
        lemma_last_segment_at(s.drop_last(), start);
        assert(s.drop_last().subrange(start, s.len() - 1).push(s.last()) =~= s.subrange(start, s.len() as int));
    } else {
        if s.len() > 0 {
            assert(s.last() == '/');
        }
    }
}

fn is_dot(v: &Vec<char>, start: usize, end: usize) -> (r: bool)
    requires
        start <= end <= v@.len(),
    ensures
        r == (v@.subrange(start as int, end as int) == seq!['.']),
{
    let r = end - start == 1 && v[start] == '.';
    if r {
        assert(v@.subrange(start as int, end as int) =~= seq!['.']);
    } else if end - start == 1 {
        assert(v@.subrange(start as int, end as int)[0] == v@[start as int]);
        assert(seq!['.'][0] == '.');
    }
    r
}

fn is_dot_dot(v: &Vec<char>, start: usize, end: usize) -> (r: bool)
    requires
        start <= end <= v@.len(),
    ensures
        r == (v@.subrange(start as int, end as int) == seq!['.', '.']),
{
    let r = end - start == 2 && v[start] == '.' && v[start + 1] == '.';
    assert(seq!['.', '.'].len() == 2);
    if r {
        assert(v@.subrange(start as int, end as int) =~= seq!['.', '.']);
    } else if end - start == 2 {
        assert(v@.subrange(start as int, end as int)[0] == v@[start as int]);
        assert(v@.subrange(start as int, end as int)[1] == v@[start + 1]);
        assert(seq!['.', '.'][0] == '.');
        assert(seq!['.', '.'][1] == '.');
    }
    r
}

/// The bounds of the file name of the path held in `v`, if it has one.
pub fn file_name_range(v: &Vec<char>) -> (r: Option<(usize, usize)>)
    ensures
        r is None ==> file_name(v@) is None,
        r matches Some((a, b)) ==> a <= b <= v@.len() && file_name(v@) == Some(v@.subrange(a as int, b as int)),
{
    let mut end: usize = v.len();
    assert(v@.take(end as int) == v@);
    loop
        invariant
            end <= v@.len(),
            file_name(v@.take(end as int)) == file_name(v@),
        decreases end,
    {
        let ghost end0 = end;
        while end > 0 && v[end - 1] == '/'
            invariant
                end <= end0,
                end <= v@.len(),
                file_name(v@.take(end as int)) == file_name(v@),
            decreases end,
        {
            assert(v@.take(end as int).drop_last() == v@.take(end - 1));
            end = end - 1;
        }
        if end == 0 {
            return None;
        }
        let mut start: usize = end;
        while start > 0 && v[start - 1] != '/'
            invariant
                0 < end <= v@.len(),
                end <= end0,
                start <= end,
                start == end ==> v@[end - 1] != '/',
                forall|i: int| start <= i < end ==> #[trigger] v@[i] != '/',
            decreases start,
        {
            start = start - 1;
        }
        let ghost t = v@.take(end as int);
        proof {
            assert forall|i: int| start <= i < t.len() implies #[trigger] t[i] != '/' by {
                assert(t[i] == v@[i]);
            }
            if start > 0 {
                assert(t[start - 1] == v@[start - 1]);
            }
            lemma_last_segment_at(t, start as int);
            assert(t.subrange(start as int, end as int) == v@.subrange(start as int, end as int));
            assert(t.last() == v@[end - 1]);
            assert(t.subrange(0, start as int) == v@.take(start as int));
        }
        if is_dot(v, start, end) {
            if start == 0 {
                return None;
            }
            end = start;
        } else if is_dot_dot(v, start, end) {
            return None;
        } else {
            return Some((start, end));
        }
    }
}

/// A segment between separators that is a component of its own: not empty and not `.`.
pub open spec fn normal_segment(seg: Seq<char>) -> bool {
    seg.len() > 0 && seg != seq!['.']
}

/// Reading `s` from the left: the components after the first found so far
/// (every finished segment that is one), and the segment being read.
pub open spec fn component_scan(s: Seq<char>) -> (Seq<Seq<char>>, Seq<char>)
    decreases s.len(),
{
    if s.len() == 0 {
        (Seq::empty(), Seq::empty())
    } else {
        let (done, cur) = component_scan(s.drop_last());
        if s.last() == '/' {
            (if normal_segment(cur) { done.push(cur) } else { done }, Seq::empty())
        } else {
            (done, cur.push(s.last()))
        }
    }
}

/// The segments of `s` that are components: neither empty nor `.`.
pub open spec fn normal_components(s: Seq<char>) -> Seq<Seq<char>> {
    let (done, cur) = component_scan(s);
    if normal_segment(cur) {
        done.push(cur)
    } else {
        done
    }
}

/// The characters of `s` before its first `/`.
pub open spec fn first_segment(s: Seq<char>) -> Seq<char>
    decreases s.len(),
{
    if s.len() == 0 || s[0] == '/' {
        Seq::empty()
    } else {
        seq![s[0]] + first_segment(s.drop_first())
    }
}

/// The components of a path as `Path::components` gives them, each as text: a
/// leading `/` is the root `/`; a relative path whose first segment is `.`
/// starts with the component `.`; then every other segment that is neither
/// empty nor `.`, in order.
pub open spec fn components(s: Seq<char>) -> Seq<Seq<char>> {
    let rooted = s.len() > 0 && s[0] == '/';
    (if rooted {
        seq![seq!['/']]
    } else if first_segment(s) == seq!['.'] {
        seq![seq!['.']]
    } else {
        Seq::empty()
    }) + normal_components(s)
}

/// `path` lies under `base`, as `Path::starts_with` decides it: the components
/// of `base` come first among those of `path`.
pub open spec fn path_starts_with(path: Seq<char>, base: Seq<char>) -> bool {
    components(base).is_prefix_of(components(path))
}

fn is_single_dot(v: &Vec<char>) -> (r: bool)
    ensures
        r == (v@ == seq!['.']),
{
    if v.len() == 1 && v[0] == '.' {
        assert(v@ =~= seq!['.']);
        true
    } else {
        false
    }
}

/// The components of a path, as `Path::components` gives them.
pub fn path_components(path: &str) -> (r: Vec<Vec<char>>)
    ensures
        r@.map_values(|c: Vec<char>| c@) == components(path@),
{
    let v = crate::text::chars_of(path);
    let rooted = v.len() > 0 && v[0] == '/';
    let mut out: Vec<Vec<char>> = Vec::new();
    let mut cur: Vec<char> = Vec::new();
    let mut first: Vec<char> = Vec::new();
    let mut in_first = true;
    let mut i: usize = 0;
    proof {
        assert(v@.take(0) =~= Seq::<char>::empty());
        assert(v@.skip(0) =~= v@);
        assert(out@.map_values(|c: Vec<char>| c@) =~= Seq::<Seq<char>>::empty());
        assert(first@ =~= Seq::<char>::empty());
    }
    while i < v.len()
        invariant
            i <= v@.len(),
            v@ == path@,
            out@.map_values(|c: Vec<char>| c@) == component_scan(v@.take(i as int)).0,
            cur@ == component_scan(v@.take(i as int)).1,
            in_first ==> first@ == v@.take(i as int) && first_segment(v@) == first@ + first_segment(v@.skip(i as int)),
            !in_first ==> first_segment(v@) == first@,
        decreases v.len() - i,
    {
        let c = v[i];
        proof {
            assert(v@.take(i + 1).drop_last() == v@.take(i as int));
            assert(v@.take(i + 1).last() == c);
            assert(v@.skip(i as int)[0] == c);
            assert(v@.skip(i as int).drop_first() == v@.skip(i + 1));
        }
        if c == '/' {
            if cur.len() > 0 && !is_single_dot(&cur) {
                let seg = cur;
                proof {
                    assert(out@.push(seg).map_values(|c: Vec<char>| c@) == out@.map_values(|c: Vec<char>| c@).push(seg@));
                }
                out.push(seg);
            }
            cur = Vec::new();
            in_first = false;
        } else {
            cur.push(c);
            if in_first {
                first.push(c);
                proof {
                    assert(seq![c] + first_segment(v@.skip(i + 1)) == first_segment(v@.skip(i as int)));
                    assert(first@ + first_segment(v@.skip(i + 1)) == (first@.drop_last() + seq![c]) + first_segment(v@.skip(i + 1)));
                }
            }
        }
        i = i + 1;
    }
    proof {
        assert(v@.take(v@.len() as int) == v@);
        if in_first {
            assert(v@.skip(v@.len() as int).len() == 0);
            assert(first_segment(v@) == first@ + first_segment(v@.skip(v@.len() as int)));
        }
    }
    if cur.len() > 0 && !is_single_dot(&cur) {
        let seg = cur;
        proof {
            assert(out@.push(seg).map_values(|c: Vec<char>| c@) == out@.map_values(|c: Vec<char>| c@).push(seg@));
        }
        out.push(seg);
    }
    let mut head: Vec<Vec<char>> = Vec::new();
    if rooted {
        let mut root: Vec<char> = Vec::new();
        root.push('/');
        assert(root@ =~= seq!['/']);
        head.push(root);
    } else if is_single_dot(&first) {
        let mut dot: Vec<char> = Vec::new();
        dot.push('.');
        assert(dot@ =~= seq!['.']);
        head.push(dot);
    }
    proof {
        if rooted {
            assert(head@.map_values(|c: Vec<char>| c@) =~= seq![seq!['/']]);
        } else if first@ == seq!['.'] {
            assert(head@.map_values(|c: Vec<char>| c@) =~= seq![seq!['.']]);
        } else {
            assert(head@.map_values(|c: Vec<char>| c@) =~= Seq::<Seq<char>>::empty());
        }
    }
    let ghost tail = out@.map_values(|c: Vec<char>| c@);
    let ghost front = head@.map_values(|c: Vec<char>| c@);
    head.append(&mut out);
    proof {
        assert(head@.map_values(|c: Vec<char>| c@) =~= front + tail);
    }
    head
}

fn chars_equal(a: &Vec<char>, b: &Vec<char>) -> (r: bool)
    ensures
        r == (a@ == b@),
{
    if a.len() != b.len() {
        return false;
    }
    let mut i: usize = 0;
    while i < a.len()
        invariant
            i <= a@.len(),
            a@.len() == b@.len(),
            forall|j: int| 0 <= j < i ==> a@[j] == b@[j],
        decreases a.len() - i,
    {
        if a[i] != b[i] {
            return false;
        }
        i = i + 1;
    }
    assert(a@ =~= b@);
    true
}

/// Whether `path` lies under `base`, as `Path::starts_with` decides it.
pub fn starts_with_path(path: &str, base: &str) -> (r: bool)
    ensures
        r == path_starts_with(path@, base@),
{
    let p = path_components(path);
    let b = path_components(base);
    let ghost pv = p@.map_values(|c: Vec<char>| c@);
    let ghost bv = b@.map_values(|c: Vec<char>| c@);
    assert(pv.len() == p@.len() && bv.len() == b@.len());
    if b.len() > p.len() {
        return false;
    }
    let mut i: usize = 0;
    while i < b.len()
        invariant
            i <= b@.len() <= p@.len(),
            pv == p@.map_values(|c: Vec<char>| c@),
            bv == b@.map_values(|c: Vec<char>| c@),
            pv == components(path@),
            bv == components(base@),
            forall|j: int| 0 <= j < i ==> bv[j] == pv[j],
        decreases b.len() - i,
    {
        if !chars_equal(&b[i], &p[i]) {
            assert(bv[i as int] != pv[i as int]);
            assert(pv.subrange(0, bv.len() as int)[i as int] == pv[i as int]);
            return false;
        }
        i = i + 1;
    }
    assert(bv =~= pv.subrange(0, bv.len() as int));
    true
}

/// A path inside the root, or the root itself, lies under the root.
pub proof fn law_path_starts_with_itself(path: Seq<char>)
    ensures
        path_starts_with(path, path),
{
    assert(components(path).is_prefix_of(components(path)));
}

} // verus!
