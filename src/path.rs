use vstd::prelude::*;
use crate::text::{after_last, find_last_char};

verus! {

// Paths follow the rules of a Unix path: `/` separates components, repeated
// and trailing separators and `.` components are ignored.

/// The text after the last `/`, or the whole text when there is none.
pub open spec fn tail_of(p: Seq<char>) -> Seq<char>
    decreases p.len(),
{
    if p.len() == 0 {
        p
    } else if p.last() == '/' {
        Seq::empty()
    } else {
        tail_of(p.drop_last()).push(p.last())
    }
}

/// The last component of a path that is neither empty nor `.`.
pub open spec fn last_component(p: Seq<char>) -> Option<Seq<char>>
    decreases p.len(),
{
    if p.len() == 0 {
        None
    } else if p.last() == '/' || tail_of(p) == seq!['.'] {
        last_component(p.drop_last())
    } else {
        Some(tail_of(p))
    }
}

/// The file name of a path: its last component, unless that is `..`.
pub open spec fn file_name_of(p: Seq<char>) -> Option<Seq<char>> {
    match last_component(p) {
        Some(c) => if c == seq!['.', '.'] {
            None
        } else {
            Some(c)
        },
        None => None,
    }
}

/// The extension of a path's file name: the text after the last `.` of the
/// name, when the text before that `.` is not empty.
pub open spec fn extension_of(p: Seq<char>) -> Option<Seq<char>> {
    match file_name_of(p) {
        Some(name) => match after_last(name, '.') {
            Some(e) => if e.len() + 1 < name.len() {
                Some(e)
            } else {
                None
            },
            None => None,
        },
        None => None,
    }
}

/// The label of a path in the schema tree: its file name, or the whole path
/// when it has none.
pub open spec fn display_name_of(p: Seq<char>) -> Seq<char> {
    match file_name_of(p) {
        Some(n) => n,
        None => p,
    }
}

proof fn lemma_tail(s: Seq<char>, k: int)
    requires
        0 <= k <= s.len(),
        k == 0 || s[k - 1] == '/',
        forall|j: int| k <= j < s.len() ==> #[trigger] s[j] != '/',
    ensures
        tail_of(s) == s.subrange(k, s.len() as int),
    decreases s.len(),
{
    if s.len() == k {
        assert(s.subrange(k, s.len() as int) =~= Seq::<char>::empty());
    } else {
        lemma_tail(s.drop_last(), k);
        assert(s.drop_last().subrange(k, s.len() - 1).push(s.last()) =~= s.subrange(
            k,
            s.len() as int,
        ));
    }
}

/// Start of the text after the last `/` of `s[..end]`.
fn tail_start(s: &str, end: usize) -> (k: usize)
    requires
        end <= s@.len(),
    ensures
        k <= end,
        tail_of(s@.subrange(0, end as int)) == s@.subrange(k as int, end as int),
{
    let mut i: usize = end;
    while i > 0 && s.get_char(i - 1) != '/'
        invariant
            end <= s@.len(),
            i <= end,
            forall|j: int| i <= j < end ==> #[trigger] s@[j] != '/',
        decreases i,
    {
        i = i - 1;
    }
    let ghost t = s@.subrange(0, end as int);
    proof {
        lemma_tail(t, i as int);
        assert(t.subrange(i as int, end as int) =~= s@.subrange(i as int, end as int));
    }
    i
}

/// Bounds of the last component of `s[..end]` that is neither empty nor `.`.
fn last_component_range(s: &str, end: usize) -> (r: Option<(usize, usize)>)
    requires
        end <= s@.len(),
    ensures
        match last_component(s@.subrange(0, end as int)) {
            Some(c) => r matches Some((a, b)) && a <= b <= end && s@.subrange(a as int, b as int)
                == c,
            None => r is None,
        },
    decreases end,
{
    if end == 0 {
        return None;
    }
    let ghost t = s@.subrange(0, end as int);
    assert(t.drop_last() =~= s@.subrange(0, end - 1));
    let k = tail_start(s, end);
    if s.get_char(end - 1) == '/' {
        return last_component_range(s, end - 1);
    }
    if end - k == 1 {
        if s.get_char(k) == '.' {
            assert(tail_of(t) =~= seq!['.']);
            return last_component_range(s, end - 1);
        }
    }
    proof {
        let c = tail_of(t);
        if c == seq!['.'] {
            assert(c.len() == 1);
            assert(c[0] == s@[k as int]);
        }
    }
    Some((k, end))
}

/// The file name of a path, if it has one.
pub fn file_name(path: &str) -> (r: Option<String>)
    ensures
        match r {
            Some(n) => file_name_of(path@) == Some(n@),
            None => file_name_of(path@) is None,
        },
{
    let n = path.unicode_len();
    assert(path@.subrange(0, n as int) =~= path@);
    match last_component_range(path, n) {
        Some((a, b)) => {
            let c = path.substring_char(a, b);
            if b - a == 2 && path.get_char(a) == '.' && path.get_char(a + 1) == '.' {
                assert(c@ =~= seq!['.', '.']);
                None
            } else {
                assert(c@ != seq!['.', '.']) by {
                    if c@.len() == 2 {
                        assert(c@[0] == path@[a as int]);
                        assert(c@[1] == path@[a + 1]);
                    }
                }
                Some(String::from_str(c))
            }
        },
        None => None,
    }
}

/// The label of a path in the schema tree.
pub fn display_name(path: &str) -> (r: String)
    ensures
        r@ == display_name_of(path@),
{
    match file_name(path) {
        Some(n) => n,
        None => String::from_str(path),
    }
}

/// The extension of a path's file name, if it has one.
pub fn extension(path: &str) -> (r: Option<String>)
    ensures
        match r {
            Some(e) => extension_of(path@) == Some(e@),
            None => extension_of(path@) is None,
        },
{
    let name = match file_name(path) {
        Some(n) => n,
        None => return None,
    };
    let s = name.as_str();
    match find_last_char(s, '.') {
        Some(k) => {
            if k > 0 {
                let n = s.unicode_len();
                Some(String::from_str(s.substring_char(k + 1, n)))
            } else {
                None
            }
        },
        None => None,
    }
}

} // verus!
