use vstd::prelude::*;

verus! {

pub open spec fn is_ident_start(c: char) -> bool {
    ('a' <= c && c <= 'z') || ('A' <= c && c <= 'Z') || c == '_'
}

pub open spec fn is_ident_char(c: char) -> bool {
    is_ident_start(c) || ('0' <= c && c <= '9')
}

/// `[A-Za-z_][A-Za-z0-9_]*`
pub open spec fn is_bare_identifier(s: Seq<char>) -> bool {
    &&& s.len() > 0
    &&& is_ident_start(s[0])
    &&& forall|i: int| 1 <= i < s.len() ==> is_ident_char(#[trigger] s[i])
}

/// The inside of a single-quoted literal: every `'` in it is one of a
/// doubled pair `''`.
pub open spec fn is_literal_body(t: Seq<char>) -> bool
    decreases t.len(),
{
    if t.len() == 0 {
        true
    } else if t[0] == '\'' {
        t.len() >= 2 && t[1] == '\'' && is_literal_body(t.subrange(2, t.len() as int))
    } else {
        is_literal_body(t.subrange(1, t.len() as int))
    }
}

/// One complete single-quoted literal: `'`, a body with its quotes doubled, `'`.
pub open spec fn is_quoted_literal(s: Seq<char>) -> bool {
    &&& s.len() >= 2
    &&& s[0] == '\''
    &&& s[s.len() - 1] == '\''
    &&& is_literal_body(s.subrange(1, s.len() - 1))
}

/// `name(args)`: a bare identifier, `(`, arguments without `)`, and a closing `)`.
pub open spec fn is_call_shape(s: Seq<char>) -> bool {
    exists|k: int|
        0 < k && k + 1 < s.len() && is_bare_identifier(#[trigger] s.subrange(0, k)) && s[k] == '('
            && s[s.len() - 1] == ')' && forall|i: int| k < i < s.len() - 1 ==> s[i] != ')'
}

/// What the validator lets through into generated SQL.
pub open spec fn is_safe_fragment(s: Seq<char>) -> bool {
    is_quoted_literal(s) || is_call_shape(s) || is_bare_identifier(s)
}

/// Relies on regex::Regex::new and Regex::is_match: the anchored pattern
/// `^[a-zA-Z_][a-zA-Z0-9_]*\([^)]*\)$` matches exactly the call shapes.
#[verifier::external_body]
fn matches_call_pattern(id: &str) -> (r: bool)
    ensures
        r == is_call_shape(id@),
{
    match regex::Regex::new(r"^[a-zA-Z_][a-zA-Z0-9_]*\([^)]*\)$") {
        Ok(re) => re.is_match(id),
        Err(_) => false,
    }
}

/// Whether every character of `s` is an identifier character and the first
/// one may start an identifier.
pub fn is_identifier(s: &str) -> (r: bool)
    ensures
        r == is_bare_identifier(s@),
{
    let n = s.unicode_len();
    if n == 0 {
        return false;
    }
    let first = s.get_char(0);
    if !(('a' <= first && first <= 'z') || ('A' <= first && first <= 'Z') || first == '_') {
        return false;
    }
    let mut i: usize = 1;
    while i < n
        invariant
            n == s@.len(),
            1 <= i <= n,
            forall|j: int| 1 <= j < i ==> is_ident_char(#[trigger] s@[j]),
        decreases n - i,
    {
        let c = s.get_char(i);
        if !(('a' <= c && c <= 'z') || ('A' <= c && c <= 'Z') || c == '_' || ('0' <= c && c
            <= '9')) {
            assert(is_ident_char(s@[i as int]) == false);
            return false;
        }
        i = i + 1;
    }
    true
}

/// Whether `s` is one complete single-quoted literal.
pub fn is_literal(s: &str) -> (r: bool)
    ensures
        r == is_quoted_literal(s@),
{
    let n = s.unicode_len();
    if n < 2 || s.get_char(0) != '\'' || s.get_char(n - 1) != '\'' {
        return false;
    }
    let end = n - 1;
    let mut i: usize = 1;
    while i < end
        invariant
            n == s@.len(),
            end == n - 1,
            1 <= i <= end,
            is_literal_body(s@.subrange(1, end as int)) == is_literal_body(
                s@.subrange(i as int, end as int),
            ),
        decreases end - i,
    {
        let ghost t = s@.subrange(i as int, end as int);
        if s.get_char(i) == '\'' {
            if i + 1 < end && s.get_char(i + 1) == '\'' {
                assert(t.subrange(2, t.len() as int) =~= s@.subrange(i + 2, end as int));
                i = i + 2;
            } else {
                return false;
            }
        } else {
            assert(t.subrange(1, t.len() as int) =~= s@.subrange(i + 1, end as int));
            i = i + 1;
        }
    }
    assert(s@.subrange(i as int, end as int).len() == 0);
    true
}

/// Allow-list check on an identifier or fragment before it is spliced into SQL.
pub fn validate_fragment(id: &str) -> (r: bool)
    ensures
        r == is_safe_fragment(id@),
{
    if is_literal(id) {
        return true;
    }
    if matches_call_pattern(id) {
        return true;
    }
    is_identifier(id)
}

/// Identifier quoted with double quotes when it holds a space.
pub open spec fn normalized(name: Seq<char>) -> Seq<char> {
    if name.contains(' ') {
        seq!['"'] + name + seq!['"']
    } else {
        name
    }
}

} // verus!
