use vstd::prelude::*;

verus! {

/// First position at or after `i` where the character `c` occurs in `s`.
pub open spec fn find_char_from(s: Seq<char>, c: char, i: int) -> Option<int>
    recommends
        0 <= i <= s.len(),
    decreases s.len() - i,
{
    if i < 0 || i >= s.len() {
        None
    } else if s[i] == c {
        Some(i)
    } else {
        find_char_from(s, c, i + 1)
    }
}

pub proof fn lemma_find_char_from(s: Seq<char>, c: char, i: int)
    requires
        0 <= i <= s.len(),
    ensures
        match find_char_from(s, c, i) {
            Some(j) => i <= j < s.len() && s[j] == c && (forall|k: int| i <= k < j ==> s[k] != c),
            None => forall|k: int| i <= k < s.len() ==> s[k] != c,
        },
    decreases s.len() - i,
{
    if i < s.len() && s[i] != c {
        lemma_find_char_from(s, c, i + 1);
    }
}

pub proof fn lemma_find_char_from_skip(s: Seq<char>, c: char, i: int, j: int)
    requires
        0 <= i <= j <= s.len(),
        forall|k: int| i <= k < j ==> s[k] != c,
    ensures
        find_char_from(s, c, i) == find_char_from(s, c, j),
    decreases j - i,
{
    if i < j {
        lemma_find_char_from_skip(s, c, i + 1, j);
    }
}

pub fn find_char(s: &str, c: char) -> (r: Option<usize>)
    ensures
        match r {
            Some(j) => find_char_from(s@, c, 0) == Some(j as int),
            None => find_char_from(s@, c, 0) is None,
        },
{
    let n = s.unicode_len();
    let mut i: usize = 0;
    while i < n
        invariant
            n == s@.len(),
            i <= n,
            forall|k: int| 0 <= k < i ==> s@[k] != c,
        decreases n - i,
    {
        if s.get_char(i) == c {
            proof {
                lemma_find_char_from_skip(s@, c, 0, i as int);
            }
            return Some(i);
        }
        i += 1;
    }
    proof {
        lemma_find_char_from_skip(s@, c, 0, n as int);
    }
    None
}

/// First position at or after `i` where the two-character separator `>>` starts in `s`.
pub open spec fn find_sep_from(s: Seq<char>, i: int) -> Option<int>
    recommends
        0 <= i,
    decreases s.len() - i,
{
    if i < 0 || i + 1 >= s.len() {
        None
    } else if s[i] == '>' && s[i + 1] == '>' {
        Some(i)
    } else {
        find_sep_from(s, i + 1)
    }
}

pub proof fn lemma_find_sep_from_skip(s: Seq<char>, i: int, j: int)
    requires
        0 <= i <= j,
        forall|k: int| i <= k < j ==> !(#[trigger] s[k] == '>' && s[k + 1] == '>'),
    ensures
        find_sep_from(s, i) == find_sep_from(s, j),
    decreases j - i,
{
    if i < j {
        lemma_find_sep_from_skip(s, i + 1, j);
    }
}

/// Splits a line at the first `>>` separator, as the compositor's event protocol frames
/// an event name and its parameter text.
pub fn split_at_sep<'a>(s: &'a str) -> (r: Option<(&'a str, &'a str)>)
    ensures
        match r {
            Some(parts) => {
                &&& find_sep_from(s@, 0) matches Some(i)
                &&& parts.0@ == s@.take(find_sep_from(s@, 0)->Some_0)
                &&& parts.1@ == s@.skip(find_sep_from(s@, 0)->Some_0 + 2)
            },
            None => find_sep_from(s@, 0) is None,
        },
{
    let n = s.unicode_len();
    let mut i: usize = 0;
    while i < n && i + 1 < n
        invariant
            n == s@.len(),
            i <= n,
            forall|k: int| 0 <= k < i ==> !(#[trigger] s@[k] == '>' && s@[k + 1] == '>'),
        decreases n - i,
    {
        if s.get_char(i) == '>' && s.get_char(i + 1) == '>' {
            proof {
                lemma_find_sep_from_skip(s@, 0, i as int);
            }
            let name = s.substring_char(0, i);
            let params = s.substring_char(i + 2, n);
            return Some((name, params));
        }
        i += 1;
    }
    proof {
        lemma_find_sep_from_skip(s@, 0, i as int);
    }
    None
}

/// Splits `s` at the first comma; the second half keeps any further commas,
/// which is how positional event parameters absorb trailing free text.
pub open spec fn split_first_comma(s: Seq<char>) -> Option<(Seq<char>, Seq<char>)> {
    match find_char_from(s, ',', 0) {
        None => None,
        Some(i) => Some((s.take(i), s.skip(i + 1))),
    }
}

pub fn split_comma<'a>(s: &'a str) -> (r: Option<(&'a str, &'a str)>)
    ensures
        match r {
            Some(parts) => split_first_comma(s@) == Some((parts.0@, parts.1@)),
            None => split_first_comma(s@) is None,
        },
{
    proof {
        lemma_find_char_from(s@, ',', 0);
    }
    match find_char(s, ',') {
        None => None,
        Some(i) => {
            let n = s.unicode_len();
            let a = s.substring_char(0, i);
            let b = s.substring_char(i + 1, n);
            Some((a, b))
        },
    }
}

/// All comma-separated fields of `s`; splitting the empty string yields one empty field.
pub open spec fn split_commas(s: Seq<char>) -> Seq<Seq<char>>
    decreases s.len(),
    via split_commas_decreases
{
    match find_char_from(s, ',', 0) {
        None => seq![s],
        Some(i) => seq![s.take(i)] + split_commas(s.skip(i + 1)),
    }
}

#[via_fn]
proof fn split_commas_decreases(s: Seq<char>) {
    lemma_find_char_from(s, ',', 0);
}

pub fn split_all_commas(s: &str) -> (r: Vec<String>)
    ensures
        r.deep_view() == split_commas(s@),
{
    let mut parts: Vec<String> = Vec::new();
    let mut rest: &str = s;
    loop
        invariant_except_break
            split_commas(s@) == parts.deep_view() + split_commas(rest@),
        ensures
            parts.deep_view() == split_commas(s@),
        decreases rest@.len(),
    {
        proof {
            lemma_find_char_from(rest@, ',', 0);
        }
        let ghost old_parts = parts;
        match split_comma(rest) {
            Some((a, b)) => {
                parts.push(String::from_str(a));
                proof {
                    assert(parts.deep_view() =~= old_parts.deep_view().push(a@));
                    assert(split_commas(rest@) == seq![a@] + split_commas(b@));
                    assert(parts.deep_view() + split_commas(b@) =~= old_parts.deep_view()
                        + split_commas(rest@));
                }
                rest = b;
            },
            None => {
                parts.push(String::from_str(rest));
                proof {
                    assert(split_commas(rest@) == seq![rest@]);
                    assert(parts.deep_view() =~= old_parts.deep_view().push(rest@));
                    assert(parts.deep_view() =~= old_parts.deep_view() + split_commas(rest@));
                }
                break ;
            },
        }
    }
    parts
}

/// Character-for-character string equality.
pub fn str_eq(a: &str, b: &str) -> (r: bool)
    ensures
        r == (a@ == b@),
{
    let na = a.unicode_len();
    let nb = b.unicode_len();
    if na != nb {
        return false;
    }
    let mut i: usize = 0;
    while i < na
        invariant
            na == a@.len(),
            na == b@.len(),
            i <= na,
            forall|k: int| 0 <= k < i ==> a@[k] == b@[k],
        decreases na - i,
    {
        if a.get_char(i) != b.get_char(i) {
            return false;
        }
        i += 1;
    }
    proof {
        assert(a@ =~= b@);
    }
    true
}

} // verus!
