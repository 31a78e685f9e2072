//! Version directories and include arguments.
use crate::text::{
    append_str, chars_of, owned, replace_char, replace_char_exec, split_on, split_on_exec,
    string_of, trim_end_by, trim_start_by, is_sep, trim_end_seps, trim_start_seps,
};
use vstd::prelude::*;

verus! {

// ---------------------------------------------------------------------------
// Version numbers
// ---------------------------------------------------------------------------

/// An ASCII decimal digit.
pub open spec fn is_digit(c: char) -> bool {
    '0' <= c && c <= '9'
}

/// The value of a decimal digit.
pub open spec fn digit_value(c: char) -> int {
    (c as int) - ('0' as int)
}

/// The value of a string of decimal digits.
pub open spec fn decimal_value(s: Seq<char>) -> int
    decreases s.len(),
{
    if s.len() == 0 {
        0
    } else {
        decimal_value(s.drop_last()) * 10 + digit_value(s.last())
    }
}

/// A version component: a non-empty run of decimal digits whose value fits
/// in a `u64`.
pub open spec fn is_number_component(c: Seq<char>) -> bool {
    &&& c.len() > 0
    &&& forall|i: int| 0 <= i < c.len() ==> is_digit(#[trigger] c[i])
    &&& decimal_value(c) <= u64::MAX
}

/// The numbers of a dotted version such as `14.40.33807`; `None` when a
/// component is not a number.
pub open spec fn version_key(s: Seq<char>) -> Option<Seq<int>> {
    let parts = split_on(s, '.');
    if forall|i: int| 0 <= i < parts.len() ==> is_number_component(#[trigger] parts[i]) {
        Some(parts.map_values(|p: Seq<char>| decimal_value(p)))
    } else {
        None
    }
}

/// Lexicographic order on number sequences (a proper prefix comes first).
pub open spec fn lex_le(a: Seq<int>, b: Seq<int>) -> bool
    decreases a.len(),
{
    if a.len() == 0 {
        true
    } else if b.len() == 0 {
        false
    } else if a[0] < b[0] {
        true
    } else if a[0] > b[0] {
        false
    } else {
        lex_le(a.drop_first(), b.drop_first())
    }
}

/// `vs[i]` is the highest version of `vs`: it is a version, no version
/// is higher, and every later version is lower (the last of equal highest
/// versions is taken).
pub open spec fn is_highest_version_at(vs: Seq<Seq<char>>, i: int) -> bool {
    &&& 0 <= i < vs.len()
    &&& version_key(vs[i]) is Some
    &&& forall|j: int|
        0 <= j < vs.len() && version_key(#[trigger] vs[j]) is Some ==> lex_le(
            version_key(vs[j])->0,
            version_key(vs[i])->0,
        )
    &&& forall|j: int|
        i < j < vs.len() && version_key(#[trigger] vs[j]) is Some ==> !lex_le(
            version_key(vs[i])->0,
            version_key(vs[j])->0,
        )
}

/// The models of a list of string slices.
pub open spec fn strs_of(v: Seq<&str>) -> Seq<Seq<char>> {
    v.map_values(|s: &str| s@)
}

pub proof fn lemma_lex_total(a: Seq<int>, b: Seq<int>)
    ensures
        lex_le(a, b) || lex_le(b, a),
    decreases a.len(),
{
    if a.len() > 0 && b.len() > 0 && a[0] == b[0] {
        lemma_lex_total(a.drop_first(), b.drop_first());
    }
}

pub proof fn lemma_lex_trans(a: Seq<int>, b: Seq<int>, c: Seq<int>)
    requires
        lex_le(a, b),
        lex_le(b, c),
    ensures
        lex_le(a, c),
    decreases a.len(),
{
    if a.len() > 0 && b.len() > 0 && c.len() > 0 && a[0] == b[0] && b[0] == c[0] {
        lemma_lex_trans(a.drop_first(), b.drop_first(), c.drop_first());
    }
}

pub proof fn lemma_lex_antisym(a: Seq<int>, b: Seq<int>)
    requires
        lex_le(a, b),
        lex_le(b, a),
    ensures
        a == b,
    decreases a.len(),
{
    if a.len() > 0 && b.len() > 0 {
        lemma_lex_antisym(a.drop_first(), b.drop_first());
        assert(a =~= seq![a[0]] + a.drop_first());
        assert(b =~= seq![b[0]] + b.drop_first());
    } else {
        assert(a.len() == 0 && b.len() == 0);
        assert(a =~= b);
    }
}

/// The highest version of a list is determined: at most one position holds
/// it.
pub proof fn law_highest_version_unique(vs: Seq<Seq<char>>, i: int, k: int)
    requires
        is_highest_version_at(vs, i),
        is_highest_version_at(vs, k),
    ensures
        i == k,
{
    if i < k {
        assert(version_key(vs[k]) is Some);
        assert(lex_le(version_key(vs[i])->0, version_key(vs[k])->0));
    } else if k < i {
        assert(version_key(vs[i]) is Some);
        assert(lex_le(version_key(vs[k])->0, version_key(vs[i])->0));
    }
}

proof fn lemma_decimal_nonneg(s: Seq<char>)
    requires
        forall|i: int| 0 <= i < s.len() ==> is_digit(#[trigger] s[i]),
    ensures
        decimal_value(s) >= 0,
    decreases s.len(),
{
    if s.len() > 0 {
        assert forall|i: int| 0 <= i < s.drop_last().len() implies is_digit(
            #[trigger] s.drop_last()[i],
        ) by {
            assert(s.drop_last()[i] == s[i]);
        }
        lemma_decimal_nonneg(s.drop_last());
        assert(is_digit(s[s.len() - 1]));
    }
}

proof fn lemma_decimal_prefix_le(s: Seq<char>, k: int)
    requires
        0 <= k <= s.len(),
        forall|i: int| 0 <= i < s.len() ==> is_digit(#[trigger] s[i]),
    ensures
        decimal_value(s.take(k)) <= decimal_value(s),
    decreases s.len(),
{
    if k == s.len() {
        assert(s.take(k) =~= s);
    } else {
        let d = s.drop_last();
        assert forall|i: int| 0 <= i < d.len() implies is_digit(#[trigger] d[i]) by {
            assert(d[i] == s[i]);
        }
        lemma_decimal_prefix_le(d, k);
        assert(d.take(k) =~= s.take(k));
        lemma_decimal_nonneg(d);
        assert(is_digit(s[s.len() - 1]));
    }
}

/// Parses a version component.
pub fn parse_component(c: &[char]) -> (r: Option<u64>)
    ensures
        r is Some <==> is_number_component(c@),
        r matches Some(v) ==> v as int == decimal_value(c@),
{
    if c.len() == 0 {
        return None;
    }
    let mut value: u64 = 0;
    let mut i: usize = 0;
    assert(c@.take(0) =~= Seq::<char>::empty());
    while i < c.len()
        invariant
            i <= c.len(),
            value as int == decimal_value(c@.take(i as int)),
            forall|j: int| 0 <= j < i ==> is_digit(#[trigger] c@[j]),
        decreases c.len() - i,
    {
        let ch = c[i];
        if !('0' <= ch && ch <= '9') {
            assert(!is_digit(c@[i as int]));
            return None;
        }
        let d: u64 = (ch as u32 - '0' as u32) as u64;
        proof {
            assert(c@.take(i + 1).drop_last() =~= c@.take(i as int));
            assert(c@.take(i + 1).last() == ch);
        }
        let times = value.checked_mul(10);
        match times {
            Some(t) => match t.checked_add(d) {
                Some(n) => {
                    value = n;
                },
                None => {
                    proof {
                        if forall|j: int| 0 <= j < c@.len() ==> is_digit(#[trigger] c@[j]) {
                            lemma_decimal_prefix_le(c@, i + 1);
                        }
                    }
                    return None;
                },
            },
            None => {
                proof {
                    if forall|j: int| 0 <= j < c@.len() ==> is_digit(#[trigger] c@[j]) {
                        lemma_decimal_prefix_le(c@, i + 1);
                    }
                }
                return None;
            },
        }
        i = i + 1;
    }
    assert(c@.take(c.len() as int) =~= c@);
    Some(value)
}

/// The model of a list of parsed numbers.
pub open spec fn ints_of(v: Seq<u64>) -> Seq<int> {
    v.map_values(|x: u64| x as int)
}

/// The numbers of a dotted version, when every component is a number.
pub fn version_key_exec(s: &str) -> (r: Option<Vec<u64>>)
    ensures
        match r {
            Some(v) => version_key(s@) == Some(ints_of(v@)),
            None => version_key(s@) is None,
        },
{
    let sv = chars_of(s);
    let parts = split_on_exec(&sv, '.');
    let ghost ps = parts@.map_values(|v: Vec<char>| v@);
    let mut key: Vec<u64> = Vec::new();
    let mut i: usize = 0;
    while i < parts.len()
        invariant
            ps == split_on(s@, '.'),
            ps == parts@.map_values(|v: Vec<char>| v@),
            i <= parts.len(),
            key@.len() == i,
            forall|j: int| 0 <= j < i ==> is_number_component(#[trigger] ps[j]),
            forall|j: int| 0 <= j < i ==> key@[j] as int == decimal_value(#[trigger] ps[j]),
        decreases parts.len() - i,
    {
        assert(ps[i as int] == parts@[i as int]@);
        match parse_component(&parts[i]) {
            Some(n) => {
                key.push(n);
            },
            None => {
                return None;
            },
        }
        i = i + 1;
    }
    assert(ints_of(key@) =~= ps.map_values(|p: Seq<char>| decimal_value(p)));
    Some(key)
}

/// `lex_le` on parsed numbers.
pub fn lex_le_exec(a: &Vec<u64>, b: &Vec<u64>) -> (r: bool)
    ensures
        r == lex_le(ints_of(a@), ints_of(b@)),
{
    let mut i: usize = 0;
    assert(ints_of(a@).skip(0) =~= ints_of(a@));
    assert(ints_of(b@).skip(0) =~= ints_of(b@));
    while i < a.len() && i < b.len()
        invariant
            i <= a.len(),
            i <= b.len(),
            lex_le(ints_of(a@), ints_of(b@)) == lex_le(ints_of(a@).skip(i as int), ints_of(b@).skip(i as int)),
        decreases a.len() - i,
    {
        let ghost sa = ints_of(a@).skip(i as int);
        let ghost sb = ints_of(b@).skip(i as int);
        assert(sa[0] == a@[i as int] as int);
        assert(sb[0] == b@[i as int] as int);
        if a[i] < b[i] {
            return true;
        }
        if a[i] > b[i] {
            return false;
        }
        assert(sa.drop_first() =~= ints_of(a@).skip(i + 1));
        assert(sb.drop_first() =~= ints_of(b@).skip(i + 1));
        i = i + 1;
    }
    i == a.len()
}

/// The highest version among directory names; names that are not dotted
/// numbers are ignored, and of equal highest versions the last is taken.
pub fn highest_version_dir<'a>(versions: &[&'a str]) -> (r: Option<&'a str>)
    ensures
        match r {
            Some(v) => exists|i: int|
                #![trigger strs_of(versions@)[i]]
                is_highest_version_at(strs_of(versions@), i) && v@ == strs_of(versions@)[i],
            None => forall|j: int|
                0 <= j < versions@.len() ==> version_key(#[trigger] versions@[j]@) is None,
        },
{
    let ghost vs = strs_of(versions@);
    let mut best: Option<usize> = None;
    let mut best_key: Vec<u64> = Vec::new();
    let mut i: usize = 0;
    while i < versions.len()
        invariant
            vs == strs_of(versions@),
            i <= versions.len(),
            match best {
                Some(b) => {
                    &&& b < i
                    &&& version_key(vs[b as int]) == Some(ints_of(best_key@))
                    &&& forall|j: int|
                        0 <= j < i && version_key(#[trigger] vs[j]) is Some ==> lex_le(
                            version_key(vs[j])->0,
                            ints_of(best_key@),
                        )
                    &&& forall|j: int|
                        b < j < i && version_key(#[trigger] vs[j]) is Some ==> !lex_le(
                            ints_of(best_key@),
                            version_key(vs[j])->0,
                        )
                },
                None => forall|j: int| 0 <= j < i ==> version_key(#[trigger] vs[j]) is None,
            },
        decreases versions.len() - i,
    {
        assert(vs[i as int] == versions@[i as int]@);
        match version_key_exec(versions[i]) {
            Some(key) => {
                let take = match best {
                    Some(_) => lex_le_exec(&best_key, &key),
                    None => true,
                };
                if take {
                    proof {
                        if best is Some {
                            assert forall|j: int|
                                0 <= j < i + 1 && version_key(#[trigger] vs[j]) is Some implies lex_le(
                                version_key(vs[j])->0,
                                ints_of(key@),
                            ) by {
                                if j < i {
                                    lemma_lex_trans(version_key(vs[j])->0, ints_of(best_key@), ints_of(key@));
                                } else {
                                    lemma_lex_total(ints_of(key@), ints_of(key@));
                                }
                            }
                        } else {
                            assert forall|j: int|
                                0 <= j < i + 1 && version_key(#[trigger] vs[j]) is Some implies lex_le(
                                version_key(vs[j])->0,
                                ints_of(key@),
                            ) by {
                                lemma_lex_total(ints_of(key@), ints_of(key@));
                            }
                        }
                    }
                    best = Some(i);
                    best_key = key;
                } else {
                    proof {
                        lemma_lex_total(ints_of(best_key@), ints_of(key@));
                    }
                }
            },
            None => {},
        }
        i = i + 1;
    }
    match best {
        Some(b) => {
            assert(is_highest_version_at(vs, b as int));
            let v = versions[b];
            assert(v == versions@[b as int]);
            assert(is_highest_version_at(strs_of(versions@), b as int) && v@ == strs_of(versions@)[b as int]);
            let r = Some(v);
            assert(exists|i: int|
                #![trigger strs_of(versions@)[i]]
                is_highest_version_at(strs_of(versions@), i) && v@ == strs_of(versions@)[i]);
            r
        },
        None => {
            assert forall|j: int| 0 <= j < versions@.len() implies version_key(
                #[trigger] versions@[j]@,
            ) is None by {
                assert(vs[j] == versions@[j]@);
            }
            None
        },
    }
}

// ---------------------------------------------------------------------------
// Include arguments
// ---------------------------------------------------------------------------

/// `/I<path>` with forward slashes, as clangd takes an MSVC include.
pub open spec fn clangd_include_arg_spec(path: Seq<char>) -> Seq<char> {
    "/I"@ + replace_char(path, '\\', '/')
}

/// `/I<path>` with forward slashes.
pub fn clangd_include_arg(path: &str) -> (r: String)
    ensures
        r@ == clangd_include_arg_spec(path@),
{
    let pv = chars_of(path);
    let slashed = replace_char_exec(&pv, '\\', '/');
    let mut r = owned("/I");
    let s = string_of(&slashed);
    append_str(&mut r, s.as_str());
    r
}

/// A path without trailing backslashes.
pub open spec fn trim_backslashes(s: Seq<char>) -> Seq<char> {
    trim_end_by(s, |c: char| c == '\\')
}

/// Removes trailing backslashes (`trim_end_matches('\\')`).
pub fn trim_end_backslashes(s: &str) -> (r: String)
    ensures
        r@ == trim_backslashes(s@),
{
    let v = chars_of(s);
    let mut k: usize = v.len();
    while k > 0 && v[k - 1] == '\\'
        invariant
            v@ == s@,
            k <= v.len(),
            forall|j: int| k <= j < v.len() ==> #[trigger] v@[j] == '\\',
        decreases k,
    {
        k = k - 1;
    }
    proof {
        crate::text::lemma_trim_end_by(v@, |c: char| c == '\\', k as int);
    }
    let t = crate::text::sub_chars(&v, 0, k);
    assert(t@ =~= v@.take(k as int));
    string_of(&t)
}

// ---------------------------------------------------------------------------
// Joining host paths
// ---------------------------------------------------------------------------

/// `<root>\<child>` with the separators between them collapsed to one
/// backslash.
pub open spec fn join_windows_path_spec(root_path: Seq<char>, child: Seq<char>) -> Seq<char> {
    trim_end_by(root_path, |c: char| is_sep(c)) + "\\"@ + trim_start_by(child, |c: char| is_sep(c))
}

/// Joins a Windows path and a child path with one backslash.
pub fn join_windows_path(root_path: &str, child: &str) -> (r: String)
    ensures
        r@ == join_windows_path_spec(root_path@, child@),
{
    let head = trim_end_seps(&chars_of(root_path));
    let tail = trim_start_seps(&chars_of(child));
    let mut r = string_of(&head);
    append_str(&mut r, "\\");
    let t = string_of(&tail);
    append_str(&mut r, t.as_str());
    r
}

} // verus!
