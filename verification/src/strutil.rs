use vstd::prelude::*;

verus! {

/// Character-wise string equality: the result holds exactly when the two
/// views agree.
pub fn str_eq(a: &str, b: &str) -> (r: bool)
    ensures
        r == (a@ == b@),
{
    let alen = a.unicode_len();
    let blen = b.unicode_len();
    if alen != blen {
        return false;
    }
    let mut i: usize = 0;
    while i < alen
        invariant
            i <= alen,
            alen == a@.len(),
            alen == b@.len(),
            forall|j: int| 0 <= j < i ==> a@[j] == b@[j],
        decreases alen - i,
    {
        if a.get_char(i) != b.get_char(i) {
            return false;
        }
        i = i + 1;
    }
    proof {
        assert(a@ =~= b@);
    }
    true
}

/// Index of the last occurrence of `c` in `s`, or -1 when `c` does not occur.
pub open spec fn spec_last_pos(s: Seq<char>, c: char) -> int
    decreases s.len(),
{
    if s.len() == 0 {
        -1
    } else if s[s.len() - 1] == c {
        s.len() - 1
    } else {
        spec_last_pos(s.drop_last(), c)
    }
}

pub proof fn lemma_last_pos_none(s: Seq<char>, c: char)
    requires
        forall|j: int| 0 <= j < s.len() ==> s[j] != c,
    ensures
        spec_last_pos(s, c) == -1,
    decreases s.len(),
{
    if s.len() > 0 {
        lemma_last_pos_none(s.drop_last(), c);
    }
}

pub proof fn lemma_last_pos_at(s: Seq<char>, c: char, i: int)
    requires
        0 <= i < s.len(),
        s[i] == c,
        forall|j: int| i < j < s.len() ==> s[j] != c,
    ensures
        spec_last_pos(s, c) == i,
    decreases s.len(),
{
    if i < s.len() - 1 {
        lemma_last_pos_at(s.drop_last(), c, i);
    }
}

/// Position of the last occurrence of `c` in `s`, if any.
pub fn last_char_position(s: &str, c: char) -> (r: Option<usize>)
    ensures
        match r {
            Some(i) => i < s@.len() && spec_last_pos(s@, c) == i,
            None => spec_last_pos(s@, c) == -1,
        },
{
    let n = s.unicode_len();
    let mut i: usize = 0;
    let mut found = false;
    let mut last: usize = 0;
    while i < n
        invariant
            i <= n,
            n == s@.len(),
            found ==> last < i && s@[last as int] == c && (forall|j: int|
                last < j < i ==> s@[j] != c),
            !found ==> forall|j: int| 0 <= j < i ==> s@[j] != c,
        decreases n - i,
    {
        if s.get_char(i) == c {
            found = true;
            last = i;
        }
        i = i + 1;
    }
    if found {
        proof {
            lemma_last_pos_at(s@, c, last as int);
        }
        Some(last)
    } else {
        proof {
            lemma_last_pos_none(s@, c);
        }
        None
    }
}

/// A path separator of either convention.
pub open spec fn spec_is_sep(c: char) -> bool {
    c == '/' || c == '\\'
}

pub fn is_separator(c: char) -> (r: bool)
    ensures
        r == spec_is_sep(c),
{
    c == '/' || c == '\\'
}

/// `s` with its trailing path separators removed.
pub open spec fn spec_trim_seps(s: Seq<char>) -> Seq<char>
    decreases s.len(),
{
    if s.len() > 0 && spec_is_sep(s.last()) {
        spec_trim_seps(s.drop_last())
    } else {
        s
    }
}

pub proof fn lemma_trim_seps_prefix(s: Seq<char>, k: int)
    requires
        0 <= k <= s.len(),
        forall|j: int| k <= j < s.len() ==> spec_is_sep(s[j]),
        k > 0 ==> !spec_is_sep(s[k - 1]),
    ensures
        spec_trim_seps(s) == s.subrange(0, k),
    decreases s.len(),
{
    if s.len() == k {
        assert(s.subrange(0, k) =~= s);
    } else {
        lemma_trim_seps_prefix(s.drop_last(), k);
        assert(s.drop_last().subrange(0, k) =~= s.subrange(0, k));
    }
}

/// The longest prefix of `s` without its trailing path separators.
pub fn trim_trailing_separators(s: &str) -> (r: &str)
    ensures
        r@ == spec_trim_seps(s@),
{
    let n = s.unicode_len();
    let mut k: usize = n;
    let mut done = false;
    while !done && k > 0
        invariant
            k <= n,
            n == s@.len(),
            forall|j: int| k <= j < n ==> spec_is_sep(s@[j]),
            done ==> k > 0 && !spec_is_sep(s@[k - 1]),
        decreases k, (if done { 0int } else { 1int }),
    {
        if is_separator(s.get_char(k - 1)) {
            k = k - 1;
        } else {
            done = true;
        }
    }
    proof {
        lemma_trim_seps_prefix(s@, k as int);
    }
    s.substring_char(0, k)
}

/// Index of the last path separator in `s`, or -1 when none occurs.
pub open spec fn spec_last_sep(s: Seq<char>) -> int
    decreases s.len(),
{
    if s.len() == 0 {
        -1
    } else if spec_is_sep(s[s.len() - 1]) {
        s.len() - 1
    } else {
        spec_last_sep(s.drop_last())
    }
}

pub proof fn lemma_last_sep_none(s: Seq<char>)
    requires
        forall|j: int| 0 <= j < s.len() ==> !spec_is_sep(s[j]),
    ensures
        spec_last_sep(s) == -1,
    decreases s.len(),
{
    if s.len() > 0 {
        lemma_last_sep_none(s.drop_last());
    }
}

pub proof fn lemma_last_sep_at(s: Seq<char>, i: int)
    requires
        0 <= i < s.len(),
        spec_is_sep(s[i]),
        forall|j: int| i < j < s.len() ==> !spec_is_sep(s[j]),
    ensures
        spec_last_sep(s) == i,
    decreases s.len(),
{
    if i < s.len() - 1 {
        lemma_last_sep_at(s.drop_last(), i);
    }
}

/// Position of the last path separator in `s`, if any.
pub fn last_separator_position(s: &str) -> (r: Option<usize>)
    ensures
        match r {
            Some(i) => i < s@.len() && spec_is_sep(s@[i as int]) && spec_last_sep(s@) == i,
            None => spec_last_sep(s@) == -1,
        },
{
    let n = s.unicode_len();
    let mut i: usize = 0;
    let mut found = false;
    let mut last: usize = 0;
    while i < n
        invariant
            i <= n,
            n == s@.len(),
            found ==> last < i && spec_is_sep(s@[last as int]) && (forall|j: int|
                last < j < i ==> !spec_is_sep(s@[j])),
            !found ==> forall|j: int| 0 <= j < i ==> !spec_is_sep(s@[j]),
        decreases n - i,
    {
        if is_separator(s.get_char(i)) {
            found = true;
            last = i;
        }
        i = i + 1;
    }
    if found {
        proof {
            lemma_last_sep_at(s@, last as int);
        }
        Some(last)
    } else {
        proof {
            lemma_last_sep_none(s@);
        }
        None
    }
}

/// The crate's path-join convention: `a`, one '/' separator, then `b`.
pub open spec fn spec_join(a: Seq<char>, b: Seq<char>) -> Seq<char> {
    a + seq!['/'] + b
}

pub fn join_path(a: &str, b: &str) -> (r: String)
    ensures
        r@ == spec_join(a@, b@),
{
    let mut s = a.to_owned();
    s.append("/");
    s.append(b);
    proof {
        reveal_strlit("/");
        assert(s@ =~= spec_join(a@, b@));
    }
    s
}

/// The character for one decimal digit.
pub open spec fn spec_digit(d: nat) -> char {
    if d == 0 {
        '0'
    } else if d == 1 {
        '1'
    } else if d == 2 {
        '2'
    } else if d == 3 {
        '3'
    } else if d == 4 {
        '4'
    } else if d == 5 {
        '5'
    } else if d == 6 {
        '6'
    } else if d == 7 {
        '7'
    } else if d == 8 {
        '8'
    } else {
        '9'
    }
}

/// Decimal notation of `n`: most significant digit first, no sign, no padding.
pub open spec fn spec_decimal(n: nat) -> Seq<char>
    decreases n,
{
    if n < 10 {
        seq![spec_digit(n)]
    } else {
        spec_decimal(n / 10).push(spec_digit(n % 10))
    }
}

fn digit_string(d: u64) -> (r: String)
    requires
        d < 10,
    ensures
        r@ == seq![spec_digit(d as nat)],
{
    let s: &str = if d == 0 {
        "0"
    } else if d == 1 {
        "1"
    } else if d == 2 {
        "2"
    } else if d == 3 {
        "3"
    } else if d == 4 {
        "4"
    } else if d == 5 {
        "5"
    } else if d == 6 {
        "6"
    } else if d == 7 {
        "7"
    } else if d == 8 {
        "8"
    } else {
        "9"
    };
    proof {
        reveal_strlit("0");
        reveal_strlit("1");
        reveal_strlit("2");
        reveal_strlit("3");
        reveal_strlit("4");
        reveal_strlit("5");
        reveal_strlit("6");
        reveal_strlit("7");
        reveal_strlit("8");
        reveal_strlit("9");
        assert(s@ =~= seq![spec_digit(d as nat)]);
    }
    s.to_owned()
}

/// Decimal string of `n`.
pub fn decimal_string(n: u64) -> (r: String)
    ensures
        r@ == spec_decimal(n as nat),
    decreases n,
{
    if n < 10 {
        digit_string(n)
    } else {
        let mut s = decimal_string(n / 10);
        let d = digit_string(n % 10);
        s.append(d.as_str());
        proof {
            assert(s@ =~= spec_decimal(n as nat));
        }
        s
    }
}

} // verus!
