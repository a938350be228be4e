//! Character-sequence helpers shared by the document builder and the
//! build-fragment emitter: decimal numerals, joining and framing lists.
use vstd::prelude::*;

verus! {

/// The decimal digit character for `d < 10`.
pub open spec fn digit_char(d: nat) -> char {
    if d == 0 {
        '0'
    } else if d == 1 {
        '1'
    } else if d == 2 {
        '2'
    } else if d == 3 {
        '3'
    } else if d == 4 {
        '4'
    } else if d == 5 {
        '5'
    } else if d == 6 {
        '6'
    } else if d == 7 {
        '7'
    } else if d == 8 {
        '8'
    } else {
        '9'
    }
}

/// The decimal numeral of `n`, most significant digit first, without
/// leading zeros.
pub open spec fn decimal(n: nat) -> Seq<char>
    decreases n,
{
    if n < 10 {
        seq![digit_char(n)]
    } else {
        decimal(n / 10).push(digit_char(n % 10))
    }
}

/// The decimal numeral of a signed integer, with a leading `-` when negative.
pub open spec fn signed_decimal(n: int) -> Seq<char> {
    if n < 0 {
        seq!['-'] + decimal((-n) as nat)
    } else {
        decimal(n as nat)
    }
}

/// Every item framed by `pre` and `post`, one after the other.
pub open spec fn frame_each(items: Seq<Seq<char>>, pre: Seq<char>, post: Seq<char>) -> Seq<char>
    decreases items.len(),
{
    if items.len() == 0 {
        Seq::empty()
    } else {
        frame_each(items.drop_last(), pre, post) + pre + items.last() + post
    }
}

/// The items with `sep` between each two neighbours.
pub open spec fn join(items: Seq<Seq<char>>, sep: Seq<char>) -> Seq<char>
    decreases items.len(),
{
    if items.len() == 0 {
        Seq::empty()
    } else if items.len() == 1 {
        items[0]
    } else {
        join(items.drop_last(), sep) + sep + items.last()
    }
}

/// The character views of a vector of strings.
pub open spec fn views(v: Seq<String>) -> Seq<Seq<char>> {
    v.map_values(|s: String| s@)
}

fn digit_str(d: u64) -> (r: &'static str)
    requires
        d < 10,
    ensures
        r@ == seq![digit_char(d as nat)],
{
    proof {
        reveal_strlit("0");
        reveal_strlit("1");
        reveal_strlit("2");
        reveal_strlit("3");
        reveal_strlit("4");
        reveal_strlit("5");
        reveal_strlit("6");
        reveal_strlit("7");
        reveal_strlit("8");
        reveal_strlit("9");
    }
    if d == 0 {
        "0"
    } else if d == 1 {
        "1"
    } else if d == 2 {
        "2"
    } else if d == 3 {
        "3"
    } else if d == 4 {
        "4"
    } else if d == 5 {
        "5"
    } else if d == 6 {
        "6"
    } else if d == 7 {
        "7"
    } else if d == 8 {
        "8"
    } else {
        "9"
    }
}

/// Writes `n` in decimal.
pub fn decimal_string(n: u64) -> (r: String)
    ensures
        r@ == decimal(n as nat),
    decreases n,
{
    if n < 10 {
        String::from_str(digit_str(n))
    } else {
        let mut s = decimal_string(n / 10);
        s.append(digit_str(n % 10));
        s
    }
}

/// Writes `n` in decimal, with a leading `-` when it is negative.
pub fn signed_decimal_string(n: i64) -> (r: String)
    requires
        n > i64::MIN,
    ensures
        r@ == signed_decimal(n as int),
{
    if n < 0 {
        proof {
            reveal_strlit("-");
        }
        let digits = decimal_string((-n) as u64);
        String::from_str("-").concat(digits.as_str())
    } else {
        decimal_string(n as u64)
    }
}

/// Appends every item of `items`, each framed by `pre` and `post`.
pub fn push_framed(out: &mut String, items: &Vec<String>, pre: &str, post: &str)
    ensures
        final(out)@ == old(out)@ + frame_each(views(items@), pre@, post@),
{
    let ghost start = out@;
    let mut i: usize = 0;
    while i < items.len()
        invariant
            i <= items.len(),
            out@ == start + frame_each(views(items@.take(i as int)), pre@, post@),
        decreases items.len() - i,
    {
        proof {
            assert(views(items@.take(i + 1)).drop_last() =~= views(items@.take(i as int)));
        }
        out.append(pre);
        out.append(items[i].as_str());
        out.append(post);
        i = i + 1;
    }
    proof {
        assert(items@.take(i as int) =~= items@);
    }
}

/// The items with `sep` between each two neighbours.
pub fn join_strings(items: &Vec<String>, sep: &str) -> (r: String)
    ensures
        r@ == join(views(items@), sep@),
{
    let mut out = String::new();
    let mut i: usize = 0;
    while i < items.len()
        invariant
            i <= items.len(),
            out@ == join(views(items@.take(i as int)), sep@),
        decreases items.len() - i,
    {
        proof {
            assert(views(items@.take(i + 1)).drop_last() =~= views(items@.take(i as int)));
        }
        if i > 0 {
            out.append(sep);
        }
        out.append(items[i].as_str());
        i = i + 1;
    }
    proof {
        assert(items@.take(i as int) =~= items@);
    }
    out
}

/// Lexicographic order of character sequences from position `i` on,
/// characters compared by code point: the order of `str`.
pub open spec fn less_from(a: Seq<char>, b: Seq<char>, i: nat) -> bool
    decreases a.len() - i,
{
    if i >= a.len() {
        i < b.len()
    } else if i >= b.len() {
        false
    } else if a[i as int] != b[i as int] {
        (a[i as int] as u32) < (b[i as int] as u32)
    } else {
        less_from(a, b, i + 1)
    }
}

/// `a` comes strictly before `b` in the order of `str`.
pub open spec fn name_less(a: Seq<char>, b: Seq<char>) -> bool {
    less_from(a, b, 0)
}

/// No two entries share a name.
pub open spec fn keys_distinct<V>(s: Seq<(String, V)>) -> bool {
    forall|i: int, j: int| #![trigger s[i], s[j]] 0 <= i < j < s.len() ==> s[i].0@ != s[j].0@
}

/// The names strictly ascend in the order of `str`.
pub open spec fn keys_ascending<V>(s: Seq<(String, V)>) -> bool {
    forall|i: int| 0 <= i < s.len() - 1 ==> #[trigger] name_less(s[i].0@, s[i + 1].0@)
}

/// Whether `a` comes strictly before `b` in the order of `str`.
pub fn str_less(a: &str, b: &str) -> (r: bool)
    ensures
        r == name_less(a@, b@),
{
    let la = a.unicode_len();
    let lb = b.unicode_len();
    let mut i: usize = 0;
    while i < la && i < lb
        invariant
            la == a@.len(),
            lb == b@.len(),
            i <= la,
            i <= lb,
            less_from(a@, b@, 0) == less_from(a@, b@, i as nat),
        decreases la - i,
    {
        let ca = a.get_char(i);
        let cb = b.get_char(i);
        if ca != cb {
            return (ca as u32) < (cb as u32);
        }
        i = i + 1;
    }
    i >= la && i < lb
}

/// Whether no two entries share a name.
pub fn has_distinct_keys<V>(v: &Vec<(String, V)>) -> (r: bool)
    ensures
        r == keys_distinct(v@),
{
    let n = v.len();
    let mut i: usize = 0;
    while i < n
        invariant
            n == v@.len(),
            i <= n,
            forall|a: int, b: int| #![trigger v@[a], v@[b]] 0 <= a < b < n && a < i ==> v@[a].0@ != v@[b].0@,
        decreases n - i,
    {
        let mut j: usize = i + 1;
        while j < n
            invariant
                n == v@.len(),
                i < n,
                i < j <= n,
                forall|a: int, b: int| #![trigger v@[a], v@[b]] 0 <= a < b < n && a < i ==> v@[a].0@ != v@[b].0@,
                forall|b: int| i < b < j ==> v@[i as int].0@ != #[trigger] v@[b].0@,
            decreases n - j,
        {
            if v[i].0 == v[j].0 {
                assert(!keys_distinct(v@)) by {
                    assert(v@[i as int].0@ == v@[j as int].0@);
                }
                return false;
            }
            j = j + 1;
        }
        i = i + 1;
    }
    true
}

/// Whether the names strictly ascend in the order of `str`.
pub fn has_ascending_keys<V>(v: &Vec<(String, V)>) -> (r: bool)
    ensures
        r == keys_ascending(v@),
{
    let n = v.len();
    let mut i: usize = 1;
    while i < n
        invariant
            n == v@.len(),
            1 <= i,
            i <= n || n == 0,
            forall|k: int| 0 <= k < i - 1 && k < n - 1 ==> #[trigger] name_less(v@[k].0@, v@[k + 1].0@),
        decreases n - i,
    {
        if !str_less(v[i - 1].0.as_str(), v[i].0.as_str()) {
            assert(!name_less(v@[i - 1].0@, v@[(i - 1) + 1].0@));
            return false;
        }
        i = i + 1;
    }
    true
}

} // verus!
