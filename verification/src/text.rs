use vstd::prelude::*;
use vstd::string::*;

verus! {

/// The character that writes the decimal digit `d`.
pub open spec fn digit_char(d: nat) -> char {
    if d == 0 {
        '0'
    } else if d == 1 {
        '1'
    } else if d == 2 {
        '2'
    } else if d == 3 {
        '3'
    } else if d == 4 {
        '4'
    } else if d == 5 {
        '5'
    } else if d == 6 {
        '6'
    } else if d == 7 {
        '7'
    } else if d == 8 {
        '8'
    } else {
        '9'
    }
}

/// The decimal notation of `n`, most significant digit first, without
/// leading zeros.
pub open spec fn decimal_digits(n: nat) -> Seq<char>
    decreases n,
{
    if n < 10 {
        seq![digit_char(n)]
    } else {
        decimal_digits(n / 10).push(digit_char(n % 10))
    }
}

fn digit_text(d: u64) -> (r: &'static str)
    requires
        d < 10,
    ensures
        r@ == seq![digit_char(d as nat)],
{
    proof {
        reveal_strlit("0");
        reveal_strlit("1");
        reveal_strlit("2");
        reveal_strlit("3");
        reveal_strlit("4");
        reveal_strlit("5");
        reveal_strlit("6");
        reveal_strlit("7");
        reveal_strlit("8");
        reveal_strlit("9");
    }
    let r = if d == 0 {
        "0"
    } else if d == 1 {
        "1"
    } else if d == 2 {
        "2"
    } else if d == 3 {
        "3"
    } else if d == 4 {
        "4"
    } else if d == 5 {
        "5"
    } else if d == 6 {
        "6"
    } else if d == 7 {
        "7"
    } else if d == 8 {
        "8"
    } else {
        "9"
    };
    assert(r@ =~= seq![digit_char(d as nat)]);
    r
}

/// Writes `n` in decimal notation.
pub fn decimal(n: u64) -> (r: String)
    ensures
        r@ == decimal_digits(n as nat),
    decreases n,
{
    if n < 10 {
        String::from_str(digit_text(n))
    } else {
        let mut r = decimal(n / 10);
        r.append(digit_text(n % 10));
        r
    }
}

/// `text` without the slashes at its start.
pub open spec fn skip_slashes(text: Seq<char>) -> Seq<char>
    decreases text.len(),
{
    if text.len() > 0 && text[0] == '/' {
        skip_slashes(text.drop_first())
    } else {
        text
    }
}

/// Whether `path` lies at or under the directory `root`: it starts with
/// `root`, and what follows `root` is a name of its own.
pub open spec fn is_under(root: Seq<char>, path: Seq<char>) -> bool {
    &&& root.is_prefix_of(path)
    &&& (path.len() == root.len() || path[root.len() as int] == '/' || (root.len() > 0
        && root.last() == '/'))
}

/// The path that leads from the directory `root` to `path`, where `path`
/// lies at or under `root`.
pub open spec fn relative_to(root: Seq<char>, path: Seq<char>) -> Option<Seq<char>> {
    if is_under(root, path) {
        Some(skip_slashes(path.skip(root.len() as int)))
    } else {
        None
    }
}

/// The relative path undoes the join: the way from a directory to what
/// lies in it under `rest` is `rest`.
pub proof fn law_relative_path_undoes_join(root: Seq<char>, rest: Seq<char>)
    requires
        rest.len() == 0 || rest[0] != '/',
    ensures
        relative_to(root, root + seq!['/'] + rest) == Some(rest),
{
    let path = root + seq!['/'] + rest;
    assert(root =~= path.subrange(0, root.len() as int));
    let tail = path.skip(root.len() as int);
    assert(tail =~= seq!['/'] + rest);
    assert(tail.drop_first() =~= rest);
    assert(skip_slashes(tail) == skip_slashes(rest));
}

/// The path that leads from the directory `root` to `path`: `path` without
/// `root` and the slashes that follow it. `None` where `path` does not lie
/// at or under `root`.
pub fn relative_path(root: &str, path: &str) -> (r: Option<String>)
    ensures
        match r {
            Some(rest) => relative_to(root@, path@) == Some(rest@),
            None => relative_to(root@, path@) is None,
        },
{
    let n = root.unicode_len();
    let m = path.unicode_len();
    if n > m {
        return None;
    }
    let mut i: usize = 0;
    while i < n
        invariant
            i <= n <= m,
            n == root@.len(),
            m == path@.len(),
            forall|j: int| 0 <= j < i ==> root@[j] == path@[j],
        decreases n - i,
    {
        if root.get_char(i) != path.get_char(i) {
            assert(root@ != path@.subrange(0, n as int)) by {
                assert(path@.subrange(0, n as int)[i as int] == path@[i as int]);
            }
            return None;
        }
        i += 1;
    }
    assert(root@ =~= path@.subrange(0, n as int));
    if n < m && path.get_char(n) != '/' && !(n > 0 && root.get_char(n - 1) == '/') {
        return None;
    }
    let mut k: usize = n;
    while k < m && path.get_char(k) == '/'
        invariant
            n <= k <= m,
            m == path@.len(),
            skip_slashes(path@.skip(n as int)) == skip_slashes(path@.skip(k as int)),
        decreases m - k,
    {
        assert(path@.skip(k as int).drop_first() =~= path@.skip(k + 1));
        k += 1;
    }
    assert(skip_slashes(path@.skip(k as int)) == path@.skip(k as int));
    assert(path@.skip(k as int) =~= path@.subrange(k as int, m as int));
    Some(String::from_str(path.substring_char(k, m)))
}

} // verus!
