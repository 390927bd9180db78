use vstd::prelude::*;

verus! {

pub open spec fn digit_char(d: nat) -> char {
    if d == 0 { '0' }
    else if d == 1 { '1' }
    else if d == 2 { '2' }
    else if d == 3 { '3' }
    else if d == 4 { '4' }
    else if d == 5 { '5' }
    else if d == 6 { '6' }
    else if d == 7 { '7' }
    else if d == 8 { '8' }
    else { '9' }
}

/// The decimal digits of `n`, most significant first, without leading zeros.
pub open spec fn decimal(n: nat) -> Seq<char>
    decreases n,
{
    if n < 10 {
        seq![digit_char(n)]
    } else {
        decimal(n / 10).push(digit_char(n % 10))
    }
}

/// The part of a path after its last `/` (the whole path where it has none).
pub open spec fn last_segment(p: Seq<char>) -> Seq<char>
    decreases p.len(),
{
    if p.len() == 0 {
        p
    } else if p.last() == '/' {
        Seq::empty()
    } else {
        last_segment(p.drop_last()).push(p.last())
    }
}

/// The file name of a path as a filesystem path reads it: trailing `/` and
/// `.` parts are passed over; the last remaining part is the name, unless it
/// is `..` or there is none (the empty path, `/`, `.`).
pub open spec fn path_file_name(p: Seq<char>) -> Option<Seq<char>>
    decreases p.len(),
{
    let seg = last_segment(p);
    if p.len() == 0 {
        None
    } else if seg.len() == 0 || (seg.len() == 1 && seg[0] == '.') {
        path_file_name(p.drop_last())
    } else if seg.len() == 2 && seg[0] == '.' && seg[1] == '.' {
        None
    } else {
        Some(seg)
    }
}

fn digit_text(d: u64) -> (r: &'static str)
    requires
        d < 10,
    ensures
        r@ == seq![digit_char(d as nat)],
{
    proof {
        reveal_strlit("0");
        reveal_strlit("1");
        reveal_strlit("2");
        reveal_strlit("3");
        reveal_strlit("4");
        reveal_strlit("5");
        reveal_strlit("6");
        reveal_strlit("7");
        reveal_strlit("8");
        reveal_strlit("9");
    }
    if d == 0 { "0" }
    else if d == 1 { "1" }
    else if d == 2 { "2" }
    else if d == 3 { "3" }
    else if d == 4 { "4" }
    else if d == 5 { "5" }
    else if d == 6 { "6" }
    else if d == 7 { "7" }
    else if d == 8 { "8" }
    else { "9" }
}

/// Appends the decimal digits of `n` to `s`.
pub fn push_decimal(s: &mut String, n: u64)
    ensures
        final(s)@ == old(s)@ + decimal(n as nat),
    decreases n,
{
    if n >= 10 {
        push_decimal(s, n / 10);
    }
    s.append(digit_text(n % 10));
    proof {
        if n >= 10 {
            assert(decimal(n as nat) == decimal((n / 10) as nat).push(digit_char((n % 10) as nat)));
        }
    }
    assert(final(s)@ =~= old(s)@ + decimal(n as nat));
}

/// The part of `path` after its last `/`.
pub fn file_name_of(path: &str) -> (r: String)
    ensures
        r@ == last_segment(path@),
{
    let n = path.unicode_len();
    let mut i: usize = n;
    assert(path@.subrange(0, n as int) =~= path@);
    assert(path@.subrange(n as int, n as int) =~= Seq::<char>::empty());
    assert(last_segment(path@) =~= last_segment(path@) + Seq::<char>::empty());
    while i > 0 && path.get_char(i - 1) != '/'
        invariant
            n == path@.len(),
            i <= n,
            last_segment(path@) == last_segment(path@.subrange(0, i as int)) + path@.subrange(
                i as int,
                n as int,
            ),
        decreases i,
    {
        let ghost pre = path@.subrange(0, i as int);
        assert(pre.drop_last() =~= path@.subrange(0, i - 1));
        assert(path@.subrange(i - 1, n as int) =~= seq![pre.last()] + path@.subrange(
            i as int,
            n as int,
        ));
        assert(last_segment(pre) == last_segment(pre.drop_last()).push(pre.last()));
        assert(last_segment(pre.drop_last()).push(pre.last()) + path@.subrange(i as int, n as int)
            =~= last_segment(path@.subrange(0, i - 1)) + path@.subrange(i - 1, n as int));
        i = i - 1;
    }
    assert(last_segment(path@.subrange(0, i as int)) =~= Seq::<char>::empty());
    assert(path@.subrange(0, n as int) =~= path@);
    String::from_str(path.substring_char(i, n))
}

/// The file name of `path`, read as a filesystem path.
pub fn path_file_name_of(path: &str) -> (r: Option<String>)
    ensures
        match r {
            Some(name) => path_file_name(path@) == Some(name@),
            None => path_file_name(path@) is None,
        },
    decreases path@.len(),
{
    let n = path.unicode_len();
    if n == 0 {
        return None;
    }
    let seg = file_name_of(path);
    let k = seg.as_str().unicode_len();
    if k == 0 || (k == 1 && seg.as_str().get_char(0) == '.') {
        let shorter = path.substring_char(0, n - 1);
        assert(shorter@ =~= path@.drop_last());
        return path_file_name_of(shorter);
    }
    if k == 2 && seg.as_str().get_char(0) == '.' && seg.as_str().get_char(1) == '.' {
        return None;
    }
    Some(seg)
}

} // verus!
