use vstd::prelude::*;

verus! {

/// The character of a decimal digit.
pub open spec fn digit_char(d: nat) -> char {
    if d == 0 { '0' }
    else if d == 1 { '1' }
    else if d == 2 { '2' }
    else if d == 3 { '3' }
    else if d == 4 { '4' }
    else if d == 5 { '5' }
    else if d == 6 { '6' }
    else if d == 7 { '7' }
    else if d == 8 { '8' }
    else { '9' }
}

/// The decimal representation of a natural number, without sign or leading zeros.
pub open spec fn decimal(n: nat) -> Seq<char>
    decreases n,
{
    if n < 10 {
        seq![digit_char(n)]
    } else {
        decimal(n / 10).push(digit_char(n % 10))
    }
}

/// The views of a sequence of strings.
pub open spec fn views(v: Seq<String>) -> Seq<Seq<char>> {
    v.map_values(|s: String| s@)
}

fn digit_str(d: usize) -> (s: &'static str)
    requires
        d < 10,
    ensures
        s@ == seq![digit_char(d as nat)],
{
    proof {
        reveal_strlit("0");
        reveal_strlit("1");
        reveal_strlit("2");
        reveal_strlit("3");
        reveal_strlit("4");
        reveal_strlit("5");
        reveal_strlit("6");
        reveal_strlit("7");
        reveal_strlit("8");
        reveal_strlit("9");
    }
    if d == 0 { "0" }
    else if d == 1 { "1" }
    else if d == 2 { "2" }
    else if d == 3 { "3" }
    else if d == 4 { "4" }
    else if d == 5 { "5" }
    else if d == 6 { "6" }
    else if d == 7 { "7" }
    else if d == 8 { "8" }
    else { "9" }
}

/// Formats an unsigned integer in decimal, as `to_string` does.
pub fn usize_to_string(n: usize) -> (s: String)
    ensures
        s@ == decimal(n as nat),
    decreases n,
{
    if n < 10 {
        String::from_str(digit_str(n))
    } else {
        let mut s = usize_to_string(n / 10);
        s.append(digit_str(n % 10));
        s
    }
}

/// Appends a copy of `s` to a list of arguments.
pub fn push_arg(args: &mut Vec<String>, s: &str)
    ensures
        views(final(args)@) == views(old(args)@).push(s@),
{
    args.push(String::from_str(s));
    proof {
        assert(views(args@) =~= views(old(args)@).push(s@));
    }
}

/// Appends `s` to a list of arguments.
pub fn push_string(args: &mut Vec<String>, s: String)
    ensures
        views(final(args)@) == views(old(args)@).push(s@),
{
    let ghost sv = s@;
    args.push(s);
    proof {
        assert(views(args@) =~= views(old(args)@).push(sv));
    }
}

/// The non-empty elements of a list, in order.
pub open spec fn nonempty_only(s: Seq<Seq<char>>) -> Seq<Seq<char>>
    decreases s.len(),
{
    if s.len() == 0 {
        seq![]
    } else if s.last().len() == 0 {
        nonempty_only(s.drop_last())
    } else {
        nonempty_only(s.drop_last()).push(s.last())
    }
}

/// Keeps the non-empty strings of a list, in order.
pub fn drop_empty(args: Vec<String>) -> (r: Vec<String>)
    ensures
        views(r@) == nonempty_only(views(args@)),
{
    let mut r: Vec<String> = Vec::new();
    let n = args.len();
    for i in 0..n
        invariant
            n == args@.len(),
            views(r@) == nonempty_only(views(args@.take(i as int))),
    {
        let s = args[i].clone();
        proof {
            assert(views(args@.take(i + 1)).drop_last() =~= views(args@.take(i as int)));
            assert(views(args@.take(i + 1)).last() == args@[i as int]@);
        }
        if !s.as_str().is_empty() {
            push_string(&mut r, s);
        }
    }
    proof {
        assert(args@.take(n as int) =~= args@);
    }
    r
}

/// Keeping the non-empty elements of two lists one after the other keeps
/// those of each.
pub proof fn lemma_nonempty_only_append(a: Seq<Seq<char>>, b: Seq<Seq<char>>)
    ensures
        nonempty_only(a + b) == nonempty_only(a) + nonempty_only(b),
    decreases b.len(),
{
    if b.len() == 0 {
        assert(a + b =~= a);
        assert(nonempty_only(b) =~= Seq::<Seq<char>>::empty());
        assert(nonempty_only(a) + nonempty_only(b) =~= nonempty_only(a));
    } else {
        lemma_nonempty_only_append(a, b.drop_last());
        assert((a + b).drop_last() =~= a + b.drop_last());
        assert((a + b).last() == b.last());
        if b.last().len() == 0 {
        } else {
            assert(nonempty_only(a) + nonempty_only(b.drop_last()).push(b.last())
                =~= (nonempty_only(a) + nonempty_only(b.drop_last())).push(b.last()));
        }
    }
}

/// A list without empty elements is kept whole.
pub proof fn lemma_nonempty_only_keeps_nonempty(s: Seq<Seq<char>>)
    requires
        forall|i: int| 0 <= i < s.len() ==> #[trigger] s[i].len() > 0,
    ensures
        nonempty_only(s) == s,
    decreases s.len(),
{
    if s.len() > 0 {
        lemma_nonempty_only_keeps_nonempty(s.drop_last());
        assert(s.drop_last().push(s.last()) =~= s);
    }
}

/// Every element of the list is non-empty.
pub proof fn lemma_nonempty_only(s: Seq<Seq<char>>)
    ensures
        forall|i: int| 0 <= i < nonempty_only(s).len() ==> #[trigger] nonempty_only(s)[i].len() > 0,
        nonempty_only(s).len() <= s.len(),
    decreases s.len(),
{
    if s.len() > 0 {
        lemma_nonempty_only(s.drop_last());
        let p = nonempty_only(s.drop_last());
        if s.last().len() > 0 {
            assert forall|i: int| 0 <= i < nonempty_only(s).len() implies #[trigger] nonempty_only(s)[i].len() > 0 by {
                if i < p.len() {
                    assert(nonempty_only(s)[i] == p[i]);
                }
            }
        }
    }
}

} // verus!
