//! The argument formatter: turns an ordered list of named values into the
//! query-string fragment `&name1=value1&name2=value2...`, with a variant for
//! optional values that emits nothing when the value is absent.  No escaping
//! is performed; callers supply URL-safe values.

use vstd::prelude::*;
use vstd::string::StringExecFns;

verus! {

/// The fragment of one argument: `&name=value`.
pub open spec fn arg_frag(name: Seq<char>, value: Seq<char>) -> Seq<char> {
    "&"@ + name + "="@ + value
}

/// The fragment of a whole argument list: the fragments of its arguments,
/// concatenated in the order supplied.
pub open spec fn args_frag(pairs: Seq<(Seq<char>, Seq<char>)>) -> Seq<char>
    decreases pairs.len(),
{
    if pairs.len() == 0 {
        Seq::empty()
    } else {
        arg_frag(pairs[0].0, pairs[0].1) + args_frag(pairs.drop_first())
    }
}

/// The views of a list of (name, value) pairs.
pub open spec fn pairs_view(pairs: Seq<(String, String)>) -> Seq<(Seq<char>, Seq<char>)> {
    pairs.map_values(|p: (String, String)| (p.0@, p.1@))
}

/// The fragment of one optional argument: `&name=value` when the value is
/// present, nothing when it is absent.
pub open spec fn opt_arg_frag(name: Seq<char>, value: Option<Seq<char>>) -> Seq<char> {
    match value {
        Some(v) => arg_frag(name, v),
        None => Seq::empty(),
    }
}

/// The view of an optional value.
pub open spec fn opt_view(value: Option<String>) -> Option<Seq<char>> {
    match value {
        Some(v) => Some(v@),
        None => None,
    }
}

/// Concatenating two argument lists concatenates their fragments.
pub proof fn lemma_args_frag_append(a: Seq<(Seq<char>, Seq<char>)>, b: Seq<(Seq<char>, Seq<char>)>)
    ensures
        args_frag(a + b) == args_frag(a) + args_frag(b),
    decreases a.len(),
{
    if a.len() == 0 {
        assert(a + b =~= b);
        assert(args_frag(a) + args_frag(b) =~= args_frag(b));
    } else {
        assert((a + b).drop_first() =~= a.drop_first() + b);
        lemma_args_frag_append(a.drop_first(), b);
        assert((a + b)[0] == a[0]);
        assert(arg_frag(a[0].0, a[0].1) + (args_frag(a.drop_first()) + args_frag(b)) =~= (arg_frag(
            a[0].0,
            a[0].1,
        ) + args_frag(a.drop_first())) + args_frag(b));
    }
}

/// The fragment of a single argument list is that argument's fragment.
pub proof fn lemma_args_frag_singleton(p: (Seq<char>, Seq<char>))
    ensures
        args_frag(seq![p]) == arg_frag(p.0, p.1),
{
    let one = seq![p];
    assert(one.drop_first() =~= Seq::<(Seq<char>, Seq<char>)>::empty());
    assert(args_frag(one.drop_first()) == Seq::<char>::empty());
    assert(args_frag(one) == arg_frag(p.0, p.1) + args_frag(one.drop_first()));
    assert(arg_frag(p.0, p.1) + Seq::<char>::empty() =~= arg_frag(p.0, p.1));
}

/// Every supplied argument appears in the formatted fragment exactly once,
/// in the order supplied and prefixed `&name=`: around any chosen argument,
/// the fragment splits into the fragment of the arguments before it, that
/// argument's own `&name=value`, and the fragment of the arguments after it.
pub proof fn lemma_arg_in_order(pairs: Seq<(Seq<char>, Seq<char>)>, i: int)
    requires
        0 <= i < pairs.len(),
    ensures
        args_frag(pairs) == args_frag(pairs.take(i)) + arg_frag(pairs[i].0, pairs[i].1)
            + args_frag(pairs.skip(i + 1)),
{
    let one = seq![pairs[i]];
    assert(pairs =~= (pairs.take(i) + one) + pairs.skip(i + 1));
    lemma_args_frag_append(pairs.take(i) + one, pairs.skip(i + 1));
    lemma_args_frag_append(pairs.take(i), one);
    lemma_args_frag_singleton(pairs[i]);
    assert((args_frag(pairs.take(i)) + arg_frag(pairs[i].0, pairs[i].1)) + args_frag(
        pairs.skip(i + 1),
    ) =~= args_frag(pairs.take(i)) + arg_frag(pairs[i].0, pairs[i].1) + args_frag(
        pairs.skip(i + 1),
    ));
}

/// Formats an ordered list of named values as `&name1=value1&name2=value2...`.
pub fn gen_args(pairs: &Vec<(String, String)>) -> (s: String)
    ensures
        s@ == args_frag(pairs_view(pairs@)),
{
    let ghost pv = pairs_view(pairs@);
    let mut s = String::new();
    let mut i: usize = 0;
    while i < pairs.len()
        invariant
            i <= pairs.len(),
            pv == pairs_view(pairs@),
            s@ == args_frag(pv.take(i as int)),
        decreases pairs.len() - i,
    {
        let pair = &pairs[i];
        s.append("&");
        s.append(pair.0.as_str());
        s.append("=");
        s.append(pair.1.as_str());
        proof {
            let j = i as int;
            assert(pv.take(j + 1) =~= pv.take(j) + seq![pv[j]]);
            lemma_args_frag_append(pv.take(j), seq![pv[j]]);
            lemma_args_frag_singleton(pv[j]);
            assert(pv[j] == (pairs@[j].0@, pairs@[j].1@));
            assert(s@ =~= args_frag(pv.take(j)) + arg_frag(pv[j].0, pv[j].1));
            assert(s@ =~= args_frag(pv.take(j + 1)));
        }
        i = i + 1;
    }
    proof {
        assert(pv.take(pairs@.len() as int) =~= pv);
    }
    s
}

/// Formats one optional argument: `&name=value` when the value is present,
/// the empty string — no stray `&` or `name=` token — when it is absent.
pub fn optional_argument(name: &str, value: &Option<String>) -> (s: String)
    ensures
        s@ == opt_arg_frag(name@, opt_view(*value)),
        value is None ==> s@ == Seq::<char>::empty(),
{
    match value {
        Some(v) => {
            let mut s = String::new();
            s.append("&");
            s.append(name);
            s.append("=");
            s.append(v.as_str());
            proof {
                assert(s@ =~= arg_frag(name@, v@));
            }
            s
        },
        None => String::new(),
    }
}

} // verus!
