//! The model of a child-process invocation: a program path and an argument
//! list, together with the combinators every tool wrapper maps its options
//! through, and the interpretation of an exit status.

use vstd::prelude::*;
use crate::Error;

verus! {

/// A fully built command line: the program to spawn and its arguments,
/// in order. Spawning it is the caller's business; everything up to that
/// point is decided here.
#[derive(Debug)]
pub struct Invocation {
    pub program: String,
    pub args: Vec<String>,
}

/// The argument list as a sequence of character sequences.
pub open spec fn args_view(v: Seq<String>) -> Seq<Seq<char>> {
    Seq::new(v.len(), |i: int| v[i]@)
}

/// A boolean option: the bare flag when set, nothing when unset.
pub open spec fn flag_seg(flag: Seq<char>, on: bool) -> Seq<Seq<char>> {
    if on {
        seq![flag]
    } else {
        seq![]
    }
}

/// An optional scalar option: `flag value` when populated, nothing when not.
pub open spec fn opt_seg(flag: Seq<char>, v: Option<String>) -> Seq<Seq<char>> {
    match v {
        Option::Some(s) => seq![flag, s@],
        Option::None => seq![],
    }
}

/// A repeated option: `flag item` once per item, in order.
pub open spec fn list_seg(flag: Seq<char>, items: Seq<Seq<char>>) -> Seq<Seq<char>>
    decreases items.len(),
{
    if items.len() == 0 {
        seq![]
    } else {
        seq![flag, items[0]] + list_seg(flag, items.drop_first())
    }
}

/// How often the exact token `t` occurs in an argument list.
pub open spec fn tok_count(args: Seq<Seq<char>>, t: Seq<char>) -> nat
    decreases args.len(),
{
    if args.len() == 0 {
        0
    } else {
        (if args[0] == t {
            1nat
        } else {
            0nat
        }) + tok_count(args.drop_first(), t)
    }
}

/// Token counts add up across concatenation.
pub proof fn lemma_tok_count_concat(a: Seq<Seq<char>>, b: Seq<Seq<char>>, t: Seq<char>)
    ensures
        tok_count(a + b, t) == tok_count(a, t) + tok_count(b, t),
    decreases a.len(),
{
    if a.len() == 0 {
        assert(a + b =~= b);
    } else {
        assert((a + b).drop_first() =~= a.drop_first() + b);
        lemma_tok_count_concat(a.drop_first(), b, t);
    }
}

/// Splitting a repeated option at its first item.
pub proof fn lemma_list_seg_step(flag: Seq<char>, items: Seq<Seq<char>>, i: int)
    requires
        0 <= i < items.len(),
    ensures
        list_seg(flag, items.skip(i)) == seq![flag, items[i]] + list_seg(
            flag,
            items.skip(i + 1),
        ),
{
    assert(items.skip(i).len() > 0);
    assert(items.skip(i)[0] == items[i]);
    assert(items.skip(i).drop_first() =~= items.skip(i + 1));
}

/// How many occurrences of `t` a boolean option contributes.
pub open spec fn flag_contrib(flag: Seq<char>, on: bool, t: Seq<char>) -> int {
    if on && flag == t {
        1
    } else {
        0
    }
}

/// How many occurrences of `t` an optional scalar option contributes.
pub open spec fn opt_contrib(flag: Seq<char>, v: Option<String>, t: Seq<char>) -> int {
    match v {
        Option::Some(s) => (if flag == t {
            1int
        } else {
            0int
        }) + (if s@ == t {
            1int
        } else {
            0int
        }),
        Option::None => 0,
    }
}

/// The count of `t` in a one-token list.
pub proof fn lemma_tok_count_single(x: Seq<char>, t: Seq<char>)
    ensures
        tok_count(seq![x], t) == (if x == t {
            1nat
        } else {
            0nat
        }),
{
    let e = Seq::<Seq<char>>::empty();
    assert(tok_count(e, t) == 0);
    assert(seq![x].drop_first() =~= e);
}

/// The count of `t` in a two-token list.
pub proof fn lemma_tok_count_pair(x: Seq<char>, y: Seq<char>, t: Seq<char>)
    ensures
        tok_count(seq![x, y], t) as int == (if x == t {
            1int
        } else {
            0int
        }) + (if y == t {
            1int
        } else {
            0int
        }),
{
    assert(seq![x, y].drop_first() =~= seq![y]);
    lemma_tok_count_single(y, t);
}

/// A boolean option contributes its flag exactly when set.
pub proof fn lemma_tok_count_flag_seg(flag: Seq<char>, on: bool, t: Seq<char>)
    ensures
        tok_count(flag_seg(flag, on), t) as int == flag_contrib(flag, on, t),
{
    if on {
        lemma_tok_count_single(flag, t);
    }
}

/// An optional scalar option contributes its flag and value exactly when
/// populated.
pub proof fn lemma_tok_count_opt_seg(flag: Seq<char>, v: Option<String>, t: Seq<char>)
    ensures
        tok_count(opt_seg(flag, v), t) as int == opt_contrib(flag, v, t),
{
    match v {
        Option::Some(s) => {
            lemma_tok_count_pair(flag, s@, t);
        },
        Option::None => {},
    }
}

/// How many occurrences of `t` a repeated option contributes: its flag once
/// per item, plus any items that spell `t` themselves.
pub open spec fn list_contrib(flag: Seq<char>, items: Seq<Seq<char>>, t: Seq<char>) -> int {
    (if flag == t {
        items.len() as int
    } else {
        0int
    }) + tok_count(items, t) as int
}

/// A repeated option contributes per `list_contrib`.
pub proof fn lemma_tok_count_list_seg(flag: Seq<char>, items: Seq<Seq<char>>, t: Seq<char>)
    ensures
        tok_count(list_seg(flag, items), t) as int == list_contrib(flag, items, t),
    decreases items.len(),
{
    if items.len() == 0 {
    } else {
        lemma_tok_count_concat(seq![flag, items[0]], list_seg(flag, items.drop_first()), t);
        lemma_tok_count_pair(flag, items[0], t);
        lemma_tok_count_list_seg(flag, items.drop_first(), t);
    }
}

/// A list none of whose items is `t` contains `t` zero times.
pub proof fn lemma_tok_count_zero(items: Seq<Seq<char>>, t: Seq<char>)
    requires
        forall|i: int| 0 <= i < items.len() ==> items[i] != t,
    ensures
        tok_count(items, t) == 0,
    decreases items.len(),
{
    if items.len() > 0 {
        assert(items[0] != t);
        lemma_tok_count_zero(items.drop_first(), t);
    }
}

/// The view of concatenated argument lists is the concatenation of the views.
pub proof fn lemma_args_view_concat(a: Seq<String>, b: Seq<String>)
    ensures
        args_view(a + b) == args_view(a) + args_view(b),
{
    assert(args_view(a + b) =~= args_view(a) + args_view(b));
}

/// Appends one literal argument.
pub fn push_arg(args: &mut Vec<String>, a: &str)
    ensures
        args_view(final(args)@) == args_view(old(args)@).push(a@),
{
    args.push(a.to_owned());
    proof {
        assert(args_view(args@) =~= args_view(old(args)@).push(a@));
    }
}

/// Appends one owned argument.
pub fn push_arg_string(args: &mut Vec<String>, a: String)
    ensures
        args_view(final(args)@) == args_view(old(args)@).push(a@),
{
    let ghost v = a@;
    args.push(a);
    proof {
        assert(args_view(args@) =~= args_view(old(args)@).push(v));
    }
}

/// Appends a boolean option.
pub fn push_flag(args: &mut Vec<String>, on: bool, flag: &str)
    ensures
        args_view(final(args)@) == args_view(old(args)@) + flag_seg(flag@, on),
{
    if on {
        args.push(flag.to_owned());
    }
    proof {
        assert(args_view(args@) =~= args_view(old(args)@) + flag_seg(flag@, on));
    }
}

/// Appends an optional scalar option.
pub fn push_opt(args: &mut Vec<String>, v: &Option<String>, flag: &str)
    ensures
        args_view(final(args)@) == args_view(old(args)@) + opt_seg(flag@, *v),
{
    match v {
        Option::Some(s) => {
            args.push(flag.to_owned());
            args.push(s.clone());
        },
        Option::None => {},
    }
    proof {
        assert(args_view(args@) =~= args_view(old(args)@) + opt_seg(flag@, *v));
    }
}

/// Appends a repeated option, one `flag item` pair per item.
pub fn push_list(args: &mut Vec<String>, flag: &str, items: &Vec<String>)
    ensures
        args_view(final(args)@) == args_view(old(args)@) + list_seg(flag@, args_view(items@)),
{
    let ghost itemsv = args_view(items@);
    proof {
        assert(itemsv.skip(0) =~= itemsv);
    }
    let mut i: usize = 0;
    while i < items.len()
        invariant
            i <= items.len(),
            itemsv == args_view(items@),
            itemsv.len() == items@.len(),
            args_view(args@) + list_seg(flag@, itemsv.skip(i as int)) == args_view(old(args)@)
                + list_seg(flag@, itemsv),
        decreases items.len() - i,
    {
        proof {
            lemma_list_seg_step(flag@, itemsv, i as int);
        }
        let ghost before = args_view(args@);
        args.push(flag.to_owned());
        args.push(items[i].clone());
        proof {
            assert(args_view(args@) =~= before + seq![flag@, itemsv[i as int]]);
            assert(args_view(args@) + list_seg(flag@, itemsv.skip(i as int + 1)) =~= before
                + list_seg(flag@, itemsv.skip(i as int)));
        }
        i = i + 1;
    }
    proof {
        assert(itemsv.skip(items@.len() as int) =~= Seq::<Seq<char>>::empty());
        assert(args_view(args@) + list_seg(flag@, itemsv.skip(items@.len() as int)) =~= args_view(
            args@,
        ));
    }
}

/// Appends every item as a bare argument, in order.
pub fn push_all(args: &mut Vec<String>, items: &Vec<String>)
    ensures
        args_view(final(args)@) == args_view(old(args)@) + args_view(items@),
{
    let mut i: usize = 0;
    while i < items.len()
        invariant
            i <= items.len(),
            args_view(args@) == args_view(old(args)@) + args_view(items@).take(i as int),
        decreases items.len() - i,
    {
        let ghost before = args_view(args@);
        args.push(items[i].clone());
        proof {
            assert(args_view(args@) =~= before.push(args_view(items@)[i as int]));
            assert(args_view(args@) =~= args_view(old(args)@) + args_view(items@).take(
                i as int + 1,
            ));
        }
        i = i + 1;
    }
    proof {
        assert(args_view(items@).take(items@.len() as int) =~= args_view(items@));
    }
}

/// Turns an exit status into the pipeline's outcome: success passes, anything
/// else surfaces the captured code. There is no retry and no partial success.
pub fn check_status(success: bool, code: Option<i32>) -> (r: Result<(), Error>)
    ensures
        success <==> r is Ok,
        !success ==> r == Result::<(), Error>::Err(Error::ChildExit(code)),
{
    if success {
        Result::Ok(())
    } else {
        Result::Err(Error::ChildExit(code))
    }
}

} // verus!
