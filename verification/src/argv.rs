//! Building blocks for argument vectors.
//!
//! Every command handed to the external compose binary is an ordered list of
//! string tokens. The spec functions here describe the token segments that
//! the argument compilers emit (a boolean flag, a `--flag value` pair, a
//! repeated `--flag value` list, trailing positionals), and the exec
//! functions append the corresponding tokens to a growing vector.

use vstd::prelude::*;

verus! {

/// Tokens of a boolean flag: the literal token when the flag is set,
/// nothing otherwise.
pub open spec fn flag_tokens(present: bool, token: Seq<char>) -> Seq<Seq<char>> {
    if present {
        seq![token]
    } else {
        Seq::empty()
    }
}

/// Tokens of a value flag: `--flag value` when a value was given,
/// nothing otherwise.
pub open spec fn value_tokens(token: Seq<char>, value: Option<Seq<char>>) -> Seq<Seq<char>> {
    match value {
        Some(v) => seq![token, v],
        None => Seq::empty(),
    }
}

/// Tokens of a repeatable value flag: one `--flag value` pair per value,
/// in input order.
pub open spec fn pair_tokens(token: Seq<char>, values: Seq<Seq<char>>) -> Seq<Seq<char>>
    decreases values.len(),
{
    if values.len() == 0 {
        Seq::empty()
    } else {
        pair_tokens(token, values.drop_last()) + seq![token, values.last()]
    }
}

/// Tokens of a flag whose values follow one single token: the token and
/// then every value when any value was given, nothing otherwise.
pub open spec fn group_tokens(token: Seq<char>, values: Seq<Seq<char>>) -> Seq<Seq<char>> {
    if values.len() == 0 {
        Seq::empty()
    } else {
        seq![token] + values
    }
}

/// Tokens of an optional positional argument.
pub open spec fn opt_tokens(value: Option<Seq<char>>) -> Seq<Seq<char>> {
    match value {
        Some(v) => seq![v],
        None => Seq::empty(),
    }
}

/// Appends one literal token.
pub fn push_token(args: &mut Vec<String>, token: &str)
    ensures
        final(args).deep_view() == old(args).deep_view() + seq![token@],
{
    args.push(token.to_owned());
    proof {
        assert(args.deep_view() =~= old(args).deep_view() + seq![token@]);
    }
}

/// Appends the literal token of a boolean flag when it is set.
pub fn push_flag(args: &mut Vec<String>, present: bool, token: &str)
    ensures
        final(args).deep_view() == old(args).deep_view() + flag_tokens(present, token@),
{
    if present {
        args.push(token.to_owned());
    }
    proof {
        assert(args.deep_view() =~= old(args).deep_view() + flag_tokens(present, token@));
    }
}

/// Appends `--flag value` when a value was given.
pub fn push_value(args: &mut Vec<String>, token: &str, value: &Option<String>)
    ensures
        final(args).deep_view() == old(args).deep_view() + value_tokens(
            token@,
            value.deep_view(),
        ),
{
    match value {
        Some(v) => {
            args.push(token.to_owned());
            args.push(v.clone());
        },
        None => {},
    }
    proof {
        assert(args.deep_view() =~= old(args).deep_view() + value_tokens(
            token@,
            value.deep_view(),
        ));
    }
}

/// Appends one string as its own token.
pub fn push_string(args: &mut Vec<String>, value: String)
    ensures
        final(args).deep_view() == old(args).deep_view() + seq![value@],
{
    args.push(value);
    proof {
        assert(args.deep_view() =~= old(args).deep_view() + seq![value@]);
    }
}

/// Appends one `--flag value` pair per value, in input order.
pub fn push_pairs(args: &mut Vec<String>, token: &str, values: &Vec<String>)
    ensures
        final(args).deep_view() == old(args).deep_view() + pair_tokens(
            token@,
            values.deep_view(),
        ),
{
    let n = values.len();
    let mut i: usize = 0;
    let mut out: Vec<String> = Vec::new();
    proof {
        assert(out.deep_view() =~= pair_tokens(token@, values.deep_view().take(0)));
    }
    while i < n
        invariant
            i <= n,
            n == values.len(),
            out.deep_view() == pair_tokens(token@, values.deep_view().take(i as int)),
        decreases n - i,
    {
        push_token(&mut out, token);
        push_string(&mut out, values[i].clone());
        proof {
            let vs = values.deep_view();
            assert(vs.take(i + 1).drop_last() =~= vs.take(i as int));
            assert(vs.take(i + 1).last() == vs[i as int]);
            assert(pair_tokens(token@, vs.take(i + 1)) == pair_tokens(token@, vs.take(i as int))
                + seq![token@, vs[i as int]]);
            assert(out.deep_view() =~= pair_tokens(token@, vs.take(i + 1)));
        }
        i = i + 1;
    }
    proof {
        assert(values.deep_view().take(n as int) =~= values.deep_view());
    }
    append_args(args, out);
}

/// Appends every value as its own token, in input order.
pub fn push_values(args: &mut Vec<String>, values: &Vec<String>)
    ensures
        final(args).deep_view() == old(args).deep_view() + values.deep_view(),
{
    let n = values.len();
    let mut i: usize = 0;
    let mut out: Vec<String> = Vec::new();
    proof {
        assert(out.deep_view() =~= values.deep_view().take(0));
    }
    while i < n
        invariant
            i <= n,
            n == values.len(),
            out.deep_view() == values.deep_view().take(i as int),
        decreases n - i,
    {
        push_string(&mut out, values[i].clone());
        proof {
            let vs = values.deep_view();
            assert(out.deep_view() =~= vs.take(i + 1));
        }
        i = i + 1;
    }
    proof {
        assert(values.deep_view().take(n as int) =~= values.deep_view());
    }
    append_args(args, out);
}

/// Appends an optional positional argument.
pub fn push_opt(args: &mut Vec<String>, value: &Option<String>)
    ensures
        final(args).deep_view() == old(args).deep_view() + opt_tokens(value.deep_view()),
{
    match value {
        Some(v) => {
            args.push(v.clone());
        },
        None => {},
    }
    proof {
        assert(args.deep_view() =~= old(args).deep_view() + opt_tokens(value.deep_view()));
    }
}

/// Appends the flag token followed by every value when any value was given.
pub fn push_group(args: &mut Vec<String>, token: &str, values: &Vec<String>)
    ensures
        final(args).deep_view() == old(args).deep_view() + group_tokens(
            token@,
            values.deep_view(),
        ),
{
    if values.len() > 0 {
        push_token(args, token);
        push_values(args, values);
        proof {
            assert(args.deep_view() =~= old(args).deep_view() + group_tokens(
                token@,
                values.deep_view(),
            ));
        }
    } else {
        proof {
            assert(args.deep_view() =~= old(args).deep_view() + group_tokens(
                token@,
                values.deep_view(),
            ));
        }
    }
}

/// A copy of a token vector, element for element.
pub fn clone_tokens(values: &Vec<String>) -> (r: Vec<String>)
    ensures
        r@ == values@,
{
    let n = values.len();
    let mut i: usize = 0;
    let mut out: Vec<String> = Vec::new();
    while i < n
        invariant
            i <= n,
            n == values.len(),
            out@ == values@.take(i as int),
        decreases n - i,
    {
        out.push(values[i].clone());
        proof {
            assert(out@ =~= values@.take(i + 1));
        }
        i = i + 1;
    }
    proof {
        assert(values@.take(n as int) =~= values@);
    }
    out
}

/// Moves every token of `other` to the end of `args`.
pub fn append_args(args: &mut Vec<String>, other: Vec<String>)
    ensures
        final(args).deep_view() == old(args).deep_view() + other.deep_view(),
{
    let mut rest = other;
    args.append(&mut rest);
    proof {
        assert(args.deep_view() =~= old(args).deep_view() + other.deep_view());
    }
}

} // verus!
