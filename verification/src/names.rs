//! The identifiers the derivation synthesizes: the injected scope
//! parameter's name, the companion types' names, and the positional
//! placeholder bindings `_0`, `_1`, ... of the conversion arms.

use vstd::prelude::*;
use vstd::arithmetic::div_mod::lemma_div_decreases;
use crate::ast::{GenericParam, ViewKind};

verus! {

/// The reserved base identifier of the injected scope parameter. It is
/// drawn from a transformation-private namespace: no ordinary declaration
/// uses the double-underscore prefix, so the base is almost always already
/// fresh; a collision check extends it otherwise.
pub open spec fn scope_lifetime_base() -> Seq<char> {
    "'__enum_ref_lt"@
}

/// The injected scope parameter's name does not occur among the given
/// parameters.
pub open spec fn fresh_in(name: Seq<char>, params: Seq<GenericParam>) -> bool {
    forall|i: int| 0 <= i < params.len() ==> params[i].spec_name() != name
}

/// The length of the longest parameter name in the list; zero for an empty
/// list. The collision check's extension loop terminates because a name
/// longer than this bound collides with nothing.
pub open spec fn max_param_name_len(params: Seq<GenericParam>) -> nat
    decreases params.len(),
{
    if params.len() == 0 {
        0
    } else {
        let rest = max_param_name_len(params.drop_last());
        let l = params.last().spec_name().len();
        if l > rest {
            l
        } else {
            rest
        }
    }
}

/// Every parameter's name length is bounded by `max_param_name_len`.
pub proof fn lemma_param_name_len_bound(params: Seq<GenericParam>, i: int)
    requires
        0 <= i < params.len(),
    ensures
        params[i].spec_name().len() <= max_param_name_len(params),
    decreases params.len(),
{
    if i < params.len() - 1 {
        lemma_param_name_len_bound(params.drop_last(), i);
    }
}

/// The injected scope parameter's name, pinned exactly: the reserved base
/// extended by the shortest run of underscores that avoids every parameter
/// already present. In particular it equals the base itself whenever the
/// base is already fresh.
pub open spec fn is_scope_name(name: Seq<char>, params: Seq<GenericParam>) -> bool {
    &&& fresh_in(name, params)
    &&& scope_lifetime_base().is_prefix_of(name)
    &&& (forall|i: int| scope_lifetime_base().len() <= i < name.len() ==> name[i] == '_')
    &&& (forall|n: int|
        scope_lifetime_base().len() <= n < name.len() ==> !fresh_in(
            name.subrange(0, n),
            params,
        ))
}

/// When the reserved base collides with nothing, the scope name is the
/// base itself.
pub proof fn lemma_scope_name_unchanged_when_fresh(name: Seq<char>, params: Seq<GenericParam>)
    requires
        is_scope_name(name, params),
        fresh_in(scope_lifetime_base(), params),
    ensures
        name == scope_lifetime_base(),
{
    let base = scope_lifetime_base();
    if name.len() > base.len() {
        assert(!fresh_in(name.subrange(0, base.len() as int), params));
        assert(name.subrange(0, base.len() as int) =~= base);
        assert(false);
    } else {
        assert(name =~= base);
    }
}

/// The name of the companion type derived from a source type named `src`:
/// `src` followed by `Ref` for the shared view, by `Mut` for the exclusive
/// view.
pub open spec fn companion_ident(src: Seq<char>, kind: ViewKind) -> Seq<char> {
    match kind {
        ViewKind::Shared => src + "Ref"@,
        ViewKind::Exclusive => src + "Mut"@,
    }
}

/// Deriving both views from one source declaration never produces
/// colliding type names: each companion name differs from the source name,
/// and the two companion names differ from each other.
pub proof fn lemma_companion_names_distinct(src: Seq<char>)
    ensures
        companion_ident(src, ViewKind::Shared) != src,
        companion_ident(src, ViewKind::Exclusive) != src,
        companion_ident(src, ViewKind::Shared) != companion_ident(src, ViewKind::Exclusive),
{
    reveal_strlit("Ref");
    reveal_strlit("Mut");
    assert(companion_ident(src, ViewKind::Shared).len() == src.len() + 3);
    assert(companion_ident(src, ViewKind::Exclusive).len() == src.len() + 3);
    assert(companion_ident(src, ViewKind::Shared)[src.len() as int] == 'R');
    assert(companion_ident(src, ViewKind::Exclusive)[src.len() as int] == 'M');
}

/// The decimal digit character for a value below ten.
pub open spec fn digit_char(d: nat) -> char {
    if d == 0 {
        '0'
    } else if d == 1 {
        '1'
    } else if d == 2 {
        '2'
    } else if d == 3 {
        '3'
    } else if d == 4 {
        '4'
    } else if d == 5 {
        '5'
    } else if d == 6 {
        '6'
    } else if d == 7 {
        '7'
    } else if d == 8 {
        '8'
    } else {
        '9'
    }
}

/// The decimal digits of `n`, most significant first, with no leading
/// zeros (a single `0` for zero itself).
pub open spec fn decimal_digits(n: nat) -> Seq<char>
    decreases n,
    via decimal_digits_decreases
{
    if n < 10 {
        seq![digit_char(n)]
    } else {
        decimal_digits(n / 10).push(digit_char(n % 10))
    }
}

#[via_fn]
proof fn decimal_digits_decreases(n: nat) {
    if n >= 10 {
        lemma_div_decreases(n as int, 10);
    }
}

/// The placeholder binding name for the positional field at index `i`:
/// an underscore followed by the index in decimal.
pub open spec fn placeholder_name(i: nat) -> Seq<char> {
    seq!['_'] + decimal_digits(i)
}

proof fn lemma_decimal_digits_len(n: nat)
    ensures
        decimal_digits(n).len() >= 1,
        n >= 10 ==> decimal_digits(n).len() >= 2,
    decreases n,
{
    if n >= 10 {
        lemma_div_decreases(n as int, 10);
        lemma_decimal_digits_len(n / 10);
    }
}

/// Distinct values have distinct decimal renderings.
proof fn lemma_decimal_digits_injective(m: nat, n: nat)
    requires
        decimal_digits(m) == decimal_digits(n),
    ensures
        m == n,
    decreases m,
{
    lemma_decimal_digits_len(m);
    lemma_decimal_digits_len(n);
    if m < 10 && n < 10 {
        assert(decimal_digits(m)[0] == digit_char(m));
        assert(decimal_digits(n)[0] == digit_char(n));
    } else if m >= 10 && n >= 10 {
        lemma_div_decreases(m as int, 10);
        assert(decimal_digits(m).last() == digit_char(m % 10));
        assert(decimal_digits(n).last() == digit_char(n % 10));
        assert(m % 10 == n % 10);
        assert(decimal_digits(m / 10) =~= decimal_digits(m).drop_last());
        assert(decimal_digits(n / 10) =~= decimal_digits(n).drop_last());
        lemma_decimal_digits_injective(m / 10, n / 10);
    } else if m < 10 {
        assert(decimal_digits(m).len() == 1);
        assert(false);
    } else {
        assert(decimal_digits(n).len() == 1);
        assert(false);
    }
}

/// Placeholder binding names are distinct for distinct field positions:
/// within one conversion arm no two positional bindings collide.
pub proof fn lemma_placeholder_injective(i: nat, j: nat)
    requires
        placeholder_name(i) == placeholder_name(j),
    ensures
        i == j,
{
    let a = decimal_digits(i);
    let b = decimal_digits(j);
    assert(a =~= b) by {
        assert(placeholder_name(i).len() == 1 + a.len());
        assert forall|k: int| 0 <= k < a.len() implies a[k] == b[k] by {
            assert(placeholder_name(i)[k + 1] == a[k]);
            assert(placeholder_name(j)[k + 1] == b[k]);
        }
    }
    lemma_decimal_digits_injective(i, j);
}

/// Returns the one-character string of the decimal digit `d`.
fn digit_str(d: usize) -> (r: &'static str)
    requires
        d < 10,
    ensures
        r@ == seq![digit_char(d as nat)],
{
    if d == 0 {
        proof { reveal_strlit("0"); }
        assert("0"@ =~= seq![digit_char(0)]);
        "0"
    } else if d == 1 {
        proof { reveal_strlit("1"); }
        assert("1"@ =~= seq![digit_char(1)]);
        "1"
    } else if d == 2 {
        proof { reveal_strlit("2"); }
        assert("2"@ =~= seq![digit_char(2)]);
        "2"
    } else if d == 3 {
        proof { reveal_strlit("3"); }
        assert("3"@ =~= seq![digit_char(3)]);
        "3"
    } else if d == 4 {
        proof { reveal_strlit("4"); }
        assert("4"@ =~= seq![digit_char(4)]);
        "4"
    } else if d == 5 {
        proof { reveal_strlit("5"); }
        assert("5"@ =~= seq![digit_char(5)]);
        "5"
    } else if d == 6 {
        proof { reveal_strlit("6"); }
        assert("6"@ =~= seq![digit_char(6)]);
        "6"
    } else if d == 7 {
        proof { reveal_strlit("7"); }
        assert("7"@ =~= seq![digit_char(7)]);
        "7"
    } else if d == 8 {
        proof { reveal_strlit("8"); }
        assert("8"@ =~= seq![digit_char(8)]);
        "8"
    } else {
        proof { reveal_strlit("9"); }
        assert("9"@ =~= seq![digit_char(9)]);
        "9"
    }
}

/// Renders `n` in decimal.
fn decimal_string(n: usize) -> (r: String)
    ensures
        r@ == decimal_digits(n as nat),
    decreases n,
{
    if n < 10 {
        String::from_str(digit_str(n))
    } else {
        proof { lemma_div_decreases(n as int, 10); }
        let mut s = decimal_string(n / 10);
        s.append(digit_str(n % 10));
        proof {
            assert(decimal_digits(n as nat) =~= decimal_digits(n as nat / 10).push(
                digit_char(n as nat % 10),
            ));
            assert(decimal_digits(n as nat / 10).push(digit_char(n as nat % 10)) =~= decimal_digits(
                n as nat / 10,
            ) + seq![digit_char(n as nat % 10)]);
        }
        s
    }
}

/// Returns the placeholder binding name for the positional field at index
/// `i`.
pub fn placeholder_ident(i: usize) -> (r: String)
    ensures
        r@ == placeholder_name(i as nat),
{
    let mut s = String::from_str("_");
    s.append(decimal_string(i).as_str());
    proof {
        reveal_strlit("_");
        assert(s@ =~= seq!['_'] + decimal_digits(i as nat));
    }
    s
}

} // verus!
