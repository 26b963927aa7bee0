//! The plan of the code that is generated for a type of metrics: which statements its
//! implementation of an inflectable entry consists of, and in what order.
//!
//! `T` is code that was made beforehand and is put in unread, such as a name or an expression.
//! `S` is the place in the source to which diagnostics point.
use vstd::prelude::*;

pub mod enum_impl;
pub mod struct_impl;

verus! {

/// What to do with a field.
pub enum MetricsFieldKind<T, S> {
    /// Write its fields among the others.
    Flatten {
        /// Where the field is declared.
        span: S,
        /// The style in which its fields are named, without the prefix of the field.
        ns: T,
        /// The style with the prefix of the field, if it has one.
        prefix: Option<PrefixedStyle<T>>,
    },
    /// Write it as an entry.
    FlattenEntry(S),
    /// Leave it out.
    Ignore(S),
    /// Write it as the timestamp.
    Timestamp(S),
    /// Write it as a value.
    Field(S),
}

/// A style whose prefix was extended.
pub struct PrefixedStyle<T> {
    /// Declarations that the style needs.
    pub extra: T,
    /// The style.
    pub ns: T,
}

/// A field of a tuple variant.
pub struct TupleData<T, S> {
    pub kind: MetricsFieldKind<T, S>,
}

/// A field with a name.
pub struct MetricsField<T> {
    /// Its name.
    pub ident: T,
    /// What it contributes to the sample group, if anything.
    pub sample_group: Option<FieldSampleGroup<T>>,
}

/// What a field with a name contributes to the sample group.
pub struct FieldSampleGroup<T> {
    /// The name by which the expression refers to the field.
    pub field: T,
    /// An expression that iterates over the elements.
    pub iter: T,
}

/// The fields of a struct, or of a variant with named fields.
pub struct MetricsFields<T> {
    pub fields: Vec<MetricsField<T>>,
    /// The statements that write the fields.
    pub writes: Vec<T>,
}

/// What a list of references refers to.
pub open spec fn referents<T>(references: Seq<&T>) -> Seq<T> {
    references.map_values(|r: &T| *r)
}

/// What the first `n` fields contribute to the sample group.
pub open spec fn field_sample_groups<T>(fields: Seq<MetricsField<T>>, n: nat) -> Seq<T>
    decreases n,
{
    if n == 0 {
        Seq::empty()
    } else {
        let before = field_sample_groups(fields, (n - 1) as nat);
        match fields[n - 1].sample_group {
            Some(group) => before.push(group.iter),
            None => before,
        }
    }
}

/// Expressions that iterate, chained in the shape of a tree so that the types stay shallow.
pub enum Chain<X> {
    /// Iterates over nothing.
    Empty,
    /// Iterates as the expression does.
    One(X),
    /// Iterates as the first does, then as the second.
    Both(Box<Chain<X>>, Box<Chain<X>>),
}

impl<X> Chain<X> {
    /// The expressions, in the order in which they are iterated over.
    pub open spec fn leaves(self) -> Seq<X>
        decreases self,
    {
        match self {
            Chain::Empty => Seq::empty(),
            Chain::One(x) => seq![x],
            Chain::Both(a, b) => a.leaves() + b.leaves(),
        }
    }

    /// Whether the two sides of each node hold the same number of expressions, give or take one,
    /// and nothing is chained with an empty iterator.
    pub open spec fn balanced(self) -> bool
        decreases self,
    {
        match self {
            Chain::Both(a, b) => {
                &&& a.balanced()
                &&& b.balanced()
                &&& 0 < a.leaves().len() <= b.leaves().len() <= a.leaves().len() + 1
            },
            _ => true,
        }
    }
}

/// Chains expressions in their order.
pub fn make_binary_tree_chain<X>(items: Vec<X>) -> (r: Chain<X>)
    ensures
        r.leaves() == items@,
        r.balanced(),
    decreases items.len(),
{
    let mut items = items;
    let ghost all = items@;
    let n: usize = items.len();
    if n == 0 {
        assert(all =~= Seq::empty());
        return Chain::Empty;
    }
    if n == 1 {
        let item = items.remove(0);
        assert(all =~= seq![item]);
        return Chain::One(item);
    }
    let rest = items.split_off(n / 2);
    assert(items@ + rest@ =~= all);
    Chain::Both(
        Box::new(make_binary_tree_chain(items)),
        Box::new(make_binary_tree_chain(rest)),
    )
}

/// The digits of a number.
pub open spec fn decimal(n: nat) -> Seq<char>
    decreases n,
{
    if n < 10 {
        seq![digit(n)]
    } else {
        decimal(n / 10).push(digit(n % 10))
    }
}

/// One digit.
pub open spec fn digit(n: nat) -> char {
    ((n % 10) + 48) as u8 as char
}

/// Writes a number behind `text`.
fn push_decimal(text: &mut String, n: usize)
    ensures
        final(text)@ == old(text)@ + decimal(n as nat),
    decreases n,
{
    if n >= 10 {
        push_decimal(text, n / 10);
    }
    let last: u8 = (n % 10) as u8;
    text.push((last + 48) as char);
    assert(text@ =~= old(text)@ + decimal(n as nat));
}

/// The name of something that is numbered: `initial`, followed by the number.
pub open spec fn numbered(initial: char, n: nat) -> Seq<char> {
    seq![initial] + decimal(n)
}

/// The name that is bound to the field at `index` of a tuple variant.
pub fn binding_name(index: usize) -> (r: String)
    ensures
        r@ == numbered('v', index as nat),
{
    let mut r = String::new();
    r.push('v');
    push_decimal(&mut r, index);
    assert(r@ =~= numbered('v', index as nat));
    r
}

/// The name of the variant at `index` of an enum of iterators.
pub fn iter_variant_name(index: usize) -> (r: String)
    ensures
        r@ == numbered('V', index as nat),
{
    let mut r = String::new();
    r.push('V');
    push_decimal(&mut r, index);
    assert(r@ =~= numbered('V', index as nat));
    r
}

/// Different numbers give different names.
pub proof fn numbered_names_differ(initial: char, a: nat, b: nat)
    requires
        a != b,
    ensures
        numbered(initial, a) != numbered(initial, b),
{
    decimals_differ(a, b);
    assert(numbered(initial, a).skip(1) =~= decimal(a));
    assert(numbered(initial, b).skip(1) =~= decimal(b));
}

/// Different numbers have different digits.
proof fn decimals_differ(a: nat, b: nat)
    requires
        a != b,
    ensures
        decimal(a) != decimal(b),
    decreases a,
{
    if decimal(a) == decimal(b) {
        assert(decimal(a).last() == digit(a % 10));
        assert(decimal(b).last() == digit(b % 10));
        assert(a % 10 == b % 10);
        if a >= 10 && b >= 10 {
            decimals_differ(a / 10, b / 10);
            assert(decimal(a).drop_last() =~= decimal(a / 10));
            assert(decimal(b).drop_last() =~= decimal(b / 10));
        } else if a >= 10 {
            has_digits(a / 10);
        } else if b >= 10 {
            has_digits(b / 10);
        }
    }
}

/// Every number has at least one digit.
proof fn has_digits(n: nat)
    ensures
        decimal(n).len() > 0,
    decreases n,
{
    if n >= 10 {
        has_digits(n / 10);
    }
}

} // verus!
