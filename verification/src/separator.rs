//! The attributes of a separator element.
use vstd::prelude::*;

verus! {

/// The axis along which a separator runs.
#[derive(Clone, Copy, Debug, PartialEq, Eq)]
pub enum Orientation {
    Horizontal,
    Vertical,
}

/// The value of one attribute of a separator.
#[derive(Debug, PartialEq, Eq)]
pub enum SeparatorValue<A> {
    /// A fixed text.
    Text(&'static str),
    /// The name of the separator's orientation at the time the attribute is
    /// read: see [`orientation_name`].
    Orientation,
    /// A value that the caller gave.
    Given(A),
}

/// A separator without a stated orientation is horizontal.
pub open spec fn orientation_or_default(orientation: Option<Orientation>) -> Orientation {
    match orientation {
        Some(orientation) => orientation,
        None => Orientation::Horizontal,
    }
}

/// A separator that does not say whether it is decorative is not.
pub open spec fn decorative_or_default(decorative: Option<bool>) -> bool {
    match decorative {
        Some(decorative) => decorative,
        None => false,
    }
}

pub open spec fn orientation_text(orientation: Orientation) -> &'static str {
    match orientation {
        Orientation::Horizontal => "horizontal",
        Orientation::Vertical => "vertical",
    }
}

/// The attributes that come before the caller's: a decorative separator has
/// no role, any other is a separator and says how it runs.
pub open spec fn leading_attributes<A>(decorative: bool) -> Seq<(&'static str, SeparatorValue<A>)> {
    if decorative {
        seq![("role", SeparatorValue::Text("none"))]
    } else {
        seq![
            ("aria-orientation", SeparatorValue::Orientation),
            ("role", SeparatorValue::Text("separator")),
        ]
    }
}

/// The caller's attribute `given` among the separator's.
pub open spec fn given_attribute<A>(given: (&'static str, A)) -> (&'static str, SeparatorValue<A>) {
    (given.0, SeparatorValue::Given(given.1))
}

/// All attributes of a separator, in the order in which they are set: the
/// leading ones, the caller's, and last the orientation as data.
pub open spec fn merged_attributes<A>(decorative: Option<bool>, attrs: Seq<(&'static str, A)>) -> Seq<
    (&'static str, SeparatorValue<A>),
> {
    leading_attributes(decorative_or_default(decorative)) + attrs.map_values(
        |given: (&'static str, A)| given_attribute(given),
    ) + seq![("data-orientation", SeparatorValue::Orientation)]
}

/// The name under which an orientation appears in an attribute.
pub fn orientation_name(orientation: Option<Orientation>) -> (name: &'static str)
    ensures
        name == orientation_text(orientation_or_default(orientation)),
{
    match orientation {
        Some(Orientation::Vertical) => "vertical",
        _ => "horizontal",
    }
}

/// The attributes of a separator with the caller's attributes `attrs`.
pub fn separator_attributes<A>(decorative: Option<bool>, attrs: Vec<(&'static str, A)>) -> (merged:
    Vec<(&'static str, SeparatorValue<A>)>)
    ensures
        merged@ == merged_attributes(decorative, attrs@),
{
    let mut merged: Vec<(&'static str, SeparatorValue<A>)> = Vec::new();
    match decorative {
        Some(true) => {
            merged.push(("role", SeparatorValue::Text("none")));
        },
        _ => {
            merged.push(("aria-orientation", SeparatorValue::Orientation));
            merged.push(("role", SeparatorValue::Text("separator")));
        },
    }
    assert(merged@ =~= leading_attributes::<A>(decorative_or_default(decorative)));
    let ghost leading = merged@;
    let ghost given = attrs@;
    for attr in iter: attrs
        invariant
            iter.seq() == given,
            merged@ == leading + given.take(iter.index() as int).map_values(
                |given: (&'static str, A)| given_attribute(given),
            ),
    {
        let (name, value) = attr;
        merged.push((name, SeparatorValue::Given(value)));
        assert(given.take(iter.index() + 1) =~= given.take(iter.index() as int).push(attr));
    }
    assert(given.take(given.len() as int) =~= given);
    merged.push(("data-orientation", SeparatorValue::Orientation));
    merged
}

} // verus!
