//! A builder for the queries that load entities from a database.
use vstd::prelude::*;

use crate::comparison::Comparison;
use crate::condition::{Condition, ConditionView};
use crate::entity::opt_view;

verus! {

/// A builder for creating complex queries to load entities from the database.
///
/// A `Filter` consists of one or more conditions that are combined with a logical AND.
/// It is used with `Catalog::load_by_filter` to retrieve entities that match
/// all specified criteria.
#[derive(Debug, PartialEq, Clone)]
pub struct Filter<'a> {
    class: Option<String>,
    subclass: Option<String>,
    conditions: Vec<(String, Comparison, Condition<'a>)>,
}

/// The mathematical content of a [`Filter`]: the class and subclass it asks
/// for, and its conditions in the order in which they were added.
pub struct FilterView {
    pub class: Option<Seq<char>>,
    pub subclass: Option<Seq<char>>,
    pub conditions: Seq<(Seq<char>, Comparison, ConditionView)>,
}

impl FilterView {
    /// This filter with one more condition, at the end.
    pub open spec fn add(self, name: Seq<char>, comparison: Comparison, value: ConditionView) -> FilterView {
        FilterView { conditions: self.conditions.push((name, comparison, value)), ..self }
    }
}

/// One call of a builder of [`Filter`], by what it adds.
pub enum FilterStep {
    /// `with_class` with this class.
    Class(Seq<char>),
    /// `with_subclass` with this subclass.
    Subclass(Seq<char>),
    /// `with_bool`, `with_signed_int`, `with_unsigned_int`, `with_text` or
    /// `with_real`, adding this condition.
    Condition(Seq<char>, Comparison, ConditionView),
}

impl FilterView {
    /// The empty filter, as [`Filter::new`] makes it.
    pub open spec fn empty() -> FilterView {
        FilterView { class: None, subclass: None, conditions: Seq::empty() }
    }

    /// This filter after one builder call.
    pub open spec fn step(self, s: FilterStep) -> FilterView {
        match s {
            FilterStep::Class(c) => FilterView { class: Some(c), ..self },
            FilterStep::Subclass(c) => FilterView { subclass: Some(c), ..self },
            FilterStep::Condition(name, comparison, value) => self.add(name, comparison, value),
        }
    }
}

/// The filter that a sequence of builder calls makes from the empty filter.
pub open spec fn built(steps: Seq<FilterStep>) -> FilterView
    decreases steps.len(),
{
    if steps.len() == 0 {
        FilterView::empty()
    } else {
        built(steps.drop_last()).step(steps.last())
    }
}

/// The conditions that a sequence of builder calls adds, in call order.
pub open spec fn added_conditions(steps: Seq<FilterStep>) -> Seq<(Seq<char>, Comparison, ConditionView)>
    decreases steps.len(),
{
    if steps.len() == 0 {
        Seq::empty()
    } else {
        match steps.last() {
            FilterStep::Condition(name, comparison, value) => added_conditions(steps.drop_last()).push(
                (name, comparison, value),
            ),
            _ => added_conditions(steps.drop_last()),
        }
    }
}

/// The class of the last `with_class` call of a sequence, if there is one.
pub open spec fn last_class(steps: Seq<FilterStep>) -> Option<Seq<char>>
    decreases steps.len(),
{
    if steps.len() == 0 {
        None
    } else {
        match steps.last() {
            FilterStep::Class(c) => Some(c),
            _ => last_class(steps.drop_last()),
        }
    }
}

/// The subclass of the last `with_subclass` call of a sequence, if there is
/// one.
pub open spec fn last_subclass(steps: Seq<FilterStep>) -> Option<Seq<char>>
    decreases steps.len(),
{
    if steps.len() == 0 {
        None
    } else {
        match steps.last() {
            FilterStep::Subclass(c) => Some(c),
            _ => last_subclass(steps.drop_last()),
        }
    }
}

/// The content of one condition: attribute name, comparison and value.
pub open spec fn condition_entry(c: (String, Comparison, Condition)) -> (Seq<char>, Comparison, ConditionView) {
    (c.0@, c.1, c.2@)
}

/// The contents of a sequence of conditions.
pub open spec fn condition_entries(s: Seq<(String, Comparison, Condition)>) -> Seq<(Seq<char>, Comparison, ConditionView)> {
    s.map_values(|c: (String, Comparison, Condition)| condition_entry(c))
}

impl<'a> View for Filter<'a> {
    type V = FilterView;

    closed spec fn view(&self) -> FilterView {
        FilterView {
            class: opt_view(self.class),
            subclass: opt_view(self.subclass),
            conditions: condition_entries(self.conditions@),
        }
    }
}

impl<'a> Default for Filter<'a> {
    /// An empty filter, as [`Filter::new`] makes it.
    fn default() -> (f: Self)
        ensures
            f@ == (FilterView { class: None, subclass: None, conditions: Seq::empty() }),
    {
        Filter::new()
    }
}

impl<'a> Filter<'a> {
    /// Creates a new, empty `Filter`: no class, no subclass, no condition.
    pub fn new() -> (f: Self)
        ensures
            f@ == FilterView::empty(),
    {
        let f = Filter { class: None, subclass: None, conditions: Vec::new() };
        assert(f@.conditions =~= Seq::empty());
        f
    }

    /// Appends a condition.
    fn add(&mut self, name: &str, comparison: Comparison, value: Condition<'a>)
        ensures
            final(self)@ == old(self)@.add(name@, comparison, value@),
    {
        let ghost before = self.conditions@;
        self.conditions.push((name.to_owned(), comparison, value));
        proof {
            assert(condition_entries(self.conditions@) =~= condition_entries(before).push(
                (name@, comparison, value@),
            ));
        }
    }

    /// Adds a class condition to the filter.
    pub fn with_class(self, value: &str) -> (f: Self)
        ensures
            f@ == (FilterView { class: Some(value@), ..self@ }),
    {
        let mut f = self;
        f.class = Some(value.to_owned());
        f
    }

    /// Adds a subclass condition to the filter.
    pub fn with_subclass(self, value: &str) -> (f: Self)
        ensures
            f@ == (FilterView { subclass: Some(value@), ..self@ }),
    {
        let mut f = self;
        f.subclass = Some(value.to_owned());
        f
    }

    /// Adds a boolean condition to the filter.
    ///
    /// This is a shorthand for an `Equal` comparison with `value`.
    pub fn with_bool(self, attribute_name: &str, value: bool) -> (f: Self)
        ensures
            f@ == self@.add(attribute_name@, Comparison::Equal, ConditionView::Bool(value)),
    {
        let mut f = self;
        f.add(attribute_name, Comparison::Equal, Condition::Bool(value));
        f
    }

    /// Adds a signed integer (`i64`) condition to the filter.
    pub fn with_signed_int(self, attribute_name: &str, comparison: Comparison, value: i64) -> (f: Self)
        ensures
            f@ == self@.add(attribute_name@, comparison, ConditionView::SignedInt(value)),
    {
        let mut f = self;
        f.add(attribute_name, comparison, Condition::SignedInt(value));
        f
    }

    /// Adds an unsigned integer condition to the filter; the value is given
    /// as an `i64`, as SQLite stores it.
    pub fn with_unsigned_int(self, attribute_name: &str, comparison: Comparison, value: i64) -> (f: Self)
        ensures
            f@ == self@.add(attribute_name@, comparison, ConditionView::UnsignedInt(value)),
    {
        let mut f = self;
        f.add(attribute_name, comparison, Condition::UnsignedInt(value));
        f
    }

    /// Adds a text (`&str`) condition to the filter.
    pub fn with_text(self, attribute_name: &str, comparison: Comparison, value: &'a str) -> (f: Self)
        ensures
            f@ == self@.add(attribute_name@, comparison, ConditionView::Text(value@)),
    {
        let mut f = self;
        f.add(attribute_name, comparison, Condition::Text(value));
        f
    }

    /// Adds a real number condition to the filter; the value is the IEEE-754
    /// bit pattern of an `f64` (`f64::to_bits`).
    pub fn with_real(self, attribute_name: &str, comparison: Comparison, value_bits: u64) -> (f: Self)
        ensures
            f@ == self@.add(attribute_name@, comparison, ConditionView::Real(value_bits)),
    {
        let mut f = self;
        f.add(attribute_name, comparison, Condition::Real(value_bits));
        f
    }

    /// Returns the conditions of the filter, in the order in which they were
    /// added.
    pub fn conditions(&self) -> (r: &[(String, Comparison, Condition<'a>)])
        ensures
            condition_entries(r@) == self@.conditions,
    {
        self.conditions.as_slice()
    }

    /// Returns the class that the filter asks for, if any.
    pub fn class(&self) -> (r: &Option<String>)
        ensures
            opt_view(*r) == self@.class,
    {
        &self.class
    }

    /// Returns the subclass that the filter asks for, if any.
    pub fn subclass(&self) -> (r: &Option<String>)
        ensures
            opt_view(*r) == self@.subclass,
    {
        &self.subclass
    }
}

} // verus!
