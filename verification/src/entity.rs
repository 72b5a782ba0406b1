//! A generic entity: an id, a class, an optional subclass and a set of
//! attributes, each an id with a value.
use vstd::prelude::*;
use vstd::std_specs::cmp::PartialEqSpecImpl;

use crate::attribute::Attribute;
use crate::eav::EAV;
use crate::entity_state::EntityState;
use crate::failed_to::FailedTo;
use crate::value::{value_eq, values_equal, Value, ValueView};

verus! {

/// Represents a generic entity with an ID, class, and a set of attributes.
///
/// The attributes form a map from attribute id to value: they are held in a
/// vector, and of two attributes with the same id the first one counts (the
/// methods of this type never store two).
#[derive(Debug, Clone)]
pub struct Entity {
    /// The unique identifier for this entity.
    pub id: String,
    /// The current state of the entity within the `Catalog`'s in-memory cache.
    /// This tracks whether the entity is new, modified, or marked for deletion.
    pub state: EntityState,
    /// An optional timestamp or version number, typically used for optimistic
    /// locking or tracking when the entity was last referenced or modified.
    pub ref_date: Option<u64>,
    /// A string identifying the "type" or "class" of the entity (e.g., "product", "user").
    /// This is used to group and query entities of the same kind.
    pub class: String,
    /// A string identifying the "subtype" or "subclass" of the entity (e.g.,
    /// "computer", "phone", "customer").
    pub subclass: Option<String>,
    /// The attributes, holding the actual data of the entity.
    pub attributes: Vec<Attribute>,
}

/// The mathematical content of an [`Entity`].
pub struct EntityView {
    pub id: Seq<char>,
    pub state: EntityState,
    pub ref_date: Option<u64>,
    pub class: Seq<char>,
    pub subclass: Option<Seq<char>>,
    /// The attributes as a map from attribute id to value.
    pub attributes: Map<Seq<char>, ValueView>,
}

impl EntityView {
    /// This entity with the attribute `id` set to `v`.
    pub open spec fn set_attribute(self, id: Seq<char>, v: ValueView) -> EntityView {
        EntityView { attributes: self.attributes.insert(id, v), ..self }
    }
}

/// The content of an optional string.
pub open spec fn opt_view(o: Option<String>) -> Option<Seq<char>> {
    match o {
        Some(s) => Some(s@),
        None => None,
    }
}

/// `i` is the position of the first attribute of `attrs` whose id is `id`.
pub open spec fn first_match(attrs: Seq<Attribute>, id: Seq<char>, i: int) -> bool {
    &&& 0 <= i < attrs.len()
    &&& attrs[i].id@ == id
    &&& forall|j: int| 0 <= j < i ==> attrs[j].id@ != id
}

/// No two attributes of `attrs` have the same id.
pub open spec fn one_per_id(attrs: Seq<Attribute>) -> bool {
    forall|i: int, j: int|
        0 <= i < attrs.len() && 0 <= j < attrs.len() && i != j ==> #[trigger] attrs[i].id@
            != #[trigger] attrs[j].id@
}

/// The value of the first attribute of `attrs` whose id is `id`, if any.
pub open spec fn attribute_of(attrs: Seq<Attribute>, id: Seq<char>) -> Option<Value> {
    if exists|i: int| first_match(attrs, id, i) {
        Some(attrs[choose|i: int| first_match(attrs, id, i)].value)
    } else {
        None
    }
}

/// The attributes of `attrs` as a map from id to value.
pub open spec fn attribute_map(attrs: Seq<Attribute>) -> Map<Seq<char>, ValueView> {
    Map::new(
        |k: Seq<char>| attribute_of(attrs, k) is Some,
        |k: Seq<char>| attribute_of(attrs, k).unwrap()@,
    )
}

impl View for Entity {
    type V = EntityView;

    open spec fn view(&self) -> EntityView {
        EntityView {
            id: self.id@,
            state: self.state,
            ref_date: self.ref_date,
            class: self.class@,
            subclass: opt_view(self.subclass),
            attributes: attribute_map(self.attributes@),
        }
    }
}

/// What an attribute's conversion result becomes in [`Entity::unwrap`]: a
/// failed conversion is reported as `FailedTo::ConvertValue`.
pub open spec fn converted<T, E>(res: Result<T, E>) -> Result<T, FailedTo> {
    match res {
        Ok(t) => Ok(t),
        Err(_) => Err(FailedTo::ConvertValue),
    }
}

/// A first match is the only one.
proof fn lemma_first_match_unique(attrs: Seq<Attribute>, id: Seq<char>, i: int, j: int)
    requires
        first_match(attrs, id, i),
        first_match(attrs, id, j),
    ensures
        i == j,
{
    if i < j {
        assert(attrs[i].id@ != id);
    } else if j < i {
        assert(attrs[j].id@ != id);
    }
}

/// The attribute at a first match is the one that `attribute_of` gives.
proof fn lemma_attribute_of_at(attrs: Seq<Attribute>, id: Seq<char>, i: int)
    requires
        first_match(attrs, id, i),
    ensures
        attribute_of(attrs, id) == Some(attrs[i].value),
{
    let c = choose|m: int| first_match(attrs, id, m);
    lemma_first_match_unique(attrs, id, i, c);
}

/// Replacing the first attribute with a given id by another attribute with
/// that id sets that id's value and leaves the others.
proof fn lemma_replace_first(attrs: Seq<Attribute>, i: int, a: Attribute)
    requires
        first_match(attrs, a.id@, i),
    ensures
        attribute_map(attrs.update(i, a)) =~= attribute_map(attrs).insert(a.id@, a.value@),
        attribute_of(attrs.update(i, a), a.id@) == Some(a.value),
{
    let after = attrs.update(i, a);
    assert(first_match(after, a.id@, i));
    lemma_attribute_of_at(after, a.id@, i);
    assert forall|k: Seq<char>| k != a.id@ implies attribute_of(after, k) == attribute_of(attrs, k) by {
        assert forall|m: int| first_match(after, k, m) <==> first_match(attrs, k, m) by {
            if first_match(after, k, m) {
                assert forall|j: int| 0 <= j < m implies attrs[j].id@ != k by {
                    if j != i {
                        assert(after[j] == attrs[j]);
                    }
                }
            }
            if first_match(attrs, k, m) {
                assert forall|j: int| 0 <= j < m implies after[j].id@ != k by {
                    if j != i {
                        assert(after[j] == attrs[j]);
                    }
                }
            }
        }
        if exists|m: int| first_match(attrs, k, m) {
            let m = choose|m: int| first_match(attrs, k, m);
            lemma_attribute_of_at(attrs, k, m);
            lemma_attribute_of_at(after, k, m);
        }
    }
}

/// Appending an attribute whose id no attribute has adds that id's value.
proof fn lemma_append_new(attrs: Seq<Attribute>, a: Attribute)
    requires
        forall|j: int| 0 <= j < attrs.len() ==> attrs[j].id@ != a.id@,
    ensures
        attribute_map(attrs.push(a)) =~= attribute_map(attrs).insert(a.id@, a.value@),
        attribute_of(attrs.push(a), a.id@) == Some(a.value),
{
    let after = attrs.push(a);
    let n = attrs.len() as int;
    assert(first_match(after, a.id@, n));
    lemma_attribute_of_at(after, a.id@, n);
    assert forall|k: Seq<char>| k != a.id@ implies attribute_of(after, k) == attribute_of(attrs, k) by {
        assert forall|m: int| first_match(after, k, m) <==> first_match(attrs, k, m) by {
            if first_match(after, k, m) {
                assert(m != n);
                assert forall|j: int| 0 <= j < m implies attrs[j].id@ != k by {
                    assert(after[j] == attrs[j]);
                }
            }
            if first_match(attrs, k, m) {
                assert forall|j: int| 0 <= j < m implies after[j].id@ != k by {
                    assert(after[j] == attrs[j]);
                }
            }
        }
        if exists|m: int| first_match(attrs, k, m) {
            let m = choose|m: int| first_match(attrs, k, m);
            lemma_attribute_of_at(attrs, k, m);
            lemma_attribute_of_at(after, k, m);
        }
    }
}

/// The position of the first attribute whose id is `id`, if there is one.
fn find_attribute(attrs: &Vec<Attribute>, id: &String) -> (r: Option<usize>)
    ensures
        match r {
            Some(i) => first_match(attrs@, id@, i as int),
            None => forall|j: int| 0 <= j < attrs@.len() ==> attrs@[j].id@ != id@,
        },
{
    let mut i: usize = 0;
    while i < attrs.len()
        invariant
            i <= attrs@.len(),
            forall|j: int| 0 <= j < i ==> attrs@[j].id@ != id@,
        decreases attrs@.len() - i,
    {
        if attrs[i].id == *id {
            return Some(i);
        }
        i = i + 1;
    }
    None
}

impl Entity {
    /// Creates a new, empty `Entity` of the class of type `T`: an empty id,
    /// the state `New`, no reference date, no subclass and no attributes.
    /// Its class is the text that `T::class()` returns (see
    /// [`Entity::of_class`], which this calls with it).
    pub fn new<T: EAV>() -> (e: Self)
        ensures
            e@.id == Seq::<char>::empty(),
            e@.state == EntityState::New,
            e@.ref_date is None,
            e@.subclass is None,
            e@.attributes == Map::<Seq<char>, ValueView>::empty(),
            exists|class: &str| #[trigger] call_ensures(T::class, (), class) && e@.class == class@,
            e.attributes@.len() == 0,
    {
        Self::of_class(T::class())
    }

    /// Creates a new, empty `Entity` of the given class: an empty id, the
    /// state `New`, no reference date, no subclass and no attributes.
    pub fn of_class(class: &str) -> (e: Self)
        ensures
            e@ == (EntityView {
                id: Seq::empty(),
                state: EntityState::New,
                ref_date: None,
                class: class@,
                subclass: None,
                attributes: Map::empty(),
            }),
            e.attributes@.len() == 0,
    {
        let e = Entity {
            id: String::new(),
            state: EntityState::New,
            ref_date: None,
            class: class.to_owned(),
            subclass: None,
            attributes: Vec::new(),
        };
        assert(e@.attributes =~= Map::<Seq<char>, ValueView>::empty());
        e
    }

    /// Sets the ID of the entity, and returns the entity.
    pub fn with_id(self, id: &str) -> (r: Self)
        ensures
            r@ == (EntityView { id: id@, ..self@ }),
    {
        let mut e = self;
        e.id = id.to_owned();
        e
    }

    /// Sets the subclass of the entity, and returns the entity.
    pub fn with_subclass(self, subclass: &str) -> (r: Self)
        ensures
            r@ == (EntityView { subclass: Some(subclass@), ..self@ }),
    {
        let mut e = self;
        e.subclass = Some(subclass.to_owned());
        e
    }

    /// Sets the reference date of the entity, and returns the entity.
    pub fn with_ref_date(self, ref_date: u64) -> (r: Self)
        ensures
            r@ == (EntityView { ref_date: Some(ref_date), ..self@ }),
    {
        let mut e = self;
        e.ref_date = Some(ref_date);
        e
    }

    /// Adds or replaces the attribute `id`, holding what `into` makes of
    /// `value`, and returns the entity. Every other attribute is kept.
    pub fn with_attribute<V: Into<Value>>(self, id: &str, value: V) -> (r: Self)
        ensures
            exists|v: Value|
                #[trigger] call_ensures(V::into, (value,), v) && r@ == self@.set_attribute(id@, v@)
                    && attribute_of(r.attributes@, id@) == Some(v),
            r.attributes@.len() == self.attributes@.len() + if self@.attributes.contains_key(id@) {
                0int
            } else {
                1int
            },
            one_per_id(self.attributes@) ==> one_per_id(r.attributes@),
    {
        let attribute = Attribute::new(id, value);
        let mut e = self;
        e.set(attribute);
        e
    }

    /// Adds or replaces the attribute `id` if `value` is `Some`, and returns
    /// the entity; with `None` the entity is returned unchanged.
    pub fn with_opt_attribute<V: Into<Value>>(self, id: &str, value: Option<V>) -> (r: Self)
        ensures
            value is None ==> r == self,
            value matches Some(x) ==> exists|v: Value|
                #[trigger] call_ensures(V::into, (x,), v) && r@ == self@.set_attribute(id@, v@)
                    && attribute_of(r.attributes@, id@) == Some(v),
            value is Some ==> r.attributes@.len() == self.attributes@.len() + if self@.attributes.contains_key(
                id@,
            ) {
                0int
            } else {
                1int
            },
            value is Some ==> (one_per_id(self.attributes@) ==> one_per_id(r.attributes@)),
            value matches Some(x) ==> call_ensures(Entity::with_attribute::<V>, (self, id, x), r),
    {
        match value {
            Some(value) => self.with_attribute(id, value),
            None => self,
        }
    }

    /// Stores `attribute` in place of the attribute with its id, or adds it.
    fn set(&mut self, attribute: Attribute)
        ensures
            final(self)@ == old(self)@.set_attribute(attribute.id@, attribute.value@),
            attribute_of(final(self).attributes@, attribute.id@) == Some(attribute.value),
            final(self).attributes@.len() == old(self).attributes@.len() + if old(
                self,
            )@.attributes.contains_key(attribute.id@) {
                0int
            } else {
                1int
            },
            one_per_id(old(self).attributes@) ==> one_per_id(final(self).attributes@),
    {
        let ghost before = self.attributes@;
        match find_attribute(&self.attributes, &attribute.id) {
            Some(i) => {
                proof {
                    lemma_replace_first(before, i as int, attribute);
                    lemma_attribute_of_at(before, attribute.id@, i as int);
                }
                self.attributes.set(i, attribute);
                proof {
                    assert forall|j: int| 0 <= j < before.len() implies #[trigger] self.attributes@[j].id@
                        == before[j].id@ by {
                        if j != i {
                            assert(self.attributes@[j] == before[j]);
                        }
                    }
                }
            },
            None => {
                proof {
                    lemma_append_new(before, attribute);
                    if exists|m: int| first_match(before, attribute.id@, m) {
                        let m = choose|m: int| first_match(before, attribute.id@, m);
                        assert(before[m].id@ == attribute.id@);
                    }
                }
                self.attributes.push(attribute);
                proof {
                    assert forall|j: int| 0 <= j < before.len() implies #[trigger] self.attributes@[j]
                        == before[j] by {}
                }
            },
        }
    }

    /// Returns a reference to the `Value` of an attribute: `Some` if the
    /// attribute exists, `None` if it does not.
    pub fn value_of(&self, id: &str) -> (r: Option<&Value>)
        ensures
            r is Some <==> self@.attributes.contains_key(id@),
            r matches Some(v) ==> self@.attributes[id@] == v@,
            r matches Some(v) ==> attribute_of(self.attributes@, id@) == Some(*v),
            r is None ==> attribute_of(self.attributes@, id@) is None,
    {
        let key = id.to_owned();
        match find_attribute(&self.attributes, &key) {
            Some(i) => {
                proof {
                    lemma_attribute_of_at(self.attributes@, id@, i as int);
                }
                Some(&self.attributes[i].value)
            },
            None => None,
        }
    }

    /// Converts the value of the attribute `id` into a `T`: `Ok` with what
    /// `T::try_from` returns, or `Err(FailedTo::ConvertValue)` if that
    /// conversion fails. The attribute must exist.
    pub fn unwrap<T: TryFrom<Value>>(&self, id: &str) -> (r: Result<T, FailedTo>)
        requires
            self@.attributes.contains_key(id@),
        ensures
            exists|res: Result<T, <T as TryFrom<Value>>::Error>|
                #[trigger] call_ensures(
                    T::try_from,
                    (attribute_of(self.attributes@, id@).unwrap(),),
                    res,
                ) && r == converted(res),
    {
        match self.value_of(id) {
            Some(value) => match T::try_from(value.clone()) {
                Ok(t) => Ok(t),
                Err(_) => Err(FailedTo::ConvertValue),
            },
            None => {
                assert(false);
                Err(FailedTo::ConvertValue)
            },
        }
    }

    /// Converts the value of the attribute `id`, if it exists, into a `T`:
    /// `Ok(None)` if the attribute does not exist, `Ok(Some(..))` with what
    /// `T::try_from` returns, or `Err(FailedTo::ConvertValue)` if that
    /// conversion fails.
    pub fn unwrap_opt<T: TryFrom<Value>>(&self, id: &str) -> (r: Result<Option<T>, FailedTo>)
        ensures
            !self@.attributes.contains_key(id@) ==> r == Ok::<Option<T>, FailedTo>(None),
            self@.attributes.contains_key(id@) ==> exists|res: Result<T, <T as TryFrom<Value>>::Error>|
                #[trigger] call_ensures(
                    T::try_from,
                    (attribute_of(self.attributes@, id@).unwrap(),),
                    res,
                ) && r == match res {
                    Ok(t) => Ok::<Option<T>, FailedTo>(Some(t)),
                    Err(_) => Err(FailedTo::ConvertValue),
                },
            self@.attributes.contains_key(id@) ==> exists|u: Result<T, FailedTo>|
                #[trigger] call_ensures(Entity::unwrap::<T>, (self, id), u) && r == match u {
                    Ok(t) => Ok::<Option<T>, FailedTo>(Some(t)),
                    Err(e) => Err(e),
                },
    {
        match self.value_of(id) {
            Some(_) => match self.unwrap(id) {
                Ok(t) => Ok(Some(t)),
                Err(e) => Err(e),
            },
            None => Ok(None),
        }
    }

    /// Converts the value of the attribute `id` into a `T`, falling back to
    /// `default`: `Ok(default)` if the attribute does not exist or its
    /// conversion fails, else `Ok` with what `T::try_from` returns.
    pub fn unwrap_or<T: TryFrom<Value>>(&self, id: &str, default: T) -> (r: Result<T, FailedTo>)
        ensures
            !self@.attributes.contains_key(id@) ==> r == Ok::<T, FailedTo>(default),
            self@.attributes.contains_key(id@) ==> exists|res: Result<T, <T as TryFrom<Value>>::Error>|
                #[trigger] call_ensures(
                    T::try_from,
                    (attribute_of(self.attributes@, id@).unwrap(),),
                    res,
                ) && r == match res {
                    Ok(t) => Ok::<T, FailedTo>(t),
                    Err(_) => Ok(default),
                },
    {
        match self.value_of(id) {
            Some(value) => match T::try_from(value.clone()) {
                Ok(t) => Ok(t),
                Err(_) => Ok(default),
            },
            None => Ok(default),
        }
    }

    /// Returns the ID of the entity.
    pub fn id(&self) -> (r: String)
        ensures
            r@ == self@.id,
    {
        self.id.clone()
    }

    /// Returns the subclass of the entity, if it has one.
    pub fn subclass(&self) -> (r: Option<String>)
        ensures
            opt_view(r) == self@.subclass,
    {
        match &self.subclass {
            Some(s) => Some(s.clone()),
            None => None,
        }
    }
}

/// Two entities are equal: the same id, state, reference date, class and
/// subclass, the same attribute ids, and equal values under each id (the
/// order in which the attributes were written does not count).
pub open spec fn entity_eq(a: EntityView, b: EntityView) -> bool {
    &&& a.id == b.id
    &&& a.state == b.state
    &&& a.ref_date == b.ref_date
    &&& a.class == b.class
    &&& a.subclass == b.subclass
    &&& a.attributes.dom() == b.attributes.dom()
    &&& forall|k: Seq<char>|
        #[trigger] a.attributes.contains_key(k) ==> value_eq(a.attributes[k], b.attributes[k])
}

/// Every attribute of `a` is an attribute of `b` with an equal value.
pub open spec fn attributes_within(a: EntityView, b: EntityView) -> bool {
    forall|k: Seq<char>|
        #[trigger] a.attributes.contains_key(k) ==> b.attributes.contains_key(k) && value_eq(
            a.attributes[k],
            b.attributes[k],
        )
}

/// An id that some attribute has is an id of the map.
proof fn lemma_has_first_match(attrs: Seq<Attribute>, id: Seq<char>, i: int)
    requires
        0 <= i < attrs.len(),
        attrs[i].id@ == id,
    ensures
        exists|m: int| first_match(attrs, id, m),
        attribute_map(attrs).contains_key(id),
    decreases i,
{
    if forall|j: int| 0 <= j < i ==> attrs[j].id@ != id {
        assert(first_match(attrs, id, i));
    } else {
        let j = choose|j: int| 0 <= j < i && attrs[j].id@ == id;
        lemma_has_first_match(attrs, id, j);
    }
}

/// Whether every attribute of `a` is an attribute of `b` with an equal value.
fn attributes_within_of(a: &Entity, b: &Entity) -> (r: bool)
    ensures
        r == attributes_within(a@, b@),
{
    let mut i: usize = 0;
    while i < a.attributes.len()
        invariant
            i <= a.attributes@.len(),
            forall|j: int|
                0 <= j < i ==> b@.attributes.contains_key(#[trigger] a.attributes@[j].id@)
                    && a@.attributes.contains_key(a.attributes@[j].id@) && value_eq(
                    a@.attributes[a.attributes@[j].id@],
                    b@.attributes[a.attributes@[j].id@],
                ),
        decreases a.attributes@.len() - i,
    {
        let id = a.attributes[i].id.as_str();
        proof {
            lemma_has_first_match(a.attributes@, id@, i as int);
        }
        let mine = a.value_of(id);
        let theirs = b.value_of(id);
        match (mine, theirs) {
            (Some(x), Some(y)) => {
                if !values_equal(x, y) {
                    return false;
                }
            },
            _ => {
                return false;
            },
        }
        i = i + 1;
    }
    proof {
        assert forall|k: Seq<char>| #[trigger] a@.attributes.contains_key(k) implies b@.attributes.contains_key(k)
            && value_eq(a@.attributes[k], b@.attributes[k]) by {
            let m = choose|m: int| first_match(a.attributes@, k, m);
            assert(a.attributes@[m].id@ == k);
        }
    }
    true
}

/// Whether two optional strings are equal.
fn same_optional_text(a: &Option<String>, b: &Option<String>) -> (r: bool)
    ensures
        r == (opt_view(*a) == opt_view(*b)),
{
    match (a, b) {
        (Some(x), Some(y)) => *x == *y,
        (None, None) => true,
        _ => false,
    }
}

/// Whether two optional dates are equal.
fn same_date(a: Option<u64>, b: Option<u64>) -> (r: bool)
    ensures
        r == (a == b),
{
    match (a, b) {
        (Some(x), Some(y)) => x == y,
        (None, None) => true,
        _ => false,
    }
}

/// Whether two entities are equal (see [`entity_eq`]).
fn entities_equal(a: &Entity, b: &Entity) -> (r: bool)
    ensures
        r == entity_eq(a@, b@),
{
    let r = a.id == b.id && a.state == b.state && same_date(a.ref_date, b.ref_date) && a.class
        == b.class && same_optional_text(&a.subclass, &b.subclass) && attributes_within_of(a, b)
        && attributes_within_of(b, a);
    proof {
        if attributes_within(a@, b@) && attributes_within(b@, a@) {
            assert(a@.attributes.dom() =~= b@.attributes.dom());
        }
        if entity_eq(a@, b@) {
            assert(attributes_within(a@, b@));
            assert forall|k: Seq<char>| #[trigger] b@.attributes.contains_key(k) implies a@.attributes.contains_key(k)
                && value_eq(b@.attributes[k], a@.attributes[k]) by {
                assert(a@.attributes.dom().contains(k));
                lemma_value_eq_symmetric(a@.attributes[k], b@.attributes[k]);
            }
        }
    }
    r
}

/// Equality of values is symmetric.
proof fn lemma_value_eq_symmetric(x: ValueView, y: ValueView)
    ensures
        value_eq(x, y) == value_eq(y, x),
{
}

impl PartialEq for Entity {
    fn eq(&self, other: &Entity) -> (r: bool) {
        entities_equal(self, other)
    }
}

impl PartialEqSpecImpl for Entity {
    open spec fn obeys_eq_spec() -> bool {
        true
    }

    open spec fn eq_spec(&self, other: &Entity) -> bool {
        entity_eq(self@, other@)
    }
}

} // verus!
