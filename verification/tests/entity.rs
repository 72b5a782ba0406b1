use heave::Attribute;
use heave::EntityState;
use heave::Entity;
use heave::FailedTo;
use heave::Value;
use heave::EAV;

/// A type whose class is "class".
struct ClassMarker;

impl EAV for ClassMarker {
    fn class() -> &'static str {
        "class"
    }
}

impl TryFrom<Entity> for ClassMarker {
    type Error = FailedTo;

    fn try_from(_entity: Entity) -> Result<Self, FailedTo> {
        Ok(ClassMarker)
    }
}

impl From<ClassMarker> for Entity {
    fn from(_value: ClassMarker) -> Entity {
        Entity::new::<ClassMarker>()
    }
}

fn attribute<'a>(entity: &'a Entity, id: &str) -> Option<&'a Attribute> {
    entity.attributes.iter().find(|a| a.id == id)
}

#[test]
fn entity_new_check_001() {
    let entity = Entity::new::<ClassMarker>();
    assert_eq!(entity.class, String::from("class"));
    assert_eq!(entity.attributes.len(), 0);
}

#[test]
fn entity_with_attribute_check_001() {
    let entity = Entity::new::<ClassMarker>().with_attribute("a001", 0u64);
    assert_eq!(
        attribute(&entity, "a001"),
        Some(&Attribute {
            id: "a001".to_string(),
            value: Value::UnsignedInt(0)
        })
    );
}

#[test]
fn new_entity_is_empty_and_new() {
    let entity = Entity::new::<ClassMarker>();
    assert_eq!(entity.id, "");
    assert_eq!(entity.state, EntityState::New);
    assert_eq!(entity.ref_date, None);
    assert_eq!(entity.subclass, None);
}

#[test]
fn of_class_sets_the_class() {
    let entity = Entity::of_class("product");
    assert_eq!(entity.class, "product");
    assert_eq!(entity.id(), "");
    assert!(entity.attributes.is_empty());
}

#[test]
fn builders_set_their_field_only() {
    let entity = Entity::of_class("item")
        .with_id("item-1")
        .with_subclass("subitem")
        .with_ref_date(42);
    assert_eq!(entity.id(), "item-1");
    assert_eq!(entity.subclass(), Some("subitem".to_string()));
    assert_eq!(entity.ref_date, Some(42));
    assert_eq!(entity.class, "item");
    assert_eq!(entity.state, EntityState::New);
    assert!(entity.attributes.is_empty());
}

#[test]
fn value_of_reads_back_what_was_written() {
    let entity = Entity::of_class("item")
        .with_attribute("name", "Laptop")
        .with_attribute("price", 1200u32)
        .with_attribute("in_stock", true)
        .with_attribute("trend", -3i64);
    assert_eq!(entity.value_of("name"), Some(&Value::Text("Laptop".to_string())));
    assert_eq!(entity.value_of("price"), Some(&Value::UnsignedInt(1200)));
    assert_eq!(entity.value_of("in_stock"), Some(&Value::Bool(true)));
    assert_eq!(entity.value_of("trend"), Some(&Value::SignedInt(-3)));
    assert_eq!(entity.value_of("missing"), None);
}

#[test]
fn second_write_replaces_the_first() {
    let entity = Entity::of_class("item")
        .with_attribute("name", "First")
        .with_attribute("price", 1u32)
        .with_attribute("name", "Second".to_string());
    assert_eq!(entity.attributes.len(), 2);
    assert_eq!(entity.value_of("name"), Some(&Value::Text("Second".to_string())));
    assert_eq!(entity.value_of("price"), Some(&Value::UnsignedInt(1)));
}

#[test]
fn writes_to_different_ids_commute() {
    let a = Entity::of_class("item").with_attribute("x", 1i64).with_attribute("y", 2i64);
    let b = Entity::of_class("item").with_attribute("y", 2i64).with_attribute("x", 1i64);
    assert_eq!(a.value_of("x"), b.value_of("x"));
    assert_eq!(a.value_of("y"), b.value_of("y"));
}

#[test]
fn with_opt_attribute_none_leaves_entity() {
    let entity = Entity::of_class("item").with_attribute("name", "Laptop");
    let same = entity.clone().with_opt_attribute::<String>("model", None);
    assert_eq!(same, entity);
    let more = entity.with_opt_attribute("model", Some("X1"));
    assert_eq!(more.value_of("model"), Some(&Value::Text("X1".to_string())));
}

#[test]
fn unwrap_converts_the_value() {
    let entity = Entity::of_class("item")
        .with_attribute("name", "Laptop")
        .with_attribute("price", 1200u32)
        .with_attribute("rank", -7i32)
        .with_attribute("in_stock", false);
    assert_eq!(entity.unwrap::<String>("name"), Ok("Laptop".to_string()));
    assert_eq!(entity.unwrap::<u32>("price"), Ok(1200));
    assert_eq!(entity.unwrap::<u64>("price"), Ok(1200));
    assert_eq!(entity.unwrap::<i32>("rank"), Ok(-7));
    assert_eq!(entity.unwrap::<i64>("rank"), Ok(-7));
    assert_eq!(entity.unwrap::<bool>("in_stock"), Ok(false));
}

#[test]
fn unwrap_of_another_kind_fails_to_convert() {
    let entity = Entity::of_class("item").with_attribute("name", "Laptop");
    assert_eq!(entity.unwrap::<u32>("name"), Err(FailedTo::ConvertValue));
    assert_eq!(entity.unwrap::<bool>("name"), Err(FailedTo::ConvertValue));
}

#[test]
fn unwrap_out_of_range_fails_to_convert() {
    let entity = Entity::of_class("item")
        .with_attribute("big", 5_000_000_000u64)
        .with_attribute("wide", 5_000_000_000i64);
    assert_eq!(entity.unwrap::<u32>("big"), Err(FailedTo::ConvertValue));
    assert_eq!(entity.unwrap::<u64>("big"), Ok(5_000_000_000));
    assert_eq!(entity.unwrap::<i32>("wide"), Err(FailedTo::ConvertValue));
}

#[test]
fn unwrap_opt_distinguishes_missing_and_present() {
    let entity = Entity::of_class("item").with_attribute("model", "X1");
    assert_eq!(entity.unwrap_opt::<String>("model"), Ok(Some("X1".to_string())));
    assert_eq!(entity.unwrap_opt::<String>("color"), Ok(None));
    assert_eq!(entity.unwrap_opt::<u32>("model"), Err(FailedTo::ConvertValue));
}

#[test]
fn unwrap_or_falls_back_to_the_default() {
    let entity = Entity::of_class("item").with_attribute("tag", "new").with_attribute("price", 10u32);
    assert_eq!(entity.unwrap_or("tag", "-".to_string()), Ok("new".to_string()));
    assert_eq!(entity.unwrap_or("label", "-".to_string()), Ok("-".to_string()));
    assert_eq!(entity.unwrap_or("tag", 0u32), Ok(0));
    assert_eq!(entity.unwrap_or("price", 0u32), Ok(10));
}

#[test]
fn with_opt_attribute_some_is_with_attribute() {
    let base = Entity::of_class("item").with_attribute("name", "A").with_attribute("price", 1u32);
    let via_opt = base.clone().with_opt_attribute("price", Some(9u64));
    let direct = base.clone().with_attribute("price", 9u64);
    assert_eq!(via_opt, direct);
    assert_eq!(via_opt.attributes.len(), direct.attributes.len());
    let new_opt = base.clone().with_opt_attribute("color", Some("red"));
    let new_direct = base.with_attribute("color", "red");
    assert_eq!(new_opt, new_direct);
}

#[test]
fn unwrap_opt_of_present_attribute_is_unwrap_in_some() {
    let entity = Entity::of_class("item")
        .with_attribute("name", "Laptop")
        .with_attribute("big", 5_000_000_000u64);
    assert_eq!(entity.unwrap_opt::<String>("name"), entity.unwrap::<String>("name").map(Some));
    assert_eq!(entity.unwrap_opt::<u32>("big"), entity.unwrap::<u32>("big").map(Some));
    assert_eq!(entity.unwrap_opt::<bool>("name"), entity.unwrap::<bool>("name").map(Some));
}
