use heave::Entity;
use heave::EntityState;
use heave::Value;
use heave::EAV;

#[derive(Debug, Default, PartialEq, Clone)]
struct Item {
    id: String,
    first_seen: u32,
    name: String,
    price: u32,
    discount: f64,
    sell_trend: i64,
    in_stock: bool,
    subclass: Option<String>,
    category: Option<String>,
    tag: String,
    supplier_code: u32,
    supplier_rank: i32,
}

impl EAV for Item {
    fn class() -> &'static str {
        "item"
    }
}

impl From<Item> for Entity {
    fn from(value: Item) -> Entity {
        let mut entity = Entity::new::<Item>()
            .with_id(&value.id)
            .with_ref_date(value.first_seen as u64)
            .with_attribute("name", value.name)
            .with_attribute("price", value.price)
            .with_attribute("discount", Value::Real(value.discount.to_bits()))
            .with_attribute("sell_trend", value.sell_trend)
            .with_attribute("in_stock", value.in_stock)
            .with_opt_attribute("category", value.category)
            .with_attribute("tag", value.tag)
            .with_attribute("supplier_code", value.supplier_code)
            .with_attribute("supplier_rank", value.supplier_rank);
        if let Some(subclass) = value.subclass {
            entity = entity.with_subclass(&subclass);
        }
        entity
    }
}

fn real_attribute(entity: &Entity, id: &str) -> f64 {
    match entity.value_of(id) {
        Some(Value::Real(bits)) => f64::from_bits(*bits),
        _ => panic!("{} is always present", id),
    }
}

impl From<Entity> for Item {
    fn from(entity: Entity) -> Self {
        Self {
            id: entity.id(),
            first_seen: entity.ref_date.expect("ref date is always present") as u32,
            name: entity.unwrap("name").expect("name is always present"),
            price: entity.unwrap("price").expect("price is always present"),
            discount: real_attribute(&entity, "discount"),
            sell_trend: entity
                .unwrap("sell_trend")
                .expect("sell_trend is always present"),
            in_stock: entity
                .unwrap("in_stock")
                .expect("in_stock is always present"),
            subclass: entity.subclass(),
            category: entity
                .unwrap_opt("category")
                .expect("category is always optinally present"),
            tag: entity
                .unwrap_or("tag", "-".to_string())
                .expect("tag is always present"),
            supplier_code: entity
                .unwrap("supplier_code")
                .expect("supplier code is always present"),
            supplier_rank: entity
                .unwrap("supplier_rank")
                .expect("supplier rank is always present"),
        }
    }
}

fn sample() -> Item {
    Item {
        id: "item-123".to_string(),
        first_seen: 20250929,
        name: "Test Item".to_string(),
        price: 100,
        discount: 0.15,
        sell_trend: -4,
        in_stock: true,
        subclass: Some("subitem".to_string()),
        category: Some("tools".to_string()),
        tag: "new".to_string(),
        supplier_code: 77,
        supplier_rank: -2,
    }
}

#[test]
fn item_to_entity_holds_its_fields() {
    let entity: Entity = sample().into();
    assert_eq!(entity.id, "item-123");
    assert_eq!(entity.class, "item");
    assert_eq!(entity.state, EntityState::New);
    assert_eq!(entity.ref_date, Some(20250929));
    assert_eq!(entity.subclass, Some("subitem".to_string()));
    assert_eq!(entity.value_of("name"), Some(&Value::from("Test Item")));
    assert_eq!(entity.value_of("price"), Some(&Value::from(100u64)));
    assert_eq!(entity.value_of("sell_trend"), Some(&Value::from(-4i64)));
    assert_eq!(entity.value_of("in_stock"), Some(&Value::from(true)));
    assert_eq!(entity.value_of("supplier_rank"), Some(&Value::SignedInt(-2)));
    assert_eq!(entity.attributes.len(), 9);
}

#[test]
fn item_round_trips_through_entity() {
    let item = sample();
    let entity: Entity = item.clone().into();
    assert_eq!(Item::from(entity), item);
}

#[test]
fn item_without_optional_fields_round_trips() {
    let item = Item {
        id: "item-1".to_string(),
        tag: "-".to_string(),
        ..Item::default()
    };
    let entity: Entity = item.clone().into();
    assert_eq!(entity.value_of("category"), None);
    assert_eq!(entity.subclass, None);
    assert_eq!(Item::from(entity), item);
}
