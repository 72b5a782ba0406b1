use heave::Catalog;
use heave::Entity;
use heave::FailedTo;

#[test]
fn new_should_create_catalog_with_path_and_empty_items() {
    // Should create a new Catalog with the given path and an empty 'items' map.
    let path = "test.db";
    let catalog = Catalog::new(path);
    assert_eq!(catalog.path, path);
    assert!(catalog.items.is_empty());
}

#[test]
fn new_catalog_is_not_initialized() {
    let catalog = Catalog::new("other.db");
    assert!(!catalog.already_init);
    assert_eq!(catalog.path, "other.db");
}

#[test]
fn with_items_returns_what_the_closure_returns() {
    let mut catalog = Catalog::new("test.db");
    catalog.items.push(Entity::of_class("item").with_id("one"));
    catalog.items.push(Entity::of_class("item").with_id("two"));
    let count = catalog.with_items(|items| Ok(items.len())).unwrap();
    assert_eq!(count, 2);
    let first = catalog.with_items(|items| Ok(items[0].id())).unwrap();
    assert_eq!(first, "one");
}

#[test]
fn with_items_passes_the_closure_error_on() {
    let catalog = Catalog::new("test.db");
    let result: Result<usize, FailedTo> = catalog.with_items(|_| Err(FailedTo::LockCatalog));
    assert_eq!(result, Err(FailedTo::LockCatalog));
}

#[test]
fn default_catalog_is_empty() {
    let catalog = Catalog::default();
    assert_eq!(catalog.path, "");
    assert!(!catalog.already_init);
    assert!(catalog.items.is_empty());
}
