use movie_store::NotFound;
use movie_store::SharedStore;

#[test]
fn completed_create_is_visible_to_later_get() {
    let store = SharedStore::new();
    let created = store.create(String::from("Inception"), 2010, true).unwrap();
    assert_eq!(created.name, "Inception");
    assert_eq!(created.year, 2010);
    assert!(created.was_good);
    assert_eq!(created.id.len(), 36);

    let found = store.get(&created.id).expect("a finished create must be visible");
    assert_eq!(found.id, created.id);
    assert_eq!(found.name, created.name);
    assert_eq!(found.year, created.year);
    assert_eq!(found.was_good, created.was_good);
}

#[test]
fn shared_store_miss_yields_not_found() {
    let store = SharedStore::new();
    assert_eq!(store.get(&String::from("nonexistent-id")).unwrap_err(), NotFound);
}

#[test]
fn shared_store_creates_stay_independent() {
    let store = SharedStore::new();
    let a = store.create(String::from("Paprika"), 2006, true).unwrap();
    let b = store.create(String::from("Paprika"), 2006, true).unwrap();
    assert_ne!(a.id, b.id);
    assert_eq!(store.get(&a.id).unwrap().id, a.id);
    assert_eq!(store.get(&b.id).unwrap().id, b.id);
}
