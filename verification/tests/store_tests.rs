use movie_store::IdCollision;
use movie_store::MovieStore;
use movie_store::NotFound;

#[test]
fn round_trip_create_then_get() {
    let mut store = MovieStore::new();
    let created = store
        .create(String::from("Inception"), 2010, true)
        .expect("identifier collision is practically unreachable");
    assert_eq!(created.name, "Inception");
    assert_eq!(created.year, 2010);
    assert!(created.was_good);

    let found = store.get(&created.id).expect("created record must be found");
    assert_eq!(found.id, created.id);
    assert_eq!(found.name, created.name);
    assert_eq!(found.year, created.year);
    assert_eq!(found.was_good, created.was_good);
}

#[test]
fn miss_yields_not_found() {
    let mut store = MovieStore::new();
    assert_eq!(store.get(&String::from("nonexistent-id")).unwrap_err(), NotFound);

    let created = store.create(String::from("Heat"), 1995, true).unwrap();
    assert_ne!(created.id, "nonexistent-id");
    assert_eq!(store.get(&String::from("nonexistent-id")).unwrap_err(), NotFound);
}

#[test]
fn created_ids_pairwise_distinct() {
    let mut store = MovieStore::new();
    let mut ids: Vec<String> = Vec::new();
    for _ in 0..8 {
        let created = store.create(String::from("Alien"), 1979, true).unwrap();
        ids.push(created.id);
    }
    for i in 0..ids.len() {
        for j in 0..ids.len() {
            if i != j {
                assert_ne!(ids[i], ids[j]);
            }
        }
    }
}

#[test]
fn records_immutable_under_later_creates() {
    let mut store = MovieStore::new();
    let first = store.create(String::from("Solaris"), 1972, true).unwrap();
    for _ in 0..4 {
        store.create(String::from("Stalker"), 1979, true).unwrap();
    }
    let again = store.get(&first.id).unwrap();
    assert_eq!(again.name, "Solaris");
    assert_eq!(again.year, 1972);
    assert!(again.was_good);
    let once_more = store.get(&first.id).unwrap();
    assert_eq!(once_more.name, again.name);
    assert_eq!(once_more.year, again.year);
    assert_eq!(once_more.was_good, again.was_good);
}

#[test]
fn identical_fields_give_distinct_records() {
    let mut store = MovieStore::new();
    let a = store.create(String::from("The Prestige"), 2006, true).unwrap();
    let b = store.create(String::from("The Prestige"), 2006, true).unwrap();
    assert_ne!(a.id, b.id);

    let got_a = store.get(&a.id).unwrap();
    let got_b = store.get(&b.id).unwrap();
    assert_eq!(got_a.id, a.id);
    assert_eq!(got_b.id, b.id);
    assert_eq!(got_a.name, got_b.name);
    assert_eq!(got_a.year, got_b.year);
}

#[test]
fn generated_identifier_is_hyphenated_uuid_shape() {
    let mut store = MovieStore::new();
    let created = store.create(String::from("Arrival"), 2016, true).unwrap();
    assert_eq!(created.id.len(), 36);
    for (i, c) in created.id.char_indices() {
        if i == 8 || i == 13 || i == 18 || i == 23 {
            assert_eq!(c, '-');
        } else {
            assert!(c.is_ascii_hexdigit() && !c.is_ascii_uppercase());
        }
    }
    assert_eq!(created.id.chars().nth(14), Some('4'));
}

#[test]
fn insert_new_rejects_taken_identifier() {
    let mut store = MovieStore::new();
    let id = String::from("some-fixed-id");
    let first = store
        .insert_new(id.clone(), String::from("Brazil"), 1985, true)
        .unwrap();
    assert_eq!(first.id, id);

    let second = store.insert_new(id.clone(), String::from("Gattaca"), 1997, true);
    assert_eq!(second.unwrap_err(), IdCollision);

    let kept = store.get(&id).unwrap();
    assert_eq!(kept.name, "Brazil");
    assert_eq!(kept.year, 1985);
}
