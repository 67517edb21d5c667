use sea_orm::DbErr;
use std::cell::{Cell, RefCell};
use user_service::api::read::QuerySearch;
use user_service::entity::Model;
use user_service::error::{CoreError, Error, ErrorKind};
use user_service::local::selection::Selection;
use user_service::local::user::{UserBackend, UserManagement, UserSearchResult};
use user_service::management::{page_count, Manageable, SearchResult};
use user_service::user::userable::Userable;

/// A store that keeps its records in memory, in the order in which they came.
struct Memory {
    records: RefCell<Vec<Model>>,
    asked: Cell<usize>,
    broken: Cell<bool>,
}

impl Memory {
    fn new() -> Memory {
        Memory { records: RefCell::new(Vec::new()), asked: Cell::new(0), broken: Cell::new(false) }
    }

    fn ask(&self) -> Result<(), DbErr> {
        self.asked.set(self.asked.get() + 1);
        if self.broken.get() {
            Err(DbErr::Custom(String::from("the store is down")))
        } else {
            Ok(())
        }
    }

    fn held(&self) -> Vec<Model> {
        self.records.borrow().clone()
    }
}

impl UserBackend for Memory {
    fn insert(&self, record: Model) -> Result<Model, DbErr> {
        self.ask()?;
        self.records.borrow_mut().push(record.clone());
        Ok(record)
    }

    fn find_by_id(&self, id: u128) -> Result<Option<Model>, DbErr> {
        self.ask()?;
        Ok(self.records.borrow().iter().find(|r| r.id == id).cloned())
    }

    fn num_items(&self, selection: &Selection) -> Result<u64, DbErr> {
        self.ask()?;
        Ok(self.records.borrow().iter().filter(|r| selection.takes(r)).count() as u64)
    }

    fn fetch_page(&self, selection: &Selection) -> Result<Vec<Model>, DbErr> {
        self.ask()?;
        Ok(self
            .records
            .borrow()
            .iter()
            .filter(|r| selection.takes(r))
            .skip((selection.page * selection.page_size) as usize)
            .take(selection.page_size as usize)
            .cloned()
            .collect())
    }

    fn update(&self, record: Model) -> Result<Model, DbErr> {
        self.ask()?;
        match self.records.borrow_mut().iter_mut().find(|r| r.id == record.id) {
            Some(place) => {
                *place = record.clone();
                Ok(record)
            }
            None => Err(DbErr::RecordNotUpdated),
        }
    }

    fn delete(&self, record: Model) -> Result<(), DbErr> {
        self.ask()?;
        self.records.borrow_mut().retain(|r| r.id != record.id);
        Ok(())
    }
}

type Search = QuerySearch<i64>;

fn manager() -> UserManagement {
    UserManagement
}

fn person(first: &str, last: &str, email: &str) -> Model {
    Model {
        id: 0,
        first_name: String::from(first),
        last_name: String::from(last),
        email: String::from(email),
    }
}

fn everything() -> Search {
    QuerySearch { id: None, pattern: None, start_date: None, end_date: None, page: None, per_page: None }
}

fn kind_of<T>(r: Result<T, user_service::local::error::AsCoreError>) -> ErrorKind {
    match r {
        Ok(_) => panic!("the operation succeeded"),
        Err(e) => e.get_core_error().kind(),
    }
}

#[test]
fn create_keeps_the_fields_and_assigns_an_identifier() {
    let store = Memory::new();
    let jules = manager()
        .create(person("Jules", "RAKOTOBE", "jules.rak@example.com"), &store)
        .unwrap();
    assert_eq!(jules.first_name, "Jules");
    assert_eq!(jules.last_name, "RAKOTOBE");
    assert_eq!(jules.email, "jules.rak@example.com");
    assert_ne!(jules.id, 0);
    assert_eq!(store.held().len(), 1);
    assert_eq!(store.held()[0], jules);
}

#[test]
fn created_identifiers_are_random_and_marked_so() {
    let store = Memory::new();
    let a = manager().create(person("John", "Doe", "johndoe@example.com"), &store).unwrap();
    let b = manager().create(person("John", "Doe", "johndoe@example.com"), &store).unwrap();
    assert_ne!(a.id, b.id);
    for id in [a.id, b.id] {
        assert_eq!(id & 0x0000_0000_0000_f000_c000_0000_0000_0000, 0x0000_0000_0000_4000_8000_0000_0000_0000);
    }
    let fresh = UserManagement::fresh_record(&a);
    assert_ne!(fresh.id, a.id);
    assert_eq!(fresh.email, a.email);
}

#[test]
fn delete_succeeds_once_and_then_fails_with_not_found() {
    let store = Memory::new();
    let luc = manager().create(person("Luc", "Joseph", "lucjoseph@example.com"), &store).unwrap();
    assert!(manager().delete(luc.get_id(), &store).is_ok());
    assert!(store.held().is_empty());
    let again = manager().delete(luc.get_id(), &store);
    match again {
        Err(e) => assert_eq!(
            e.get_core_error(),
            CoreError::ResourceNotFound(String::from("Record not found !"))
        ),
        Ok(()) => panic!("the second delete succeeded"),
    }
}

#[test]
fn update_replaces_the_three_fields_and_keeps_the_identifier() {
    let store = Memory::new();
    let jean = manager().create(person("Jean", "Luc", "jeanluc@example.com"), &store).unwrap();
    let mut change = jean.clone();
    change.id = 77;
    change.first_name = String::from("Jane");
    let updated = manager().update(jean.get_id(), change, &store).unwrap();
    assert_eq!(updated.first_name, "Jane");
    assert_eq!(updated.last_name, "Luc");
    assert_eq!(updated.email, "jeanluc@example.com");
    assert_eq!(updated.id, jean.id);
    assert_eq!(store.held(), vec![updated]);
}

#[test]
fn update_and_delete_of_an_absent_identifier_fail_with_not_found() {
    let store = Memory::new();
    manager().create(person("John", "Doe", "johndoe@example.com"), &store).unwrap();
    let absent = String::from("550e8400-e29b-41d4-a716-446655440000");
    let updated = manager().update(absent.clone(), person("a", "b", "c"), &store);
    assert_eq!(kind_of(updated), ErrorKind::NotFound);
    assert_eq!(kind_of(manager().delete(absent, &store)), ErrorKind::NotFound);
    assert_eq!(store.held().len(), 1);
}

#[test]
fn malformed_identifier_is_a_data_error_and_the_store_is_not_asked() {
    let store = Memory::new();
    let updated = manager().update(String::from("not-an-id"), person("a", "b", "c"), &store);
    match updated {
        Err(e) => assert_eq!(
            e.get_core_error(),
            CoreError::DataError(String::from("invalid character: found `n` at 0"))
        ),
        Ok(_) => panic!("the update succeeded"),
    }
    assert_eq!(kind_of(manager().delete(String::from(""), &store)), ErrorKind::Data);
    assert_eq!(kind_of(manager().delete(String::from("1234"), &store)), ErrorKind::Data);
    assert_eq!(store.asked.get(), 0);
}

#[test]
fn identify_reads_the_forms_of_an_identifier() {
    let value = 0x550e8400_e29b_41d4_a716_446655440000u128;
    for text in [
        "550e8400-e29b-41d4-a716-446655440000",
        "550e8400e29b41d4a716446655440000",
        "550E8400-E29B-41D4-A716-446655440000",
        "urn:uuid:550e8400-e29b-41d4-a716-446655440000",
        "{550e8400-e29b-41d4-a716-446655440000}",
    ] {
        assert_eq!(UserManagement::identify(text).ok(), Some(value));
    }
    assert!(UserManagement::identify("550e8400-e29b-41d4-a716-44665544000").is_err());
}

#[test]
fn read_of_an_empty_store_has_no_page_and_no_record() {
    let store = Memory::new();
    let found = manager().read(everything(), &store).unwrap();
    assert_eq!(found.get_num_pages(), 0);
    assert!(found.get_result().is_empty());
}

#[test]
fn read_reports_the_count_over_the_page_size_rounded_up() {
    let store = Memory::new();
    for i in 0..7 {
        manager().create(person(&format!("n{}", i), "x", "e"), &store).unwrap();
    }
    let mut search = everything();
    search.per_page = Some(3);
    search.page = Some(3);
    let found = manager().read(search, &store).unwrap();
    assert_eq!(found.get_num_pages(), 3);
    let names: Vec<String> = found.get_result().iter().map(|r| r.first_name.clone()).collect();
    assert_eq!(names, vec![String::from("n6")]);

    let mut past = everything();
    past.per_page = Some(3);
    past.page = Some(4);
    let found = manager().read(past, &store).unwrap();
    assert_eq!(found.get_num_pages(), 3);
    assert!(found.get_result().is_empty());

    let found = manager().read(everything(), &store).unwrap();
    assert_eq!(found.get_num_pages(), 1);
    assert_eq!(found.get_result().len(), 7);
}

#[test]
fn read_of_a_page_out_of_reach_is_empty_and_not_asked_for() {
    let store = Memory::new();
    manager().create(person("John", "Doe", "johndoe@example.com"), &store).unwrap();
    let asked = store.asked.get();
    let mut search = everything();
    search.per_page = Some(usize::MAX);
    search.page = Some(usize::MAX);
    let found = manager().read(search, &store).unwrap();
    assert_eq!(found.get_num_pages(), 1);
    assert!(found.get_result().is_empty());
    assert_eq!(store.asked.get(), asked + 1);
}

#[test]
fn page_count_is_the_ceiling_of_the_quotient() {
    assert_eq!(page_count(0, 25), 0);
    assert_eq!(page_count(1, 25), 1);
    assert_eq!(page_count(25, 25), 1);
    assert_eq!(page_count(26, 25), 2);
    assert_eq!(page_count(50, 25), 2);
    assert_eq!(page_count(7, 1), 7);
    assert_eq!(page_count(u64::MAX, 1), u64::MAX);
    assert_eq!(page_count(u64::MAX, 2), 1 << 63);
    assert_eq!(page_count(u64::MAX, u64::MAX), 1);
}

#[test]
fn create_then_read_by_the_identifier_finds_the_record_alone() {
    let store = Memory::new();
    manager().create(person("John", "Doe", "johndoe@example.com"), &store).unwrap();
    let jules = manager()
        .create(person("Jules", "RAKOTOBE", "jules.rak@example.com"), &store)
        .unwrap();
    let mut search = everything();
    search.id = Some(jules.id);
    let found = manager().read(search, &store).unwrap();
    assert_eq!(found.get_num_pages(), 1);
    assert_eq!(found.get_result(), vec![jules]);
}

#[test]
fn pattern_must_equal_one_of_the_three_fields() {
    let store = Memory::new();
    manager().create(person("John", "Doe", "johndoe@example.com"), &store).unwrap();
    manager().create(person("Doe", "Smith", "doe@example.com"), &store).unwrap();
    manager().create(person("Ann", "Lee", "Doe"), &store).unwrap();
    manager().create(person("Ann", "Doering", "ann@example.com"), &store).unwrap();
    let mut search = everything();
    search.pattern = Some(String::from("Doe"));
    let found = manager().read(search, &store).unwrap();
    assert_eq!(found.get_num_pages(), 1);
    let emails: Vec<String> = found.get_result().iter().map(|r| r.email.clone()).collect();
    assert_eq!(emails, vec!["johndoe@example.com", "doe@example.com", "Doe"]);

    let mut search = everything();
    search.pattern = Some(String::from("doe"));
    assert!(manager().read(search, &store).unwrap().get_result().is_empty());
}

#[test]
fn selection_takes_by_identifier_and_pattern_together() {
    let record = Model { id: 9, ..person("John", "Doe", "johndoe@example.com") };
    let all = Selection { id: None, pattern: None, page_size: 25, page: 0 };
    assert!(all.takes(&record));
    let by_id = Selection { id: Some(9), pattern: None, page_size: 25, page: 0 };
    assert!(by_id.takes(&record));
    let other = Selection { id: Some(8), pattern: Some(String::from("Doe")), page_size: 25, page: 0 };
    assert!(!other.takes(&record));
    let both = Selection { id: Some(9), pattern: Some(String::from("johndoe@example.com")), page_size: 25, page: 0 };
    assert!(both.takes(&record));
    let neither = Selection { id: Some(9), pattern: Some(String::from("Jo")), page_size: 25, page: 0 };
    assert!(!neither.takes(&record));
    assert!(both.is_within_reach());
    let far = Selection { id: None, pattern: None, page_size: 1 << 33, page: 1 << 33 };
    assert!(!far.is_within_reach());
}

#[test]
fn selection_is_the_search_with_the_page_counted_from_zero() {
    let mut search = everything();
    search.id = Some(5);
    search.pattern = Some(String::from("x"));
    search.page = Some(4);
    search.per_page = Some(10);
    let selection = UserManagement::selection(&search).ok().unwrap();
    assert_eq!(selection.id, Some(5));
    assert_eq!(selection.pattern, Some(String::from("x")));
    assert_eq!(selection.page_size, 10);
    assert_eq!(selection.page, 3);
    let selection = UserManagement::selection(&everything()).ok().unwrap();
    assert_eq!(selection.id, None);
    assert_eq!(selection.pattern, None);
    assert_eq!(selection.page_size, 25);
    assert_eq!(selection.page, 0);
}

#[test]
fn failure_of_the_store_is_classified_and_returned() {
    let store = Memory::new();
    let john = manager().create(person("John", "Doe", "johndoe@example.com"), &store).unwrap();
    store.broken.set(true);
    let unknown = CoreError::UnknownError(String::from("Custom Error: the store is down"));
    match manager().create(person("a", "b", "c"), &store) {
        Err(e) => assert_eq!(e.get_core_error(), unknown),
        Ok(_) => panic!("the create succeeded"),
    }
    assert_eq!(kind_of(manager().read(everything(), &store)), ErrorKind::Unknown);
    assert_eq!(kind_of(manager().update(john.get_id(), john.clone(), &store)), ErrorKind::Unknown);
    assert_eq!(kind_of(manager().delete(john.get_id(), &store)), ErrorKind::Unknown);
    assert_eq!(store.held().len(), 1);
}

#[test]
fn found_is_the_record_or_not_found() {
    let record = person("John", "Doe", "johndoe@example.com");
    assert_eq!(UserManagement::found(Some(record.clone())).ok(), Some(record));
    assert_eq!(kind_of(UserManagement::found(None)), ErrorKind::NotFound);
}

#[test]
fn revised_keeps_the_identifier_of_the_stored_record() {
    let stored = Model { id: 3, ..person("Jean", "Luc", "jeanluc@example.com") };
    let data = Model { id: 4, ..person("Jane", "Lucas", "jane@example.com") };
    let revised = UserManagement::revised(stored, &data);
    assert_eq!(revised, Model { id: 3, ..person("Jane", "Lucas", "jane@example.com") });
}

#[test]
fn search_result_reports_what_it_was_given() {
    let selection = Selection { id: None, pattern: None, page_size: 2, page: 0 };
    let records = vec![person("a", "b", "c"), person("d", "e", "f")];
    let found = UserSearchResult::of(&selection, 5, records.clone());
    assert_eq!(found.get_num_pages(), 3);
    assert_eq!(found.get_result(), records);
    assert_eq!(found.get_result(), records);
    let plain = UserSearchResult::new(9, Vec::new());
    assert_eq!(plain.get_num_pages(), 9);
    assert!(plain.get_result().is_empty());
}

#[test]
fn conclude_hands_on_success_and_classifies_failure() {
    assert_eq!(UserManagement::conclude(Ok(7)).ok(), Some(7));
    let failed: Result<u8, DbErr> = Err(DbErr::RecordNotFound(String::from("gone")));
    match UserManagement::conclude(failed) {
        Err(e) => assert_eq!(e.get_core_error(), CoreError::ResourceNotFound(String::from("gone"))),
        Ok(_) => panic!("a failure was handed on as success"),
    }
    let failed: Result<u8, DbErr> = Err(DbErr::RecordNotUpdated);
    match UserManagement::conclude(failed) {
        Err(e) => assert_eq!(
            e.get_core_error(),
            CoreError::UnknownError(String::from("None of the records are updated"))
        ),
        Ok(_) => panic!("a failure was handed on as success"),
    }
}
