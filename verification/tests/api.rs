use user_service::api::error::AsHttpError;
use user_service::api::read::QuerySearch;
use user_service::api::user::{User, UserSearchResult};
use user_service::entity::Model;
use user_service::error::CoreError;
use user_service::local::user::UserSearchResult as Found;
use user_service::management::{SearchResult, Searchable};
use user_service::user::userable::Userable;

fn query() -> QuerySearch<u32> {
    QuerySearch { id: None, pattern: None, start_date: None, end_date: None, page: None, per_page: None }
}

#[test]
fn each_kind_of_error_has_its_own_status() {
    let cases = [
        (CoreError::DataError(String::from("d")), 400),
        (CoreError::ResourceNotFound(String::from("n")), 404),
        (CoreError::OperationNotAuthorized(String::from("a")), 401),
        (CoreError::OperationForbidden(String::from("f")), 403),
        (CoreError::UnknownError(String::from("u")), 500),
    ];
    for (error, status) in cases {
        let message = error.to_string();
        let shown = AsHttpError::from(error);
        assert_eq!(shown.status_code(), status);
        let response = shown.error_response();
        assert_eq!(response.status, status);
        assert_eq!(response.description, message);
        assert_eq!(shown.to_string(), message);
    }
}

#[test]
fn identifier_is_written_in_hyphenated_lower_case() {
    let user = User { id: 0x550E8400_E29B_41D4_A716_446655440000, ..User::default() };
    assert_eq!(user.get_id(), "550e8400-e29b-41d4-a716-446655440000");
    assert_eq!(User::default().get_id(), "00000000-0000-0000-0000-000000000000");
    let model = Model {
        id: 1,
        first_name: String::new(),
        last_name: String::new(),
        email: String::new(),
    };
    assert_eq!(model.get_id(), "00000000-0000-0000-0000-000000000001");
}

#[test]
fn default_user_is_empty() {
    let user = User::default();
    assert_eq!(user.id, 0);
    assert_eq!(user.first_name, "");
    assert_eq!(user.last_name, "");
    assert_eq!(user.email, "");
}

#[test]
fn user_is_made_from_anything_that_describes_one() {
    let model = Model {
        id: 42,
        first_name: String::from("Jean"),
        last_name: String::from("Luc"),
        email: String::from("jeanluc@example.com"),
    };
    let user = User::from_userable(&model);
    assert_eq!(user.id, 42);
    assert_eq!(user.get_first_name(), "Jean");
    assert_eq!(user.get_lastname(), "Luc");
    assert_eq!(user.get_email(), "jeanluc@example.com");
    let again = User::from_userable(&user.clone());
    assert_eq!(again.id, 42);
    assert_eq!(User::try_from_userable(&model).map(|u| u.id), Some(42));
}

#[test]
fn page_is_shown_item_by_item() {
    let records = vec![
        Model { id: 1, first_name: String::from("a"), last_name: String::from("b"), email: String::from("c") },
        Model { id: 2, first_name: String::from("d"), last_name: String::from("e"), email: String::from("f") },
    ];
    let found = Found::new(4, records);
    let shown = UserSearchResult::from_result(&found);
    assert_eq!(shown.num_pages, 4);
    assert_eq!(shown.get_num_pages(), 4);
    let ids: Vec<u128> = shown.get_result().iter().map(|u| u.id).collect();
    assert_eq!(ids, vec![1, 2]);
    assert_eq!(shown.result[1].email, "f");
    let copy = shown.clone();
    assert_eq!(copy.num_pages, 4);
    assert_eq!(copy.result.len(), 2);
    assert_eq!(copy.result[0].first_name, "a");

    let tried = UserSearchResult::try_from_result(&found).unwrap();
    assert_eq!(tried.result.len(), 2);
    let empty = UserSearchResult::try_from_result(&Found::new(0, Vec::new())).unwrap();
    assert_eq!(empty.num_pages, 0);
    assert!(empty.result.is_empty());
}

#[test]
fn search_defaults_to_the_first_page_of_twenty_five() {
    let search = query();
    assert_eq!(search.get_page(), 1);
    assert_eq!(search.get_per_page(), 25);
    assert_eq!(search.get_id(), None);
    assert_eq!(search.get_pattern(), None);
    assert_eq!(search.get_date_range(), None);
}

#[test]
fn search_replaces_a_page_or_size_of_zero_by_the_default() {
    let mut search = query();
    search.page = Some(0);
    search.per_page = Some(0);
    assert_eq!(search.get_page(), 1);
    assert_eq!(search.get_per_page(), 25);
    search.page = Some(3);
    search.per_page = Some(1);
    assert_eq!(search.get_page(), 3);
    assert_eq!(search.get_per_page(), 1);
}

#[test]
fn search_gives_what_the_request_gave() {
    let mut search = query();
    search.id = Some(0x550e8400_e29b_41d4_a716_446655440000);
    search.pattern = Some(String::from("Doe"));
    assert_eq!(search.get_id(), Some(String::from("550e8400-e29b-41d4-a716-446655440000")));
    assert_eq!(search.get_pattern(), Some(String::from("Doe")));
}

#[test]
fn date_range_needs_both_ends() {
    let mut search = query();
    search.start_date = Some(10);
    assert_eq!(search.get_date_range(), None);
    search.end_date = Some(20);
    assert_eq!(search.get_date_range(), Some((10, 20)));
    search.start_date = None;
    assert_eq!(search.get_date_range(), None);
}
