//! The manager of users: what it asks of the backend, and what it makes of
//! the answers.

use crate::entity::{Model, Row};
use crate::error::{Classified, ErrorKind};
use crate::identifier::{fresh, is_random_identifier, parse, uuid_value};
use crate::local::error::{classifies, malformed, violation_text, AsCoreError};
use crate::local::selection::Selection;
use crate::management::{
    criteria_of, lemma_one_item_fills_one_page, page_count, pages_for, Criteria, Manageable,
    SearchResult, Searchable,
};
use crate::user::userable::Userable;
use sea_orm::DbErr;
use vstd::prelude::*;

verus! {

/// What the manager needs of a connection to the store of users. Nothing is
/// assumed of the answers: the manager is verified for whatever comes back,
/// and its contracts say what it asked and what it made of the answer.
pub trait UserBackend {
    /// Stores `record` and returns it as stored.
    fn insert(&self, record: Model) -> Result<Model, DbErr>;

    /// The record that has `id`, if there is one.
    fn find_by_id(&self, id: u128) -> Result<Option<Model>, DbErr>;

    /// The number of records that `selection` takes.
    fn num_items(&self, selection: &Selection) -> Result<u64, DbErr>;

    /// The records of the page that `selection` wants.
    fn fetch_page(&self, selection: &Selection) -> Result<Vec<Model>, DbErr>;

    /// Stores `record` in place of the one that has its identifier and
    /// returns it as stored.
    fn update(&self, record: Model) -> Result<Model, DbErr>;

    /// Removes `record`.
    fn delete(&self, record: Model) -> Result<(), DbErr>;
}

/// The classified error for an identifier that no record has.
pub open spec fn not_found() -> Classified {
    Classified { kind: ErrorKind::NotFound, message: "Record not found !"@ }
}

/// Whether `r` is what the manager makes of the backend's `answer`: what
/// the backend gave is handed on, and a failure is classified.
pub open spec fn concluded<T>(answer: Result<T, DbErr>, r: Result<T, AsCoreError>) -> bool {
    match answer {
        Ok(value) => r == Ok::<T, AsCoreError>(value),
        Err(failure) => r matches Err(e) && classifies(failure, e@),
    }
}

/// The record that takes the place of `found` when it is updated with
/// `data`: the identifier stays, and each of the three fields is replaced.
pub open spec fn revision(found: Row, data: Row) -> Row {
    Row { id: found.id, first_name: data.first_name, last_name: data.last_name, email: data.email }
}

/// One page of users, and the number of pages.
pub struct UserSearchResult {
    num_pages: usize,
    result: Vec<Model>,
}

impl UserSearchResult {
    /// The result that reports `num_pages` pages and holds `result`.
    pub fn new(num_pages: usize, result: Vec<Model>) -> (r: UserSearchResult)
        ensures
            r.num_pages() == num_pages,
            r.result() == result@,
    {
        UserSearchResult { num_pages, result }
    }

    /// The result of a read for which the backend counted `num_items`
    /// records and handed out `records`: the page count is the count of
    /// records over the page size, rounded up.
    pub fn of(selection: &Selection, num_items: u64, records: Vec<Model>) -> (r: UserSearchResult)
        requires
            selection.wf(),
        ensures
            r.num_pages() == pages_for(num_items as nat, selection.page_size as nat) as usize,
            r.result() == records@,
    {
        let pages = page_count(num_items, selection.page_size);
        UserSearchResult::new(
            #[verifier::truncate]
            (pages as usize),
            records,
        )
    }
}

impl SearchResult for UserSearchResult {
    type Result = Model;

    closed spec fn num_pages(&self) -> nat {
        self.num_pages as nat
    }

    closed spec fn result(&self) -> Seq<Model> {
        self.result@
    }

    fn get_num_pages(&self) -> (pages: usize) {
        self.num_pages
    }

    fn get_result(&self) -> (items: Vec<Model>) {
        let mut items: Vec<Model> = Vec::new();
        let mut i: usize = 0;
        while i < self.result.len()
            invariant
                i <= self.result.len(),
                items@ == self.result@.subrange(0, i as int),
            decreases self.result.len() - i,
        {
            items.push(self.result[i].clone());
            i = i + 1;
        }
        assert(self.result@.subrange(0, i as int) == self.result@);
        items
    }
}

/// The manager of the user resource.
pub struct UserManagement;

impl UserManagement {
    /// Whether `selection` is what `criteria` ask for: their identifier
    /// read from text, their pattern, their page size, and their page
    /// counted from zero.
    pub open spec fn represents(selection: Selection, criteria: Criteria<Seq<char>>) -> bool {
        &&& selection.wf()
        &&& criteria.id matches Some(text) ==> selection.id == uuid_value(text)
        &&& criteria.id is None ==> selection.id is None
        &&& selection.pattern.deep_view() == criteria.pattern
        &&& selection.page_size == criteria.per_page
        &&& selection.page == criteria.page - 1
    }

    /// Whether `r` is what create returns for `data` over `backend`: the
    /// backend is handed the fields of `data` under a random identifier,
    /// and its answer is concluded.
    pub open spec fn inserted<B: UserBackend>(
        backend: &B,
        data: Model,
        r: Result<Model, AsCoreError>,
    ) -> bool {
        exists|record: Model, answer: Result<Model, DbErr>|
            {
                &&& is_random_identifier(record.id)
                &&& record@ == revision(record@, data@)
                &&& #[trigger] call_ensures(B::insert, (backend, record), answer)
                &&& concluded(answer, r)
            }
    }

    /// Whether `r` is what read returns once the backend has counted
    /// `count` records for `selection`: the page that the backend hands out
    /// for `selection`, or no record and no question where that page lies
    /// out of reach, with the count of pages that `count` records fill.
    pub open spec fn paged<B: UserBackend>(
        backend: &B,
        selection: Selection,
        count: u64,
        r: Result<UserSearchResult, AsCoreError>,
    ) -> bool {
        let pages = pages_for(count as nat, selection.page_size as nat) as usize;
        if selection.within_reach() {
            exists|page: Result<Vec<Model>, DbErr>|
                {
                    &&& #[trigger] call_ensures(B::fetch_page, (backend, &selection), page)
                    &&& match page {
                        Ok(records) => r matches Ok(found) && found.num_pages() == pages
                            && found.result() == records@,
                        Err(failure) => r matches Err(e) && classifies(failure, e@),
                    }
                }
        } else {
            r matches Ok(found) && found.num_pages() == pages && found.result() == Seq::<
                Model,
            >::empty()
        }
    }

    /// Whether `r` is what read returns for `criteria` over `backend`,
    /// where the identifier of `criteria` reads as one: the backend is
    /// asked to count for the selection that represents `criteria`, a
    /// failure is classified, and a count is followed by the page.
    pub open spec fn counted<B: UserBackend>(
        backend: &B,
        criteria: Criteria<Seq<char>>,
        r: Result<UserSearchResult, AsCoreError>,
    ) -> bool {
        exists|selection: Selection, count: Result<u64, DbErr>|
            {
                &&& Self::represents(selection, criteria)
                &&& #[trigger] call_ensures(B::num_items, (backend, &selection), count)
                &&& match count {
                    Ok(number) => Self::paged(backend, selection, number, r),
                    Err(failure) => r matches Err(e) && classifies(failure, e@),
                }
            }
    }

    /// Whether `r` is what update returns once `record` was found: the
    /// backend is handed the revision of `record` by `data`, and its answer
    /// is concluded.
    pub open spec fn saved<B: UserBackend>(
        backend: &B,
        record: Model,
        data: Model,
        r: Result<Model, AsCoreError>,
    ) -> bool {
        exists|revised: Model, answer: Result<Model, DbErr>|
            {
                &&& revised@ == revision(record@, data@)
                &&& #[trigger] call_ensures(B::update, (backend, revised), answer)
                &&& concluded(answer, r)
            }
    }

    /// Whether `r` is what update returns for the identifier `key` over
    /// `backend`: the backend is asked for the record of `key`; a failure
    /// is classified, no record is "not found", and a record is saved.
    pub open spec fn fetched_and_saved<B: UserBackend>(
        backend: &B,
        key: u128,
        data: Model,
        r: Result<Model, AsCoreError>,
    ) -> bool {
        exists|found: Result<Option<Model>, DbErr>|
            {
                &&& #[trigger] call_ensures(B::find_by_id, (backend, key), found)
                &&& match found {
                    Ok(Some(record)) => Self::saved(backend, record, data, r),
                    Ok(None) => r matches Err(e) && e@ == not_found(),
                    Err(failure) => r matches Err(e) && classifies(failure, e@),
                }
            }
    }

    /// Whether `r` is what delete returns once `record` was found: the
    /// backend is told to remove `record`, and its answer is concluded.
    pub open spec fn removed<B: UserBackend>(
        backend: &B,
        record: Model,
        r: Result<(), AsCoreError>,
    ) -> bool {
        exists|answer: Result<(), DbErr>|
            {
                &&& #[trigger] call_ensures(B::delete, (backend, record), answer)
                &&& concluded(answer, r)
            }
    }

    /// Whether `r` is what delete returns for the identifier `key` over
    /// `backend`: the backend is asked for the record of `key`; a failure
    /// is classified, no record is "not found", and a record is removed.
    pub open spec fn fetched_and_removed<B: UserBackend>(
        backend: &B,
        key: u128,
        r: Result<(), AsCoreError>,
    ) -> bool {
        exists|found: Result<Option<Model>, DbErr>|
            {
                &&& #[trigger] call_ensures(B::find_by_id, (backend, key), found)
                &&& match found {
                    Ok(Some(record)) => Self::removed(backend, record, r),
                    Ok(None) => r matches Err(e) && e@ == not_found(),
                    Err(failure) => r matches Err(e) && classifies(failure, e@),
                }
            }
    }

    /// Hands on what the backend gave, and classifies its failure.
    pub fn conclude<T>(answer: Result<T, DbErr>) -> (r: Result<T, AsCoreError>)
        ensures
            concluded(answer, r),
    {
        match answer {
            Ok(value) => Ok(value),
            Err(failure) => Err(AsCoreError::from(failure)),
        }
    }

    /// Reads an identifier that a caller supplied. Text that is no
    /// identifier is a data error.
    pub fn identify(id: &str) -> (r: Result<u128, AsCoreError>)
        ensures
            r is Ok <==> uuid_value(id@) is Some,
            r matches Ok(value) ==> uuid_value(id@) == Some(value),
            r matches Err(e) ==> malformed(e@),
    {
        match parse(id) {
            Ok(value) => Ok(value),
            Err(e) => Err(AsCoreError::from(e)),
        }
    }

    /// The record to store for `data`: the fields of `data` under a new
    /// identifier, which is never the all-zero one.
    pub fn fresh_record(data: &Model) -> (r: Model)
        ensures
            is_random_identifier(r.id),
            r.id != 0,
            r@ == revision(r@, data@),
    {
        let id = fresh();
        proof {
            crate::identifier::lemma_random_identifier_is_not_nil(id);
        }
        Model {
            id,
            first_name: data.get_first_name(),
            last_name: data.get_lastname(),
            email: data.get_email(),
        }
    }

    /// What a search asks of the backend. A search that names an identifier
    /// that does not parse is a data error; every other search is accepted.
    pub fn selection<S: Searchable<Id = String>>(search: &S) -> (r: Result<
        Selection,
        AsCoreError,
    >)
        ensures
            r is Err <==> (search.id() matches Some(text) && uuid_value(text) is None),
            r matches Err(e) ==> malformed(e@),
            r matches Ok(selection) ==> Self::represents(selection, criteria_of(*search)),
    {
        let id = match search.get_id() {
            Some(text) => match Self::identify(text.as_str()) {
                Ok(value) => Some(value),
                Err(e) => {
                    return Err(e);
                },
            },
            None => None,
        };
        let pattern = search.get_pattern();
        let page_size = search.get_per_page() as u64;
        let page = (search.get_page() - 1) as u64;
        Ok(Selection { id, pattern, page_size, page })
    }

    /// Fetch or fail: the record that the backend found, or "not found"
    /// where it found none.
    pub fn found(found: Option<Model>) -> (r: Result<Model, AsCoreError>)
        ensures
            match found {
                Some(record) => r == Ok::<Model, AsCoreError>(record),
                None => r matches Err(e) && e@ == not_found(),
            },
    {
        match found {
            Some(record) => Ok(record),
            None => Err(AsCoreError::not_found()),
        }
    }

    /// The record to store when `found` is updated with `data`: the
    /// identifier stays, and each of the three fields is replaced.
    pub fn revised(found: Model, data: &Model) -> (r: Model)
        ensures
            r@ == revision(found@, data@),
    {
        Model {
            id: found.id,
            first_name: data.get_first_name(),
            last_name: data.get_lastname(),
            email: data.get_email(),
        }
    }
}

/// Whether `backend` stores what it is given: whenever it is handed a record
/// to insert, it answers with that record.
pub open spec fn keeps_what_it_is_given<B: UserBackend>(backend: &B) -> bool {
    forall|record: Model, answer: Result<Model, DbErr>| #[trigger]
        call_ensures(B::insert, (backend, record), answer) ==> answer == Ok::<Model, DbErr>(
            record,
        )
}

/// Create over a backend that stores what it is given succeeds, and the
/// record it returns has the fields of the input and an identifier that is
/// not the all-zero one.
pub proof fn lemma_create_keeps_the_fields<B: UserBackend>(
    backend: &B,
    data: Model,
    r: Result<Model, AsCoreError>,
)
    requires
        keeps_what_it_is_given(backend),
        UserManagement::inserted(backend, data, r),
    ensures
        r matches Ok(record) && record.id != 0 && record@ == revision(record@, data@),
{
    let (record, answer) = choose|record: Model, answer: Result<Model, DbErr>|
        {
            &&& is_random_identifier(record.id)
            &&& record@ == revision(record@, data@)
            &&& #[trigger] call_ensures(B::insert, (backend, record), answer)
            &&& concluded(answer, r)
        };
    crate::identifier::lemma_random_identifier_is_not_nil(record.id);
}

/// Create over a backend that refuses the record for a constraint fails
/// with a data error that carries the text of the violation.
pub proof fn lemma_create_refused_is_a_data_error<B: UserBackend>(
    backend: &B,
    data: Model,
    violation: Seq<char>,
    r: Result<Model, AsCoreError>,
)
    requires
        forall|record: Model, answer: Result<Model, DbErr>| #[trigger]
            call_ensures(B::insert, (backend, record), answer) ==> (answer matches Err(failure)
                && violation_text(failure) == Some(violation)),
        UserManagement::inserted(backend, data, r),
    ensures
        r matches Err(e) && e@ == (Classified { kind: ErrorKind::Data, message: violation }),
{
}

/// Whether `backend` holds no record of `key`: whenever it is asked for the
/// record of `key`, it answers that there is none.
pub open spec fn finds_nothing<B: UserBackend>(backend: &B, key: u128) -> bool {
    forall|found: Result<Option<Model>, DbErr>| #[trigger]
        call_ensures(B::find_by_id, (backend, key), found) ==> found == Ok::<
            Option<Model>,
            DbErr,
        >(None)
}

/// Update of an identifier that the backend holds no record of fails with
/// "not found".
pub proof fn lemma_update_of_absent_is_not_found<B: UserBackend>(
    backend: &B,
    key: u128,
    data: Model,
    r: Result<Model, AsCoreError>,
)
    requires
        finds_nothing(backend, key),
        UserManagement::fetched_and_saved(backend, key, data, r),
    ensures
        r matches Err(e) && e@ == not_found(),
{
}

/// Delete of an identifier that the backend holds no record of fails with
/// "not found": so does the second of two deletes, where the first removed
/// the record.
pub proof fn lemma_delete_of_absent_is_not_found<B: UserBackend>(
    backend: &B,
    key: u128,
    r: Result<(), AsCoreError>,
)
    requires
        finds_nothing(backend, key),
        UserManagement::fetched_and_removed(backend, key, r),
    ensures
        r matches Err(e) && e@ == not_found(),
{
}

/// A read never fails for want of records: where the backend answers every
/// question, the read succeeds, and reports the pages that the count fills.
pub proof fn lemma_read_reports_the_pages<B: UserBackend>(
    backend: &B,
    criteria: Criteria<Seq<char>>,
    r: Result<UserSearchResult, AsCoreError>,
)
    requires
        UserManagement::counted(backend, criteria, r),
        forall|selection: Selection, count: Result<u64, DbErr>| #[trigger]
            call_ensures(B::num_items, (backend, &selection), count) ==> count is Ok,
        forall|selection: Selection, page: Result<Vec<Model>, DbErr>| #[trigger]
            call_ensures(B::fetch_page, (backend, &selection), page) ==> page is Ok,
    ensures
        r is Ok,
        exists|selection: Selection, count: u64|
            {
                &&& UserManagement::represents(selection, criteria)
                &&& #[trigger] call_ensures(
                    B::num_items,
                    (backend, &selection),
                    Ok::<u64, DbErr>(count),
                )
                &&& r->Ok_0.num_pages() == pages_for(count as nat, criteria.per_page) as usize
            },
{
    let (selection, count) = choose|selection: Selection, count: Result<u64, DbErr>|
        {
            &&& UserManagement::represents(selection, criteria)
            &&& #[trigger] call_ensures(B::num_items, (backend, &selection), count)
            &&& match count {
                Ok(number) => UserManagement::paged(backend, selection, number, r),
                Err(failure) => r matches Err(e) && classifies(failure, e@),
            }
        };
    assert(count is Ok);
    assert(call_ensures(B::num_items, (backend, &selection), Ok::<u64, DbErr>(count->Ok_0)));
}

/// Read of the record that a create stored: where the backend counts one
/// record for the search and hands out that one, the read of the first page
/// reports one page, and on it that record and no other.
pub proof fn lemma_read_of_the_one_record<B: UserBackend>(
    backend: &B,
    criteria: Criteria<Seq<char>>,
    record: Model,
    r: Result<UserSearchResult, AsCoreError>,
)
    requires
        UserManagement::counted(backend, criteria, r),
        criteria.page == 1,
        forall|selection: Selection, count: Result<u64, DbErr>| #[trigger]
            call_ensures(B::num_items, (backend, &selection), count) ==> count == Ok::<u64, DbErr>(
                1,
            ),
        forall|selection: Selection, page: Result<Vec<Model>, DbErr>| #[trigger]
            call_ensures(B::fetch_page, (backend, &selection), page) ==> (page matches Ok(records)
                && records@ == seq![record]),
    ensures
        r matches Ok(found) && found.num_pages() == 1 && found.result() == seq![record],
{
    let (selection, count) = choose|selection: Selection, count: Result<u64, DbErr>|
        {
            &&& UserManagement::represents(selection, criteria)
            &&& #[trigger] call_ensures(B::num_items, (backend, &selection), count)
            &&& match count {
                Ok(number) => UserManagement::paged(backend, selection, number, r),
                Err(failure) => r matches Err(e) && classifies(failure, e@),
            }
        };
    assert(selection.page_size * selection.page == 0) by (nonlinear_arith)
        requires
            selection.page == 0,
    ;
    lemma_one_item_fills_one_page(selection.page_size as nat);
}

impl<B: UserBackend> Manageable<B> for UserManagement {
    type Id = String;

    type Data = Model;

    type Result = UserSearchResult;

    type Failure = AsCoreError;

    open spec fn created(&self, backend: &B, data: Model, r: Result<Model, AsCoreError>) -> bool {
        Self::inserted(backend, data, r)
    }

    /// A search whose identifier does not parse is a data error; any other
    /// is put to the backend.
    open spec fn searched(
        &self,
        backend: &B,
        criteria: Criteria<Seq<char>>,
        r: Result<UserSearchResult, AsCoreError>,
    ) -> bool {
        if criteria.id matches Some(text) && uuid_value(text) is None {
            r matches Err(e) && malformed(e@)
        } else {
            Self::counted(backend, criteria, r)
        }
    }

    /// Text that is no identifier is a data error; an identifier is
    /// fetched, and what is found is saved.
    open spec fn updated(
        &self,
        backend: &B,
        id: String,
        data: Model,
        r: Result<Model, AsCoreError>,
    ) -> bool {
        match uuid_value(id@) {
            Some(key) => Self::fetched_and_saved(backend, key, data, r),
            None => r matches Err(e) && malformed(e@),
        }
    }

    /// Text that is no identifier is a data error; an identifier is
    /// fetched, and what is found is removed.
    open spec fn deleted(&self, backend: &B, id: String, r: Result<(), AsCoreError>) -> bool {
        match uuid_value(id@) {
            Some(key) => Self::fetched_and_removed(backend, key, r),
            None => r matches Err(e) && malformed(e@),
        }
    }

    /// Stores the fields of `data` under a new identifier. The record that
    /// comes back is the one that the backend answers with; a failure is
    /// the backend's, classified.
    fn create(&self, data: Model, backend: &B) -> (r: Result<Model, AsCoreError>)
        ensures
            Self::inserted(backend, data, r),
    {
        let record = Self::fresh_record(&data);
        let ghost handed = record;
        let answer = backend.insert(record);
        let ghost answered = answer;
        let r = Self::conclude(answer);
        assert(call_ensures(B::insert, (backend, handed), answered));
        r
    }

    /// Asks the backend for the count and for the page that `search_opt`
    /// selects. A search whose identifier does not parse is a data error and
    /// the backend is not asked; a page that lies out of reach holds no
    /// record and is not asked for either.
    fn read<S: Searchable<Id = String>>(&self, search_opt: S, backend: &B) -> (r: Result<
        UserSearchResult,
        AsCoreError,
    >)
        ensures
            if search_opt.id() matches Some(text) && uuid_value(text) is None {
                r matches Err(e) && malformed(e@)
            } else {
                Self::counted(backend, criteria_of(search_opt), r)
            },
    {
        let selection = match Self::selection(&search_opt) {
            Ok(selection) => selection,
            Err(e) => {
                return Err(e);
            },
        };
        let count = backend.num_items(&selection);
        assert(call_ensures(B::num_items, (backend, &selection), count));
        let num_items = match count {
            Ok(number) => number,
            Err(failure) => {
                return Err(AsCoreError::from(failure));
            },
        };
        if selection.is_within_reach() {
            let page = backend.fetch_page(&selection);
            assert(call_ensures(B::fetch_page, (backend, &selection), page));
            match page {
                Ok(records) => Ok(UserSearchResult::of(&selection, num_items, records)),
                Err(failure) => Err(AsCoreError::from(failure)),
            }
        } else {
            Ok(UserSearchResult::of(&selection, num_items, Vec::new()))
        }
    }

    /// Fetches the record that has `id`, replaces its three fields by those
    /// of `data`, and stores it. Text that is no identifier is a data error
    /// and the backend is not asked; an identifier that no record has is
    /// "not found" and nothing is stored.
    fn update(&self, id: String, data: Model, backend: &B) -> (r: Result<Model, AsCoreError>)
        ensures
            match uuid_value(id@) {
                Some(key) => Self::fetched_and_saved(backend, key, data, r),
                None => r matches Err(e) && malformed(e@),
            },
    {
        let key = match Self::identify(id.as_str()) {
            Ok(key) => key,
            Err(e) => {
                return Err(e);
            },
        };
        let found = backend.find_by_id(key);
        assert(call_ensures(B::find_by_id, (backend, key), found));
        let found = match found {
            Ok(found) => found,
            Err(failure) => {
                return Err(AsCoreError::from(failure));
            },
        };
        let record = match Self::found(found) {
            Ok(record) => record,
            Err(e) => {
                return Err(e);
            },
        };
        let revised = Self::revised(record, &data);
        let ghost handed = revised;
        let answer = backend.update(revised);
        let ghost answered = answer;
        let r = Self::conclude(answer);
        assert(call_ensures(B::update, (backend, handed), answered));
        assert(Self::saved(backend, record, data, r));
        r
    }

    /// Fetches the record that has `id` and removes it. Text that is no
    /// identifier is a data error and the backend is not asked; an
    /// identifier that no record has is "not found".
    fn delete(&self, id: String, backend: &B) -> (r: Result<(), AsCoreError>)
        ensures
            match uuid_value(id@) {
                Some(key) => Self::fetched_and_removed(backend, key, r),
                None => r matches Err(e) && malformed(e@),
            },
    {
        let key = match Self::identify(id.as_str()) {
            Ok(key) => key,
            Err(e) => {
                return Err(e);
            },
        };
        let found = backend.find_by_id(key);
        assert(call_ensures(B::find_by_id, (backend, key), found));
        let found = match found {
            Ok(found) => found,
            Err(failure) => {
                return Err(AsCoreError::from(failure));
            },
        };
        let record = match Self::found(found) {
            Ok(record) => record,
            Err(e) => {
                return Err(e);
            },
        };
        let ghost handed = record;
        let answer = backend.delete(record);
        let ghost answered = answer;
        let r = Self::conclude(answer);
        assert(call_ensures(B::delete, (backend, handed), answered));
        assert(Self::removed(backend, handed, r));
        r
    }
}

} // verus!
