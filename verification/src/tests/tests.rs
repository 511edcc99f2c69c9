//! The test catalog: a named test is an ordered list of requirements,
//! each asking for a number of questions from one category.

use vstd::prelude::*;

use crate::errors::Error;
use crate::errors::ErrorKind;
use crate::permissions::check_to_run;
use crate::permissions::spec_allowed;
use crate::permissions::PermissionStore;

verus! {

/// A row of the test table.
#[derive(Debug, Clone)]
pub struct RawTest {
    pub id: u64,
    pub creator_id: u64,
    pub name: String,
}

/// A row of the requirement table: `number_of_questions` drawn from
/// one category for one test.
#[derive(Debug, Clone, Copy, PartialEq, Eq, Structural)]
pub struct RawTestQuestionCategory {
    pub test_id: u64,
    pub question_category_id: u64,
    pub number_of_questions: u32,
}

/// One requirement of a test, as callers see it.
#[derive(Debug, Clone, Copy, PartialEq, Eq, Structural)]
pub struct TestQuestionCategory {
    pub question_category_id: u64,
    pub number_of_questions: u32,
}

/// A test with its ordered requirements.
#[derive(Debug)]
pub struct Test {
    pub id: u64,
    pub creator_id: u64,
    pub name: String,
    pub questions: Vec<TestQuestionCategory>,
}

/// A test to create; the creator comes from the resolved caller.
#[derive(Debug)]
pub struct NewTest {
    pub name: String,
    pub questions: Vec<TestQuestionCategory>,
}

#[derive(Debug)]
pub struct TestList {
    pub tests: Vec<Test>,
}

/// The typed commands of the test-catalog endpoint.
#[derive(Debug)]
pub enum TestRequest {
    GetTests,
    GetTest(u64),
    CreateTest(NewTest),
    DeleteTest(u64),
}

#[derive(Debug)]
pub enum TestResponse {
    OneTest(Test),
    ManyTests(TestList),
    NoResponse,
}

/// The test and requirement tables with the test id sequence.
pub struct TestStore {
    pub tests: Vec<RawTest>,
    pub test_question_categories: Vec<RawTestQuestionCategory>,
    pub next_test_id: u64,
}

impl TestStore {
    /// Well-formedness: test ids are unique and below the sequence,
    /// and every requirement row names an id the sequence once gave.
    pub open spec fn wf(self) -> bool {
        &&& forall|i: int, j: int|
            0 <= i < j < self.tests@.len() ==> self.tests@[i].id != self.tests@[j].id
        &&& forall|i: int|
            0 <= i < self.tests@.len() ==> #[trigger] self.tests@[i].id < self.next_test_id
        &&& forall|i: int|
            0 <= i < self.test_question_categories@.len()
                ==> #[trigger] self.test_question_categories@[i].test_id < self.next_test_id
    }

    /// The requirements of one test, in table order.
    pub open spec fn spec_requirements_of(self, test_id: u64) -> Seq<TestQuestionCategory> {
        spec_requirements_in(self.test_question_categories@, test_id)
    }
}

/// The requirement rows of `tqcs` that belong to one test, in order.
pub open spec fn spec_requirements_in(tqcs: Seq<RawTestQuestionCategory>, test_id: u64) -> Seq<
    TestQuestionCategory,
>
    decreases tqcs.len(),
{
    if tqcs.len() == 0 {
        Seq::empty()
    } else {
        let rest = spec_requirements_in(tqcs.drop_last(), test_id);
        if tqcs.last().test_id == test_id {
            rest.push(
                TestQuestionCategory {
                    question_category_id: tqcs.last().question_category_id,
                    number_of_questions: tqcs.last().number_of_questions,
                },
            )
        } else {
            rest
        }
    }
}

/// The requirements of one test, in table order.
pub fn requirements_of_test(store: &TestStore, test_id: u64) -> (r: Vec<TestQuestionCategory>)
    ensures
        r@ == store.spec_requirements_of(test_id),
{
    let mut out: Vec<TestQuestionCategory> = Vec::new();
    let mut i: usize = 0;
    while i < store.test_question_categories.len()
        invariant
            0 <= i <= store.test_question_categories@.len(),
            out@ == spec_requirements_in(
                store.test_question_categories@.subrange(0, i as int),
                test_id,
            ),
        decreases store.test_question_categories@.len() - i,
    {
        let ghost prefix = store.test_question_categories@.subrange(0, i as int);
        let ghost prefix1 = store.test_question_categories@.subrange(0, i + 1);
        proof {
            assert(prefix1.drop_last() =~= prefix);
            assert(prefix1.last() == store.test_question_categories@[i as int]);
        }
        let t = &store.test_question_categories[i];
        if t.test_id == test_id {
            out.push(
                TestQuestionCategory {
                    question_category_id: t.question_category_id,
                    number_of_questions: t.number_of_questions,
                },
            );
        }
        i += 1;
    }
    proof {
        assert(store.test_question_categories@.subrange(
            0,
            store.test_question_categories@.len() as int,
        ) =~= store.test_question_categories@);
    }
    out
}

/// What `get_test` reports: the test with its requirements; a test
/// without requirement rows is absent from the inner join and errs.
pub open spec fn get_test_post(s: TestStore, id: u64, r: Result<Test, Error>) -> bool {
    match r {
        Ok(t) => {
            &&& t.id == id
            &&& exists|i: int|
                0 <= i < s.tests@.len() && s.tests@[i].id == id && (#[trigger] s.tests@[i]).creator_id
                    == t.creator_id && s.tests@[i].name@ == t.name@
            &&& t.questions@ == s.spec_requirements_of(id)
            &&& t.questions@.len() > 0
        },
        Err(e) => e.kind == ErrorKind::Database && (s.spec_requirements_of(id).len() == 0 || forall|
            i: int,
        |
            0 <= i < s.tests@.len() ==> s.tests@[i].id != id),
    }
}

/// Load one test and its requirements.
pub fn get_test(id: u64, store: &TestStore) -> (r: Result<Test, Error>)
    ensures
        get_test_post(*store, id, r),
{
    let mut i: usize = 0;
    while i < store.tests.len()
        invariant
            0 <= i <= store.tests@.len(),
            forall|j: int| 0 <= j < i ==> store.tests@[j].id != id,
        decreases store.tests@.len() - i,
    {
        if store.tests[i].id == id {
            let questions = requirements_of_test(store, id);
            if questions.len() == 0 {
                return Err(Error::new(ErrorKind::Database));
            }
            return Ok(
                Test {
                    id,
                    creator_id: store.tests[i].creator_id,
                    name: store.tests[i].name.clone(),
                    questions,
                },
            );
        }
        i += 1;
    }
    Err(Error::new(ErrorKind::Database))
}

/// The ids of the tests that `get_tests` reports: those with at least
/// one requirement row, in table order.
pub open spec fn spec_test_ids_with_reqs(s: TestStore, tests: Seq<RawTest>) -> Seq<u64>
    decreases tests.len(),
{
    if tests.len() == 0 {
        Seq::empty()
    } else {
        let rest = spec_test_ids_with_reqs(s, tests.drop_last());
        if s.spec_requirements_of(tests.last().id).len() > 0 {
            rest.push(tests.last().id)
        } else {
            rest
        }
    }
}

/// What `get_tests` reports: every test that has requirement rows, in
/// table order, each with its requirements.
pub open spec fn get_tests_post(s: TestStore, r: Result<TestList, Error>) -> bool {
    match r {
        Ok(list) => {
            &&& list.tests@.map_values(|t: Test| t.id) == spec_test_ids_with_reqs(s, s.tests@)
            &&& forall|k: int|
                0 <= k < list.tests@.len() ==> {
                    let t = #[trigger] list.tests@[k];
                    &&& exists|i: int|
                        0 <= i < s.tests@.len() && (#[trigger] s.tests@[i]).id == t.id
                            && s.tests@[i].creator_id == t.creator_id && s.tests@[i].name@
                            == t.name@
                    &&& t.questions@ == s.spec_requirements_of(t.id)
                    &&& t.questions@.len() > 0
                }
        },
        Err(_) => false,
    }
}

/// Load every test that has requirements.
pub fn get_tests(store: &TestStore) -> (r: Result<TestList, Error>)
    ensures
        get_tests_post(*store, r),
{
    let mut out: Vec<Test> = Vec::new();
    let mut i: usize = 0;
    while i < store.tests.len()
        invariant
            0 <= i <= store.tests@.len(),
            out@.map_values(|t: Test| t.id) == spec_test_ids_with_reqs(
                *store,
                store.tests@.subrange(0, i as int),
            ),
            forall|k: int|
                0 <= k < out@.len() ==> {
                    let t = #[trigger] out@[k];
                    &&& exists|j: int|
                        0 <= j < store.tests@.len() && (#[trigger] store.tests@[j]).id == t.id
                            && store.tests@[j].creator_id == t.creator_id && store.tests@[j].name@
                            == t.name@
                    &&& t.questions@ == store.spec_requirements_of(t.id)
                    &&& t.questions@.len() > 0
                },
        decreases store.tests@.len() - i,
    {
        let ghost prefix = store.tests@.subrange(0, i as int);
        let ghost prefix1 = store.tests@.subrange(0, i + 1);
        proof {
            assert(prefix1.drop_last() =~= prefix);
            assert(prefix1.last() == store.tests@[i as int]);
        }
        let questions = requirements_of_test(store, store.tests[i].id);
        if questions.len() > 0 {
            let t = Test {
                id: store.tests[i].id,
                creator_id: store.tests[i].creator_id,
                name: store.tests[i].name.clone(),
                questions,
            };
            out.push(t);
            proof {
                assert(out@.map_values(|t: Test| t.id) =~= out@.drop_last().map_values(
                    |t: Test| t.id,
                ).push(out@.last().id));
            }
        }
        i += 1;
    }
    proof {
        assert(store.tests@.subrange(0, store.tests@.len() as int) =~= store.tests@);
    }
    Ok(TestList { tests: out })
}

/// The requirement rows a new test inserts, in order.
pub open spec fn spec_new_tqcs(reqs: Seq<TestQuestionCategory>, test_id: u64) -> Seq<
    RawTestQuestionCategory,
> {
    Seq::new(
        reqs.len(),
        |k: int|
            RawTestQuestionCategory {
                test_id,
                question_category_id: reqs[k].question_category_id,
                number_of_questions: reqs[k].number_of_questions,
            },
    )
}

/// What `create_test` does to the store.
pub open spec fn create_test_post(
    pre: TestStore,
    post: TestStore,
    arg: NewTest,
    requesting_user: Option<u64>,
    r: Result<Test, Error>,
) -> bool {
    match r {
        Ok(t) => {
            &&& requesting_user matches Option::Some(u) && t.creator_id == u
            &&& pre.next_test_id < u64::MAX
            &&& t.id == pre.next_test_id
            &&& t.name@ == arg.name@
            &&& t.questions@ == arg.questions@
            &&& post.tests@.len() == pre.tests@.len() + 1
            &&& post.tests@.drop_last() == pre.tests@
            &&& post.tests@.last().id == pre.next_test_id
            &&& post.tests@.last().creator_id == t.creator_id
            &&& post.tests@.last().name@ == arg.name@
            &&& post.test_question_categories@ == pre.test_question_categories@ + spec_new_tqcs(
                arg.questions@,
                pre.next_test_id,
            )
            &&& post.next_test_id == pre.next_test_id + 1
        },
        Err(e) => {
            &&& post == pre
            &&& (e.kind == ErrorKind::PermissionDenied && requesting_user is None) || (e.kind
                == ErrorKind::Database && requesting_user is Some && pre.next_test_id
                == u64::MAX)
        },
    }
}

/// Create a test owned by the resolved caller, with its requirements.
pub fn create_test(test: NewTest, requesting_user: Option<u64>, store: &mut TestStore) -> (r:
    Result<Test, Error>)
    requires
        old(store).wf(),
    ensures
        final(store).wf(),
        create_test_post(*old(store), *final(store), test, requesting_user, r),
{
    let creator_id = match requesting_user {
        Some(u) => u,
        None => {
            return Err(Error::new(ErrorKind::PermissionDenied));
        },
    };
    if store.next_test_id == u64::MAX {
        return Err(Error::new(ErrorKind::Database));
    }
    let id = store.next_test_id;
    let ghost pre = *store;
    store.tests.push(RawTest { id, creator_id, name: test.name.clone() });
    store.next_test_id = id + 1;
    let n = test.questions.len();
    let mut k: usize = 0;
    while k < n
        invariant
            0 <= k <= n,
            n == test.questions@.len(),
            pre.wf(),
            id == pre.next_test_id,
            id < u64::MAX,
            store.tests@ == pre.tests@.push(store.tests@.last()),
            store.tests@.last().id == id,
            store.tests@.last().creator_id == creator_id,
            store.tests@.last().name@ == test.name@,
            store.next_test_id == id + 1,
            store.test_question_categories@ == pre.test_question_categories@ + spec_new_tqcs(
                test.questions@,
                id,
            ).subrange(0, k as int),
            store.wf(),
        decreases n - k,
    {
        let q = &test.questions[k];
        store.test_question_categories.push(
            RawTestQuestionCategory {
                test_id: id,
                question_category_id: q.question_category_id,
                number_of_questions: q.number_of_questions,
            },
        );
        proof {
            let all = spec_new_tqcs(test.questions@, id);
            assert(all.subrange(0, k + 1) =~= all.subrange(0, k as int).push(all[k as int]));
            assert(store.test_question_categories@ =~= pre.test_question_categories@
                + all.subrange(0, k + 1));
        }
        k += 1;
    }
    proof {
        let all = spec_new_tqcs(test.questions@, id);
        assert(all.subrange(0, all.len() as int) =~= all);
        assert(store.tests@.drop_last() =~= pre.tests@);
    }
    let mut questions: Vec<TestQuestionCategory> = Vec::new();
    let mut k: usize = 0;
    while k < n
        invariant
            0 <= k <= n,
            n == test.questions@.len(),
            questions@ == test.questions@.subrange(0, k as int),
        decreases n - k,
    {
        questions.push(test.questions[k]);
        proof {
            assert(questions@ =~= test.questions@.subrange(0, k + 1));
        }
        k += 1;
    }
    proof {
        assert(questions@ =~= test.questions@);
    }
    Ok(Test { id, creator_id, name: test.name, questions })
}

/// What `delete_test` does to the store: the test row goes; its
/// requirement rows stay, as the relational delete leaves them.
pub open spec fn delete_test_post(pre: TestStore, post: TestStore, id: u64, r: Result<
    (),
    Error,
>) -> bool {
    &&& post.test_question_categories == pre.test_question_categories
    &&& post.next_test_id == pre.next_test_id
    &&& r is Ok
    &&& if exists|i: int| 0 <= i < pre.tests@.len() && pre.tests@[i].id == id {
        let i = choose|i: int| 0 <= i < pre.tests@.len() && pre.tests@[i].id == id;
        post.tests@ == pre.tests@.remove(i)
    } else {
        post.tests == pre.tests
    }
}

/// Remove a test row; deleting a missing id changes nothing.
pub fn delete_test(id: u64, store: &mut TestStore) -> (r: Result<(), Error>)
    requires
        old(store).wf(),
    ensures
        final(store).wf(),
        delete_test_post(*old(store), *final(store), id, r),
{
    let mut i: usize = 0;
    while i < store.tests.len()
        invariant
            *store == *old(store),
            old(store).wf(),
            0 <= i <= store.tests@.len(),
            forall|j: int| 0 <= j < i ==> store.tests@[j].id != id,
        decreases store.tests@.len() - i,
    {
        if store.tests[i].id == id {
            store.tests.remove(i);
            proof {
                let ghost pre = old(store).tests@;
                let j = choose|j: int| 0 <= j < pre.len() && pre[j].id == id;
                assert(j == i);
            }
            return Ok(());
        }
        i += 1;
    }
    Ok(())
}

/// Dispatch a test-catalog command behind the test capabilities.
pub fn handle_test(
    request: TestRequest,
    requested_user: Option<u64>,
    permissions: &PermissionStore,
    store: &mut TestStore,
) -> (r: Result<TestResponse, Error>)
    requires
        old(store).wf(),
    ensures
        final(store).wf(),
        match request {
            TestRequest::GetTests => {
                &&& !spec_allowed(*permissions, requested_user, "GetTests"@) ==> (r matches Err(e)
                    && e.kind == ErrorKind::PermissionDenied && *final(store) == *old(store))
                &&& spec_allowed(*permissions, requested_user, "GetTests"@) ==> (*final(store)
                    == *old(store) && match r {
                    Ok(TestResponse::ManyTests(list)) => get_tests_post(*old(store), Ok(list)),
                    _ => false,
                })
            },
            TestRequest::GetTest(id) => {
                &&& !spec_allowed(*permissions, requested_user, "GetTests"@) ==> (r matches Err(e)
                    && e.kind == ErrorKind::PermissionDenied && *final(store) == *old(store))
                &&& spec_allowed(*permissions, requested_user, "GetTests"@) ==> (*final(store)
                    == *old(store) && match r {
                    Ok(TestResponse::OneTest(t)) => get_test_post(*old(store), id, Ok(t)),
                    Err(e) => get_test_post(*old(store), id, Err(e)),
                    Ok(_) => false,
                })
            },
            TestRequest::CreateTest(arg) => {
                &&& !spec_allowed(*permissions, requested_user, "CreateTests"@) ==> (r matches Err(
                e,
                ) && e.kind == ErrorKind::PermissionDenied && *final(store) == *old(store))
                &&& spec_allowed(*permissions, requested_user, "CreateTests"@) ==> (match r {
                    Ok(TestResponse::OneTest(t)) => create_test_post(
                        *old(store),
                        *final(store),
                        arg,
                        requested_user,
                        Ok(t),
                    ),
                    Err(e) => create_test_post(
                        *old(store),
                        *final(store),
                        arg,
                        requested_user,
                        Err(e),
                    ),
                    Ok(_) => false,
                })
            },
            TestRequest::DeleteTest(id) => {
                &&& !spec_allowed(*permissions, requested_user, "DeleteTests"@) ==> (r matches Err(
                e,
                ) && e.kind == ErrorKind::PermissionDenied && *final(store) == *old(store))
                &&& spec_allowed(*permissions, requested_user, "DeleteTests"@) ==> (match r {
                    Ok(TestResponse::NoResponse) => delete_test_post(
                        *old(store),
                        *final(store),
                        id,
                        Ok(()),
                    ),
                    Err(e) => delete_test_post(*old(store), *final(store), id, Err(e)),
                    Ok(_) => false,
                })
            },
        },
{
    match request {
        TestRequest::GetTests => {
            check_to_run(requested_user, "GetTests", permissions)?;
            match get_tests(store) {
                Ok(list) => Ok(TestResponse::ManyTests(list)),
                Err(e) => Err(e),
            }
        },
        TestRequest::GetTest(id) => {
            check_to_run(requested_user, "GetTests", permissions)?;
            match get_test(id, store) {
                Ok(t) => Ok(TestResponse::OneTest(t)),
                Err(e) => Err(e),
            }
        },
        TestRequest::CreateTest(arg) => {
            check_to_run(requested_user, "CreateTests", permissions)?;
            match create_test(arg, requested_user, store) {
                Ok(t) => Ok(TestResponse::OneTest(t)),
                Err(e) => Err(e),
            }
        },
        TestRequest::DeleteTest(id) => {
            check_to_run(requested_user, "DeleteTests", permissions)?;
            match delete_test(id, store) {
                Ok(()) => Ok(TestResponse::NoResponse),
                Err(e) => Err(e),
            }
        },
    }
}

} // verus!
