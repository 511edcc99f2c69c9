//! Question categories: the pools the exam engine samples from.
//!
//! The module also owns `QuestionStore`, the in-memory image of the
//! category and question tables that the whole assessment subsystem
//! reads and writes.

use vstd::prelude::*;

use crate::errors::Error;
use crate::errors::ErrorKind;
use crate::permissions::check_to_run;
use crate::permissions::spec_allowed;
use crate::permissions::PermissionStore;
use crate::tests::questions::clone_question;
use crate::tests::questions::NewQuestion;
use crate::tests::questions::Question;

verus! {

/// A row of the category table.
#[derive(Debug, Clone)]
pub struct RawQuestionCategory {
    pub id: u64,
    pub title: String,
}

/// A category together with every question in it.
#[derive(Debug)]
pub struct QuestionCategory {
    pub id: u64,
    pub title: String,
    pub questions: Vec<Question>,
}

/// A category to create together with its initial questions.
#[derive(Debug)]
pub struct NewQuestionCategory {
    pub title: String,
    pub questions: Vec<NewQuestion>,
}

#[derive(Debug)]
pub struct QuestionCategoryList {
    pub question_categories: Vec<QuestionCategory>,
}

/// The typed commands of the category endpoint.
#[derive(Debug)]
pub enum QuestionCategoryRequest {
    GetQuestionCategories,
    GetQuestionCategory(u64),
    CreateQuestionCategory(NewQuestionCategory),
    DeleteQuestionCategory(u64),
}

#[derive(Debug)]
pub enum QuestionCategoryResponse {
    OneQuestionCategory(QuestionCategory),
    ManyQuestionCategories(QuestionCategoryList),
    NoResponse,
}

/// The category and question tables with their id sequences.
pub struct QuestionStore {
    pub categories: Vec<RawQuestionCategory>,
    pub questions: Vec<Question>,
    pub next_category_id: u64,
    pub next_question_id: u64,
}

impl QuestionStore {
    /// Well-formedness: ids are unique and below their sequences.
    pub open spec fn wf(self) -> bool {
        &&& forall|i: int, j: int|
            0 <= i < j < self.categories@.len() ==> self.categories@[i].id
                != self.categories@[j].id
        &&& forall|i: int|
            0 <= i < self.categories@.len() ==> #[trigger] self.categories@[i].id
                < self.next_category_id
        &&& forall|i: int, j: int|
            0 <= i < j < self.questions@.len() ==> self.questions@[i].id != self.questions@[j].id
        &&& forall|i: int|
            0 <= i < self.questions@.len() ==> #[trigger] self.questions@[i].id
                < self.next_question_id
    }

    /// The questions of one category, in table order.
    pub open spec fn spec_questions_of(self, category_id: u64) -> Seq<Question> {
        spec_questions_in(self.questions@, category_id)
    }
}

/// The questions of `questions` that belong to one category, in order.
pub open spec fn spec_questions_in(questions: Seq<Question>, category_id: u64) -> Seq<Question>
    decreases questions.len(),
{
    if questions.len() == 0 {
        Seq::empty()
    } else {
        let rest = spec_questions_in(questions.drop_last(), category_id);
        if questions.last().category_id == category_id {
            rest.push(questions.last())
        } else {
            rest
        }
    }
}

/// The questions of one category, cloned, in table order.
pub fn questions_of_category(store: &QuestionStore, category_id: u64) -> (r: Vec<Question>)
    ensures
        r@ == store.spec_questions_of(category_id),
{
    let mut out: Vec<Question> = Vec::new();
    let mut i: usize = 0;
    while i < store.questions.len()
        invariant
            0 <= i <= store.questions@.len(),
            out@ == spec_questions_in(store.questions@.subrange(0, i as int), category_id),
        decreases store.questions@.len() - i,
    {
        let ghost prefix = store.questions@.subrange(0, i as int);
        let ghost prefix1 = store.questions@.subrange(0, i + 1);
        proof {
            assert(prefix1.drop_last() =~= prefix);
            assert(prefix1.last() == store.questions@[i as int]);
        }
        if store.questions[i].category_id == category_id {
            out.push(clone_question(&store.questions[i]));
        }
        i += 1;
    }
    proof {
        assert(store.questions@.subrange(0, store.questions@.len() as int)
            =~= store.questions@);
    }
    out
}

/// What `get_question_category` reports: the category with that id and
/// every question in it, or the store error a join without rows gives.
pub open spec fn get_question_category_post(s: QuestionStore, id: u64, r: Result<
    QuestionCategory,
    Error,
>) -> bool {
    match r {
        Ok(cat) => {
            &&& cat.id == id
            &&& exists|i: int|
                0 <= i < s.categories@.len() && s.categories@[i].id == id
                    && #[trigger] s.categories@[i].title@ == cat.title@
            &&& cat.questions@ == s.spec_questions_of(id)
        },
        Err(e) => e.kind == ErrorKind::Database && forall|i: int|
            0 <= i < s.categories@.len() ==> s.categories@[i].id != id,
    }
}

/// Load one category with its questions.
pub fn get_question_category(id: u64, store: &QuestionStore) -> (r: Result<
    QuestionCategory,
    Error,
>)
    ensures
        get_question_category_post(*store, id, r),
{
    let mut i: usize = 0;
    while i < store.categories.len()
        invariant
            0 <= i <= store.categories@.len(),
            forall|j: int| 0 <= j < i ==> store.categories@[j].id != id,
        decreases store.categories@.len() - i,
    {
        if store.categories[i].id == id {
            let questions = questions_of_category(store, id);
            let title = store.categories[i].title.clone();
            proof {
                assert(store.categories@[i as int].id == id && store.categories@[i as int].title@
                    == title@);
            }
            return Ok(QuestionCategory { id, title, questions });
        }
        i += 1;
    }
    Err(Error::new(ErrorKind::Database))
}

/// What `get_question_categories` reports: every category, in table
/// order, each with its questions.
pub open spec fn get_question_categories_post(s: QuestionStore, r: Result<
    QuestionCategoryList,
    Error,
>) -> bool {
    match r {
        Ok(list) => {
            &&& list.question_categories@.len() == s.categories@.len()
            &&& forall|k: int|
                0 <= k < s.categories@.len() ==> {
                    &&& (#[trigger] list.question_categories@[k]).id == s.categories@[k].id
                    &&& list.question_categories@[k].title@ == s.categories@[k].title@
                    &&& list.question_categories@[k].questions@ == s.spec_questions_of(
                        s.categories@[k].id,
                    )
                }
        },
        Err(_) => false,
    }
}

/// Load every category with its questions.
pub fn get_question_categories(store: &QuestionStore) -> (r: Result<QuestionCategoryList, Error>)
    ensures
        get_question_categories_post(*store, r),
{
    let mut out: Vec<QuestionCategory> = Vec::new();
    let mut i: usize = 0;
    while i < store.categories.len()
        invariant
            0 <= i <= store.categories@.len(),
            out@.len() == i,
            forall|k: int|
                0 <= k < i ==> {
                    &&& (#[trigger] out@[k]).id == store.categories@[k].id
                    &&& out@[k].title@ == store.categories@[k].title@
                    &&& out@[k].questions@ == store.spec_questions_of(store.categories@[k].id)
                },
        decreases store.categories@.len() - i,
    {
        let questions = questions_of_category(store, store.categories[i].id);
        out.push(
            QuestionCategory {
                id: store.categories[i].id,
                title: store.categories[i].title.clone(),
                questions,
            },
        );
        i += 1;
    }
    Ok(QuestionCategoryList { question_categories: out })
}

/// The question rows a fresh category gets: the new questions in
/// order, with ids assigned in sequence from `base`.
pub open spec fn spec_new_questions(news: Seq<NewQuestion>, category_id: u64, base: u64) -> Seq<
    Question,
> {
    Seq::new(
        news.len(),
        |k: int|
            Question {
                id: (base + k) as u64,
                category_id,
                title: news[k].title,
                correct_answer: news[k].correct_answer,
                incorrect_answer_1: news[k].incorrect_answer_1,
                incorrect_answer_2: news[k].incorrect_answer_2,
                incorrect_answer_3: news[k].incorrect_answer_3,
            },
    )
}

/// What `create_question_category` does to the store.
pub open spec fn create_question_category_post(
    pre: QuestionStore,
    post: QuestionStore,
    arg: NewQuestionCategory,
    r: Result<QuestionCategory, Error>,
) -> bool {
    match r {
        Ok(cat) => {
            &&& pre.next_category_id < u64::MAX
            &&& arg.questions@.len() <= u64::MAX - pre.next_question_id
            &&& post.categories@.len() == pre.categories@.len() + 1
            &&& post.categories@.drop_last() == pre.categories@
            &&& post.categories@.last().id == pre.next_category_id
            &&& post.categories@.last().title@ == arg.title@
            &&& post.next_category_id == pre.next_category_id + 1
            &&& post.questions@ == pre.questions@ + spec_new_questions(
                arg.questions@,
                pre.next_category_id,
                pre.next_question_id,
            )
            &&& post.next_question_id == pre.next_question_id + arg.questions@.len()
            &&& cat.id == pre.next_category_id
            &&& cat.title@ == arg.title@
            &&& cat.questions@ == spec_new_questions(
                arg.questions@,
                pre.next_category_id,
                pre.next_question_id,
            )
        },
        Err(e) => {
            &&& e.kind == ErrorKind::Database
            &&& pre.next_category_id == u64::MAX || arg.questions@.len() > u64::MAX
                - pre.next_question_id
            &&& post == pre
        },
    }
}

/// Create a category and insert its initial questions under fresh ids.
pub fn create_question_category(
    question_category: NewQuestionCategory,
    store: &mut QuestionStore,
) -> (r: Result<QuestionCategory, Error>)
    requires
        old(store).wf(),
    ensures
        final(store).wf(),
        create_question_category_post(*old(store), *final(store), question_category, r),
{
    if store.next_category_id == u64::MAX {
        return Err(Error::new(ErrorKind::Database));
    }
    let n_questions = question_category.questions.len();
    if n_questions as u64 > u64::MAX - store.next_question_id {
        return Err(Error::new(ErrorKind::Database));
    }
    let category_id = store.next_category_id;
    let ghost base = store.next_question_id;
    let ghost pre = *store;
    store.categories.push(
        RawQuestionCategory { id: category_id, title: question_category.title.clone() },
    );
    store.next_category_id = category_id + 1;
    let mut inserted: Vec<Question> = Vec::new();
    let mut k: usize = 0;
    while k < n_questions
        invariant
            0 <= k <= n_questions,
            n_questions == question_category.questions@.len(),
            n_questions as u64 <= u64::MAX - base,
            pre.wf(),
            base == pre.next_question_id,
            category_id == pre.next_category_id,
            category_id < u64::MAX,
            store.categories@ == pre.categories@.push(store.categories@.last()),
            store.categories@.last().id == category_id,
            store.categories@.last().title@ == question_category.title@,
            store.next_category_id == category_id + 1,
            store.questions@ == pre.questions@ + spec_new_questions(
                question_category.questions@,
                category_id,
                base,
            ).subrange(0, k as int),
            inserted@ == spec_new_questions(
                question_category.questions@,
                category_id,
                base,
            ).subrange(0, k as int),
            store.next_question_id == base + k,
            store.wf(),
        decreases n_questions - k,
    {
        let q = &question_category.questions[k];
        let row = Question {
            id: store.next_question_id,
            category_id,
            title: q.title.clone(),
            correct_answer: q.correct_answer.clone(),
            incorrect_answer_1: q.incorrect_answer_1.clone(),
            incorrect_answer_2: q.incorrect_answer_2.clone(),
            incorrect_answer_3: q.incorrect_answer_3.clone(),
        };
        let copy = clone_question(&row);
        store.questions.push(row);
        store.next_question_id = store.next_question_id + 1;
        inserted.push(copy);
        proof {
            let all = spec_new_questions(question_category.questions@, category_id, base);
            assert(all[k as int] == Question {
                id: (base + k) as u64,
                category_id,
                title: question_category.questions@[k as int].title,
                correct_answer: question_category.questions@[k as int].correct_answer,
                incorrect_answer_1: question_category.questions@[k as int].incorrect_answer_1,
                incorrect_answer_2: question_category.questions@[k as int].incorrect_answer_2,
                incorrect_answer_3: question_category.questions@[k as int].incorrect_answer_3,
            });
            assert(all.subrange(0, k + 1) =~= all.subrange(0, k as int).push(all[k as int]));
            assert(store.questions@ =~= pre.questions@ + all.subrange(0, k + 1));
            assert(inserted@ =~= all.subrange(0, k + 1));
        }
        k += 1;
    }
    proof {
        let all = spec_new_questions(question_category.questions@, category_id, base);
        assert(all.subrange(0, all.len() as int) =~= all);
        assert(store.categories@.drop_last() =~= pre.categories@);
    }
    Ok(QuestionCategory { id: category_id, title: question_category.title, questions: inserted })
}

/// What `delete_question_category` does to the store: the category row
/// goes; its questions stay, as the relational delete leaves them.
pub open spec fn delete_question_category_post(
    pre: QuestionStore,
    post: QuestionStore,
    id: u64,
    r: Result<(), Error>,
) -> bool {
    &&& post.questions == pre.questions
    &&& post.next_category_id == pre.next_category_id
    &&& post.next_question_id == pre.next_question_id
    &&& r is Ok
    &&& if exists|i: int| 0 <= i < pre.categories@.len() && pre.categories@[i].id == id {
        let i = choose|i: int| 0 <= i < pre.categories@.len() && pre.categories@[i].id == id;
        post.categories@ == pre.categories@.remove(i)
    } else {
        post.categories == pre.categories
    }
}

/// Remove a category row; deleting a missing id changes nothing.
pub fn delete_question_category(id: u64, store: &mut QuestionStore) -> (r: Result<(), Error>)
    requires
        old(store).wf(),
    ensures
        final(store).wf(),
        delete_question_category_post(*old(store), *final(store), id, r),
{
    let mut i: usize = 0;
    while i < store.categories.len()
        invariant
            *store == *old(store),
            old(store).wf(),
            0 <= i <= store.categories@.len(),
            forall|j: int| 0 <= j < i ==> store.categories@[j].id != id,
        decreases store.categories@.len() - i,
    {
        if store.categories[i].id == id {
            store.categories.remove(i);
            proof {
                let ghost pre = old(store).categories@;
                let j = choose|j: int| 0 <= j < pre.len() && pre[j].id == id;
                assert(j == i);
            }
            return Ok(());
        }
        i += 1;
    }
    Ok(())
}

/// Dispatch a category command behind the category capabilities.
pub fn handle_question_category(
    request: QuestionCategoryRequest,
    requested_user: Option<u64>,
    permissions: &PermissionStore,
    store: &mut QuestionStore,
) -> (r: Result<QuestionCategoryResponse, Error>)
    requires
        old(store).wf(),
    ensures
        final(store).wf(),
        match request {
            QuestionCategoryRequest::GetQuestionCategories => {
                &&& !spec_allowed(*permissions, requested_user, "GetQuestionCategories"@) ==> (
                r matches Err(e) && e.kind == ErrorKind::PermissionDenied && *final(store) == *old(
                    store,
                ))
                &&& spec_allowed(*permissions, requested_user, "GetQuestionCategories"@) ==> (
                *final(store) == *old(store) && match r {
                    Ok(QuestionCategoryResponse::ManyQuestionCategories(list)) =>
                        get_question_categories_post(*old(store), Ok(list)),
                    _ => false,
                })
            },
            QuestionCategoryRequest::GetQuestionCategory(id) => {
                &&& !spec_allowed(*permissions, requested_user, "GetQuestionCategories"@) ==> (
                r matches Err(e) && e.kind == ErrorKind::PermissionDenied && *final(store) == *old(
                    store,
                ))
                &&& spec_allowed(*permissions, requested_user, "GetQuestionCategories"@) ==> (
                *final(store) == *old(store) && match r {
                    Ok(QuestionCategoryResponse::OneQuestionCategory(cat)) =>
                        get_question_category_post(*old(store), id, Ok(cat)),
                    Err(e) => get_question_category_post(*old(store), id, Err(e)),
                    Ok(_) => false,
                })
            },
            QuestionCategoryRequest::CreateQuestionCategory(arg) => {
                &&& !spec_allowed(*permissions, requested_user, "CreateQuestionCategories"@) ==> (
                r matches Err(e) && e.kind == ErrorKind::PermissionDenied && *final(store) == *old(
                    store,
                ))
                &&& spec_allowed(*permissions, requested_user, "CreateQuestionCategories"@) ==> (
                match r {
                    Ok(QuestionCategoryResponse::OneQuestionCategory(cat)) =>
                        create_question_category_post(*old(store), *final(store), arg, Ok(cat)),
                    Err(e) => create_question_category_post(
                        *old(store),
                        *final(store),
                        arg,
                        Err(e),
                    ),
                    Ok(_) => false,
                })
            },
            QuestionCategoryRequest::DeleteQuestionCategory(id) => {
                &&& !spec_allowed(*permissions, requested_user, "DeleteQuestionCategories"@) ==> (
                r matches Err(e) && e.kind == ErrorKind::PermissionDenied && *final(store) == *old(
                    store,
                ))
                &&& spec_allowed(*permissions, requested_user, "DeleteQuestionCategories"@) ==> (
                match r {
                    Ok(QuestionCategoryResponse::NoResponse) => delete_question_category_post(
                        *old(store),
                        *final(store),
                        id,
                        Ok(()),
                    ),
                    Err(e) => delete_question_category_post(
                        *old(store),
                        *final(store),
                        id,
                        Err(e),
                    ),
                    Ok(_) => false,
                })
            },
        },
{
    match request {
        QuestionCategoryRequest::GetQuestionCategories => {
            check_to_run(requested_user, "GetQuestionCategories", permissions)?;
            match get_question_categories(store) {
                Ok(list) => Ok(QuestionCategoryResponse::ManyQuestionCategories(list)),
                Err(e) => Err(e),
            }
        },
        QuestionCategoryRequest::GetQuestionCategory(id) => {
            check_to_run(requested_user, "GetQuestionCategories", permissions)?;
            match get_question_category(id, store) {
                Ok(cat) => Ok(QuestionCategoryResponse::OneQuestionCategory(cat)),
                Err(e) => Err(e),
            }
        },
        QuestionCategoryRequest::CreateQuestionCategory(arg) => {
            check_to_run(requested_user, "CreateQuestionCategories", permissions)?;
            match create_question_category(arg, store) {
                Ok(cat) => Ok(QuestionCategoryResponse::OneQuestionCategory(cat)),
                Err(e) => Err(e),
            }
        },
        QuestionCategoryRequest::DeleteQuestionCategory(id) => {
            check_to_run(requested_user, "DeleteQuestionCategories", permissions)?;
            match delete_question_category(id, store) {
                Ok(()) => Ok(QuestionCategoryResponse::NoResponse),
                Err(e) => Err(e),
            }
        },
    }
}


/// The questions of one category: pairwise distinct ids and all drawn
/// from the bank, provided the bank's ids are unique.
pub proof fn lemma_questions_in_distinct(questions: Seq<Question>, category_id: u64)
    requires
        forall|i: int, j: int| 0 <= i < j < questions.len() ==> questions[i].id != questions[j].id,
    ensures
        forall|a: int, b: int|
            0 <= a < b < spec_questions_in(questions, category_id).len() ==> spec_questions_in(
                questions,
                category_id,
            )[a].id != spec_questions_in(questions, category_id)[b].id,
        forall|a: int|
            0 <= a < spec_questions_in(questions, category_id).len() ==> questions.contains(
                #[trigger] spec_questions_in(questions, category_id)[a],
            ),
    decreases questions.len(),
{
    if questions.len() > 0 {
        let butlast = questions.drop_last();
        lemma_questions_in_distinct(butlast, category_id);
        let rest = spec_questions_in(butlast, category_id);
        assert forall|a: int| 0 <= a < rest.len() implies questions.contains(
            #[trigger] rest[a],
        ) by {
            assert(butlast.contains(rest[a]));
            let i = choose|i: int| 0 <= i < butlast.len() && butlast[i] == rest[a];
            assert(questions[i] == rest[a]);
        }
        if questions.last().category_id == category_id {
            assert(questions.contains(questions.last())) by {
                assert(questions[questions.len() - 1] == questions.last());
            }
            assert forall|a: int| 0 <= a < rest.len() implies rest[a].id
                != questions.last().id by {
                assert(butlast.contains(rest[a]));
                let i = choose|i: int| 0 <= i < butlast.len() && butlast[i] == rest[a];
                assert(questions[i] == rest[a]);
            }
        }
    }
}

} // verus!
