//! The question catalogue that seeds the database.

use vstd::prelude::*;
use crate::model::{Access, Record, RecordModel};
use crate::password::{bcrypt_hash_form, bcrypt_verifies, hash_password, verify_panics};

verus! {

/// The number of questions in the game.
pub const QUESTION_COUNT: usize = 5;

/// The secret parts of a question: its answer, hint and giveaway.
#[derive(Debug)]
pub struct SeedSecret {
    pub answer: String,
    pub hint: String,
    pub giveaway: String,
}

/// The text of the question at `level`.
pub open spec fn question_text(level: int) -> Seq<char> {
    if level == 0 {
        "What is the meaning of life?"@
    } else if level == 1 {
        "What is not the meaning of life?"@
    } else if level == 2 {
        "Who is the best programmer?"@
    } else if level == 3 {
        "Who is the worst programmer?"@
    } else {
        "Who is the best at being offended?"@
    }
}

fn question_text_of(level: usize) -> (s: String)
    requires
        level < QUESTION_COUNT,
    ensures
        s@ == question_text(level as int),
{
    if level == 0 {
        String::from_str("What is the meaning of life?")
    } else if level == 1 {
        String::from_str("What is not the meaning of life?")
    } else if level == 2 {
        String::from_str("Who is the best programmer?")
    } else if level == 3 {
        String::from_str("Who is the worst programmer?")
    } else {
        String::from_str("Who is the best at being offended?")
    }
}

/// The question document at `level`, with its answer stored as `answer_hash`.
pub open spec fn seeded_question(
    level: int,
    answer_hash: Seq<char>,
    hint: Seq<char>,
    giveaway: Seq<char>,
) -> RecordModel {
    RecordModel {
        team_name: Err(Access::NotPresent),
        name: Err(Access::NotPresent),
        password: Err(Access::NotPresent),
        level: Ok(level as i32),
        points: Err(Access::NotPresent),
        hints: Err(Access::NotPresent),
        giveaways: Err(Access::NotPresent),
        question: Ok(question_text(level)),
        answer: Ok(answer_hash),
        hint: Ok(hint),
        giveaway: Ok(giveaway),
    }
}

/// The question documents of the game, one per level from 0, from the
/// secrets of each level; the answers are stored as bcrypt hashes. Hashing
/// does not fail, so neither does this.
pub fn seed(secrets: &Vec<SeedSecret>) -> (r: Result<Vec<Record>, pwhash::error::Error>)
    requires
        secrets@.len() == QUESTION_COUNT,
    ensures
        r is Ok,
        r matches Ok(qs) ==> {
            &&& qs@.len() == QUESTION_COUNT
            &&& forall|i: int|
                0 <= i < QUESTION_COUNT ==> {
                    let q = #[trigger] qs@[i]@;
                    &&& q.answer is Ok
                    &&& q == seeded_question(
                        i,
                        q.answer->Ok_0,
                        secrets@[i].hint@,
                        secrets@[i].giveaway@,
                    )
                    &&& bcrypt_verifies(secrets@[i].answer@, q.answer->Ok_0)
                    &&& !verify_panics(q.answer->Ok_0)
                    &&& bcrypt_hash_form(q.answer->Ok_0)
                }
        },
{
    let mut qs: Vec<Record> = Vec::new();
    let mut i: usize = 0;
    while i < QUESTION_COUNT
        invariant
            0 <= i <= QUESTION_COUNT,
            secrets@.len() == QUESTION_COUNT,
            qs@.len() == i,
            forall|j: int|
                0 <= j < i ==> {
                    let q = #[trigger] qs@[j]@;
                    &&& q.answer is Ok
                    &&& q == seeded_question(
                        j,
                        q.answer->Ok_0,
                        secrets@[j].hint@,
                        secrets@[j].giveaway@,
                    )
                    &&& bcrypt_verifies(secrets@[j].answer@, q.answer->Ok_0)
                    &&& !verify_panics(q.answer->Ok_0)
                    &&& bcrypt_hash_form(q.answer->Ok_0)
                },
        decreases QUESTION_COUNT - i,
    {
        let secret = &secrets[i];
        let hash = match hash_password(secret.answer.as_str()) {
            Ok(h) => h,
            Err(e) => {
                return Err(e);
            },
        };
        let q = Record {
            team_name: Err(Access::NotPresent),
            name: Err(Access::NotPresent),
            password: Err(Access::NotPresent),
            level: Ok(i as i32),
            points: Err(Access::NotPresent),
            hints: Err(Access::NotPresent),
            giveaways: Err(Access::NotPresent),
            question: Ok(question_text_of(i)),
            answer: Ok(hash),
            hint: Ok(secret.hint.clone()),
            giveaway: Ok(secret.giveaway.clone()),
        };
        qs.push(q);
        i = i + 1;
    }
    Ok(qs)
}

} // verus!
