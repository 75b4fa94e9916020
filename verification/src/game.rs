//! The game: showing the team's question, answering it, and paying for hints
//! and giveaways.

use vstd::prelude::*;
use crate::clock::now_millis;
use crate::flow::{
    both, index_panic, index_panic_text, level_or_zero, login_status, logged_in, only,
    points_or_zero, stored, tell, tell_quietly, team_chain_next, told, told_quietly, Chain,
    ChainModel, TeamChain,
};
use crate::model::{
    copy_levels, expect_panic, expect_panic_text, Access, CommandError, CommandErrorModel, Effect, EffectModel, HelpKind, Lookup, LookupModel, Policy,
    Query, QueryModel, Record, RecordModel, Reply, ReplyModel, Step, StepModel, Write, WriteModel,
};
use crate::password::{
    bcrypt_verifies, has_bcrypt_setup, verify_panic_message, verify_panic_text, verify_panics, verify_password,
    verify_would_panic,
};
use crate::text::{render_signed, signed_decimal};

verus! {

/// The level a team reaches by answering the last question: the game has
/// five questions, at levels 0 to 4.
pub const FINAL_LEVEL: i32 = 5;

/// Points won by a correct answer.
pub const ANSWER_REWARD: i32 = 1000;

/// Points that a hint or a giveaway costs.
pub const HELP_COST: i32 = 100;

/// The reply to a command that needs a team login.
pub open spec fn not_logged_in() -> Seq<char> {
    "Not Logged In With A Team"@
}

fn not_logged_in_text() -> (s: String)
    ensures
        s@ == not_logged_in(),
{
    String::from_str("Not Logged In With A Team")
}

/// The message of the panic on an integer overflow in an addition.
pub open spec fn add_overflow() -> Seq<char> {
    "attempt to add with overflow"@
}

/// The message of the panic on an integer overflow in a subtraction.
pub open spec fn sub_overflow() -> Seq<char> {
    "attempt to subtract with overflow"@
}

/// The message of the panic where a team document has no readable name.
pub open spec fn no_team_name(e: Access) -> Seq<char> {
    expect_panic("LOL"@, e)
}

// ---------------------------------------------------------------- get_question

/// The states of `get_question`.
#[derive(Debug)]
pub enum GetQuestion {
    /// Waiting for the author's user documents, to check the login.
    Gate { author: String },
    /// Following the author to their team's questions.
    Chain(TeamChain),
}

pub enum GetQuestionModel {
    Gate { author: Seq<char> },
    Chain(TeamChain),
}

impl View for GetQuestion {
    type V = GetQuestionModel;

    open spec fn view(&self) -> GetQuestionModel {
        match self {
            GetQuestion::Gate { author } => GetQuestionModel::Gate { author: author@ },
            GetQuestion::Chain(c) => GetQuestionModel::Chain(*c),
        }
    }
}

/// The card that shows a question document.
pub open spec fn question_card(q: RecordModel) -> EffectModel {
    EffectModel::Send(
        ReplyModel::QuestionCard {
            title: "Question "@ + signed_decimal(level_or_zero(q) as int) + ": "@,
            description: match q.question {
                Ok(t) => t,
                Err(_) => "Could Not Find Question"@,
            },
        },
        Policy::Propagate,
    )
}

/// The next step of `get_question`.
pub open spec fn get_question_next(s: GetQuestionModel, l: LookupModel) -> StepModel<
    GetQuestionModel,
> {
    match s {
        GetQuestionModel::Gate { author } => match login_status(l) {
            Err(e) => StepModel::Crash(expect_panic("could not find name"@, e)),
            Ok(false) => StepModel::Done(seq![told(not_logged_in())]),
            Ok(true) => StepModel::Fetch(
                GetQuestionModel::Chain(TeamChain::AwaitUser { questions: true }),
                QueryModel::UserByName(author),
            ),
        },
        GetQuestionModel::Chain(c) => match team_chain_next(c, l) {
            ChainModel::Fetch(c2, q) => StepModel::Fetch(GetQuestionModel::Chain(c2), q),
            ChainModel::Fail(e) => StepModel::Fail(e),
            ChainModel::Crash(m) => StepModel::Crash(m),
            ChainModel::Found(qs) => if qs.len() == 0 {
                StepModel::Crash(index_panic())
            } else {
                StepModel::Done(seq![question_card(qs[0])])
            },
        },
    }
}

/// Starts `get_question` for the chat user `author`: it checks the login.
pub fn get_question(author: String) -> (s: Step<GetQuestion>)
    ensures
        s@ == StepModel::Fetch(
            GetQuestionModel::Gate { author: author@ },
            QueryModel::UserByName(author@),
        ),
{
    let query = Query::UserByName(author.clone());
    Step::Fetch(GetQuestion::Gate { author }, query)
}

fn show_question(q: &Record) -> (e: Effect)
    ensures
        e@ == question_card(q@),
{
    let level = match q.level {
        Ok(l) => l,
        Err(_) => 0,
    };
    let title = String::from_str("Question ").concat(render_signed(level as i64).as_str()).concat(
        ": ",
    );
    let description = match &q.question {
        Ok(t) => t.clone(),
        Err(_) => String::from_str("Could Not Find Question"),
    };
    Effect::Send(Reply::QuestionCard { title, description }, Policy::Propagate)
}

impl GetQuestion {
    /// Takes the result of the lookup that the last step asked for.
    pub fn resume(self, l: Lookup) -> (r: Step<GetQuestion>)
        ensures
            r@ == get_question_next(self@, l@),
    {
        match self {
            GetQuestion::Gate { author } => match logged_in(&l) {
                Err(e) => Step::Crash(expect_panic_text("could not find name", e)),
                Ok(false) => only(tell(not_logged_in_text())),
                Ok(true) => Step::Fetch(
                    GetQuestion::Chain(TeamChain::AwaitUser { questions: true }),
                    Query::UserByName(author),
                ),
            },
            GetQuestion::Chain(c) => match c.resume(l) {
                Chain::Fetch(c2, q) => Step::Fetch(GetQuestion::Chain(c2), q),
                Chain::Fail(e) => Step::Fail(e),
                Chain::Crash(m) => Step::Crash(m),
                Chain::Found(qs) => {
                    if qs.len() == 0 {
                        Step::Crash(index_panic_text())
                    } else {
                        only(show_question(&qs[0]))
                    }
                },
            },
        }
    }
}


// ---------------------------------------------------------------- answer

/// The states of `answer`.
#[derive(Debug)]
pub enum Answer {
    /// Waiting for the author's user documents, to check the login.
    Gate { author: String, guess: String },
    /// Following the author to their team.
    Team { guess: String, chain: TeamChain },
    /// Waiting for the questions of the team's level.
    Questions { guess: String, team: Record },
}

pub enum AnswerModel {
    Gate { author: Seq<char>, guess: Seq<char> },
    Team { guess: Seq<char>, chain: TeamChain },
    Questions { guess: Seq<char>, team: RecordModel },
}

impl View for Answer {
    type V = AnswerModel;

    open spec fn view(&self) -> AnswerModel {
        match self {
            Answer::Gate { author, guess } => AnswerModel::Gate { author: author@, guess: guess@ },
            Answer::Team { guess, chain } => AnswerModel::Team { guess: guess@, chain: *chain },
            Answer::Questions { guess, team } => AnswerModel::Questions {
                guess: guess@,
                team: team@,
            },
        }
    }
}

/// The message to a team promoted to `level`.
pub open spec fn promotion_message(level: int) -> Seq<char> {
    if level == FINAL_LEVEL {
        "Congrats! You have completed the game"@
    } else {
        "Correct Answer. Promoted to level "@ + signed_decimal(level)
    }
}

/// The end of a correct answer by `team`, at clock reading `now`: the team
/// goes one level up and wins the reward.
pub open spec fn promotion(team: RecordModel, now: i64) -> StepModel<AnswerModel> {
    let level = level_or_zero(team);
    let points = points_or_zero(team);
    match team.name {
        Err(e) => StepModel::Crash(no_team_name(e)),
        Ok(name) => if level + 1 > i32::MAX || points + ANSWER_REWARD > i32::MAX {
            StepModel::Crash(add_overflow())
        } else {
            StepModel::Done(
                seq![
                    stored(
                        WriteModel::Promote {
                            team: name,
                            level: (level + 1) as i32,
                            points: (points + ANSWER_REWARD) as i32,
                            last_updated: now,
                        },
                    ),
                    told(promotion_message(level + 1)),
                ],
            )
        },
    }
}

/// The stored answer hash of a question document, or the empty string.
pub open spec fn answer_hash(q: RecordModel) -> Seq<char> {
    match q.answer {
        Ok(a) => a,
        Err(_) => seq![],
    }
}

/// The next step of `answer`, with the clock reading taken on a correct answer.
pub open spec fn answer_next(s: AnswerModel, l: LookupModel, now: i64) -> StepModel<AnswerModel> {
    match s {
        AnswerModel::Gate { author, guess } => match login_status(l) {
            Err(e) => StepModel::Crash(expect_panic("could not find name"@, e)),
            Ok(false) => StepModel::Done(seq![told(not_logged_in())]),
            Ok(true) => StepModel::Fetch(
                AnswerModel::Team { guess, chain: TeamChain::AwaitUser { questions: false } },
                QueryModel::UserByName(author),
            ),
        },
        AnswerModel::Team { guess, chain } => match team_chain_next(chain, l) {
            ChainModel::Fetch(c2, q) => StepModel::Fetch(AnswerModel::Team { guess, chain: c2 }, q),
            ChainModel::Fail(e) => StepModel::Fail(e),
            ChainModel::Crash(m) => StepModel::Crash(m),
            ChainModel::Found(teams) => if teams.len() == 0 {
                StepModel::Crash(index_panic())
            } else if level_or_zero(teams[0]) == FINAL_LEVEL {
                StepModel::Done(seq![told_quietly("You have already completed the game"@)])
            } else {
                StepModel::Fetch(
                    AnswerModel::Questions { guess, team: teams[0] },
                    QueryModel::QuestionsAtLevel(level_or_zero(teams[0])),
                )
            },
        },
        AnswerModel::Questions { guess, team } => match l {
            LookupModel::Failed => StepModel::Fail(CommandErrorModel::ReadFailed),
            LookupModel::Found(qs) => if qs.len() == 0 {
                StepModel::Done(seq![told("Invalid Question (Hint: first question is 0)"@)])
            } else if verify_panics(answer_hash(qs[0])) {
                StepModel::Crash(verify_panic_message(answer_hash(qs[0])))
            } else if has_bcrypt_setup(answer_hash(qs[0])) && bcrypt_verifies(
                guess,
                answer_hash(qs[0]),
            ) {
                promotion(team, now)
            } else {
                StepModel::Done(seq![told("Wrong Answer"@)])
            },
        },
    }
}

/// A step of `answer` that the contracts allow: the model's step for some
/// clock reading.
pub open spec fn answer_allows(s: AnswerModel, l: LookupModel, r: StepModel<AnswerModel>) -> bool {
    exists|now: i64| #[trigger] answer_next(s, l, now) == r
}

/// Starts `answer` with the author's guess: it checks the login.
pub fn answer(author: String, guess: String) -> (s: Step<Answer>)
    ensures
        s@ == StepModel::Fetch(
            AnswerModel::Gate { author: author@, guess: guess@ },
            QueryModel::UserByName(author@),
        ),
{
    let query = Query::UserByName(author.clone());
    Step::Fetch(Answer::Gate { author, guess }, query)
}

/// The end of a correct answer by `team`, at clock reading `now`.
pub fn promote(team: &Record, now: i64) -> (r: Step<Answer>)
    ensures
        r@ == promotion(team@, now),
{
    let level = match team.level {
        Ok(l) => l,
        Err(_) => 0,
    };
    let points = match team.points {
        Ok(p) => p,
        Err(_) => 0,
    };
    match &team.name {
        Err(e) => Step::Crash(expect_panic_text("LOL", *e)),
        Ok(name) => {
            if level == i32::MAX || points > i32::MAX - ANSWER_REWARD {
                Step::Crash(String::from_str("attempt to add with overflow"))
            } else {
                let next = level + 1;
                let message = if next == FINAL_LEVEL {
                    String::from_str("Congrats! You have completed the game")
                } else {
                    String::from_str("Correct Answer. Promoted to level ").concat(
                        render_signed(next as i64).as_str(),
                    )
                };
                let write = Write::Promote {
                    team: name.clone(),
                    level: next,
                    points: points + ANSWER_REWARD,
                    last_updated: now,
                };
                both(Effect::Store(write, Policy::Propagate), tell(message))
            }
        },
    }
}

impl Answer {
    /// Takes the result of the lookup that the last step asked for.
    pub fn resume(self, l: Lookup) -> (r: Step<Answer>)
        ensures
            answer_allows(self@, l@, r@),
    {
        let ghost s = self@;
        let ghost lm = l@;
        let r = match self {
            Answer::Gate { author, guess } => match logged_in(&l) {
                Err(e) => Step::Crash(expect_panic_text("could not find name", e)),
                Ok(false) => only(tell(not_logged_in_text())),
                Ok(true) => Step::Fetch(
                    Answer::Team { guess, chain: TeamChain::AwaitUser { questions: false } },
                    Query::UserByName(author),
                ),
            },
            Answer::Team { guess, chain } => match chain.resume(l) {
                Chain::Fetch(c2, q) => Step::Fetch(Answer::Team { guess, chain: c2 }, q),
                Chain::Fail(e) => Step::Fail(e),
                Chain::Crash(m) => Step::Crash(m),
                Chain::Found(mut teams) => {
                    if teams.len() == 0 {
                        Step::Crash(index_panic_text())
                    } else {
                        let ghost first = teams@[0];
                        let team = teams.swap_remove(0);
                        let level = match team.level {
                            Ok(l) => l,
                            Err(_) => 0,
                        };
                        if level == FINAL_LEVEL {
                            only(
                                tell_quietly(String::from_str("You have already completed the game")),
                            )
                        } else {
                            Step::Fetch(
                                Answer::Questions { guess, team },
                                Query::QuestionsAtLevel(level),
                            )
                        }
                    }
                },
            },
            Answer::Questions { guess, team } => match l {
                Lookup::Failed => Step::Fail(CommandError::ReadFailed),
                Lookup::Found(qs) => {
                    if qs.len() == 0 {
                        only(tell(String::from_str("Invalid Question (Hint: first question is 0)")))
                    } else {
                        let hash = match &qs[0].answer {
                            Ok(a) => a.clone(),
                            Err(_) => String::new(),
                        };
                        if verify_would_panic(hash.as_str()) {
                            Step::Crash(verify_panic_text(hash.as_str()))
                        } else if verify_password(guess.as_str(), hash.as_str()) {
                            let now = now_millis();
                            let r = promote(&team, now);
                            assert(answer_next(s, lm, now) == r@);
                            r
                        } else {
                            only(tell(String::from_str("Wrong Answer")))
                        }
                    }
                },
            },
        };
        proof {
            if !(exists|now: i64| #[trigger] answer_next(s, lm, now) == r@) {
                assert(answer_next(s, lm, 0) == r@);
            }
        }
        r
    }
}

// ---------------------------------------------------------------- hint and giveaway

/// The states of `hint` and `giveaway`.
#[derive(Debug)]
pub enum Help {
    /// Waiting for the author's user documents, to check the login.
    Gate { author: String, kind: HelpKind },
    /// Following the author to their team.
    Team { author: String, kind: HelpKind, chain: TeamChain },
    /// Following the author to their team's questions, with the team found
    /// first and its list of levels helped at.
    Question { kind: HelpKind, team: Record, used: Vec<i32>, chain: TeamChain },
}

pub enum HelpModel {
    Gate { author: Seq<char>, kind: HelpKind },
    Team { author: Seq<char>, kind: HelpKind, chain: TeamChain },
    Question { kind: HelpKind, team: RecordModel, used: Seq<i32>, chain: TeamChain },
}

impl View for Help {
    type V = HelpModel;

    open spec fn view(&self) -> HelpModel {
        match self {
            Help::Gate { author, kind } => HelpModel::Gate { author: author@, kind: *kind },
            Help::Team { author, kind, chain } => HelpModel::Team {
                author: author@,
                kind: *kind,
                chain: *chain,
            },
            Help::Question { kind, team, used, chain } => HelpModel::Question {
                kind: *kind,
                team: team@,
                used: used@,
                chain: *chain,
            },
        }
    }
}

/// The levels a team has already been given this kind of help at.
pub open spec fn used_levels(kind: HelpKind, team: RecordModel) -> Result<Seq<i32>, Access> {
    match kind {
        HelpKind::Hint => team.hints,
        HelpKind::Giveaway => team.giveaways,
    }
}

/// The text of this kind of help in a question document.
pub open spec fn help_text(kind: HelpKind, q: RecordModel) -> Result<Seq<char>, Access> {
    match kind {
        HelpKind::Hint => q.hint,
        HelpKind::Giveaway => q.giveaway,
    }
}

/// The reply where the team was already given this help at this level.
pub open spec fn already_given(kind: HelpKind, text: Seq<char>) -> Seq<char> {
    match kind {
        HelpKind::Hint => "Hint Already Given! No Further Points Would be Deducted.\n HINT: "@
            + text,
        HelpKind::Giveaway =>
            "Giveaway Already Given! No Further Points Would be Deducted.\n HINT: "@ + text,
    }
}

/// The reply where the team pays for the help.
pub open spec fn charged(text: Seq<char>) -> Seq<char> {
    "100 Points Would Be Deducted.\n HINT: "@ + text
}

/// The end of a help request by `team`, whose list of levels helped at is
/// `used`, on the question `q`.
pub open spec fn help_decision(
    kind: HelpKind,
    team: RecordModel,
    used: Seq<i32>,
    q: RecordModel,
) -> StepModel<HelpModel> {
    match q.level {
        Err(e) => StepModel::Crash(expect_panic("curr level not found: hint"@, e)),
        Ok(level) => match help_text(kind, q) {
            Err(e) => StepModel::Crash(expect_panic("Cannot get hint"@, e)),
            Ok(text) => if used.contains(level) {
                StepModel::Done(seq![told_quietly(already_given(kind, text))])
            } else {
                match team.name {
                    Err(e) => StepModel::Crash(no_team_name(e)),
                    Ok(name) => if points_or_zero(team) - HELP_COST < i32::MIN {
                        StepModel::Crash(sub_overflow())
                    } else {
                        StepModel::Done(
                            seq![
                                stored(
                                    WriteModel::Charge {
                                        team: name,
                                        kind,
                                        used: used.push(level),
                                        points: (points_or_zero(team) - HELP_COST) as i32,
                                    },
                                ),
                                told_quietly(charged(text)),
                            ],
                        )
                    },
                }
            },
        },
    }
}

/// The next step of `hint` and `giveaway`.
pub open spec fn help_next(s: HelpModel, l: LookupModel) -> StepModel<HelpModel> {
    match s {
        HelpModel::Gate { author, kind } => match login_status(l) {
            Err(e) => StepModel::Crash(expect_panic("could not find name"@, e)),
            Ok(false) => StepModel::Done(seq![told(not_logged_in())]),
            Ok(true) => StepModel::Fetch(
                HelpModel::Team { author, kind, chain: TeamChain::AwaitUser { questions: false } },
                QueryModel::UserByName(author),
            ),
        },
        HelpModel::Team { author, kind, chain } => match team_chain_next(chain, l) {
            ChainModel::Fetch(c2, q) => StepModel::Fetch(
                HelpModel::Team { author, kind, chain: c2 },
                q,
            ),
            ChainModel::Fail(e) => StepModel::Fail(e),
            ChainModel::Crash(m) => StepModel::Crash(m),
            ChainModel::Found(teams) => if teams.len() == 0 {
                StepModel::Crash(index_panic())
            } else {
                match used_levels(kind, teams[0]) {
                    Err(e) => StepModel::Crash(expect_panic("Could not fetch used hints"@, e)),
                    Ok(used) => StepModel::Fetch(
                        HelpModel::Question {
                            kind,
                            team: teams[0],
                            used,
                            chain: TeamChain::AwaitUser { questions: true },
                        },
                        QueryModel::UserByName(author),
                    ),
                }
            },
        },
        HelpModel::Question { kind, team, used, chain } => match team_chain_next(chain, l) {
            ChainModel::Fetch(c2, q) => StepModel::Fetch(
                HelpModel::Question { kind, team, used, chain: c2 },
                q,
            ),
            ChainModel::Fail(e) => StepModel::Fail(e),
            ChainModel::Crash(m) => StepModel::Crash(m),
            ChainModel::Found(qs) => if qs.len() == 0 {
                StepModel::Crash(index_panic())
            } else {
                help_decision(kind, team, used, qs[0])
            },
        },
    }
}

/// Starts `hint` for the chat user `author`: it checks the login.
pub fn hint(author: String) -> (s: Step<Help>)
    ensures
        s@ == StepModel::Fetch(
            HelpModel::Gate { author: author@, kind: HelpKind::Hint },
            QueryModel::UserByName(author@),
        ),
{
    let query = Query::UserByName(author.clone());
    Step::Fetch(Help::Gate { author, kind: HelpKind::Hint }, query)
}

/// Starts `giveaway` for the chat user `author`: it checks the login.
pub fn giveaway(author: String) -> (s: Step<Help>)
    ensures
        s@ == StepModel::Fetch(
            HelpModel::Gate { author: author@, kind: HelpKind::Giveaway },
            QueryModel::UserByName(author@),
        ),
{
    let query = Query::UserByName(author.clone());
    Step::Fetch(Help::Gate { author, kind: HelpKind::Giveaway }, query)
}

/// Whether a list of levels holds `level`.
pub fn contains_level(levels: &Vec<i32>, level: i32) -> (b: bool)
    ensures
        b == levels@.contains(level),
{
    let mut i: usize = 0;
    while i < levels.len()
        invariant
            0 <= i <= levels.len(),
            forall|j: int| 0 <= j < i ==> levels@[j] != level,
        decreases levels.len() - i,
    {
        if levels[i] == level {
            return true;
        }
        i = i + 1;
    }
    false
}

/// The end of a help request: `used` are the levels the team was helped at.
pub fn decide_help(kind: HelpKind, team: &Record, used: Vec<i32>, q: &Record) -> (r: Step<Help>)
    ensures
        r@ == help_decision(kind, team@, used@, q@),
{
    let level = match q.level {
        Err(e) => {
            return Step::Crash(expect_panic_text("curr level not found: hint", e));
        },
        Ok(l) => l,
    };
    let text = match kind {
        HelpKind::Hint => &q.hint,
        HelpKind::Giveaway => &q.giveaway,
    };
    let text = match text {
        Err(e) => {
            return Step::Crash(expect_panic_text("Cannot get hint", *e));
        },
        Ok(t) => t,
    };
    if contains_level(&used, level) {
        let message = match kind {
            HelpKind::Hint => String::from_str(
                "Hint Already Given! No Further Points Would be Deducted.\n HINT: ",
            ),
            HelpKind::Giveaway => String::from_str(
                "Giveaway Already Given! No Further Points Would be Deducted.\n HINT: ",
            ),
        }.concat(text.as_str());
        return only(tell_quietly(message));
    }
    let name = match &team.name {
        Err(e) => {
            return Step::Crash(expect_panic_text("LOL", *e));
        },
        Ok(n) => n,
    };
    let points = match team.points {
        Ok(p) => p,
        Err(_) => 0,
    };
    if points < i32::MIN + HELP_COST {
        return Step::Crash(String::from_str("attempt to subtract with overflow"));
    }
    let mut used = used;
    used.push(level);
    let write = Write::Charge { team: name.clone(), kind, used, points: points - HELP_COST };
    let message = String::from_str("100 Points Would Be Deducted.\n HINT: ").concat(
        text.as_str(),
    );
    both(Effect::Store(write, Policy::Propagate), tell_quietly(message))
}

impl Help {
    /// Takes the result of the lookup that the last step asked for.
    pub fn resume(self, l: Lookup) -> (r: Step<Help>)
        ensures
            r@ == help_next(self@, l@),
    {
        match self {
            Help::Gate { author, kind } => match logged_in(&l) {
                Err(e) => Step::Crash(expect_panic_text("could not find name", e)),
                Ok(false) => only(tell(not_logged_in_text())),
                Ok(true) => {
                    let query = Query::UserByName(author.clone());
                    Step::Fetch(
                        Help::Team { author, kind, chain: TeamChain::AwaitUser { questions: false } },
                        query,
                    )
                },
            },
            Help::Team { author, kind, chain } => match chain.resume(l) {
                Chain::Fetch(c2, q) => Step::Fetch(Help::Team { author, kind, chain: c2 }, q),
                Chain::Fail(e) => Step::Fail(e),
                Chain::Crash(m) => Step::Crash(m),
                Chain::Found(mut teams) => {
                    if teams.len() == 0 {
                        Step::Crash(index_panic_text())
                    } else {
                        let ghost first = teams@[0];
                        let team = teams.swap_remove(0);
                        let used = match kind {
                            HelpKind::Hint => &team.hints,
                            HelpKind::Giveaway => &team.giveaways,
                        };
                        match used {
                            Err(e) => Step::Crash(
                                expect_panic_text("Could not fetch used hints", *e),
                            ),
                            Ok(u) => {
                                let used = copy_levels(u);
                                let query = Query::UserByName(author);
                                Step::Fetch(
                                    Help::Question {
                                        kind,
                                        team,
                                        used,
                                        chain: TeamChain::AwaitUser { questions: true },
                                    },
                                    query,
                                )
                            },
                        }
                    }
                },
            },
            Help::Question { kind, team, used, chain } => match chain.resume(l) {
                Chain::Fetch(c2, q) => Step::Fetch(Help::Question { kind, team, used, chain: c2 }, q),
                Chain::Fail(e) => Step::Fail(e),
                Chain::Crash(m) => Step::Crash(m),
                Chain::Found(qs) => {
                    if qs.len() == 0 {
                        Step::Crash(index_panic_text())
                    } else {
                        decide_help(kind, &team, used, &qs[0])
                    }
                },
            },
        }
    }
}

} // verus!
