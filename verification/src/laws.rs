//! Properties of the commands taken together: what a later command sees of
//! what an earlier one wrote, and what no step can do.

use vstd::prelude::*;
use vstd::utf8::encode_utf8;
use crate::auth::{
    login_team_next, logout_next, no_such_user, register_team_allows, register_team_hashes,
    register_team_next, stored_hash, LoginTeamModel, RegisterTeamModel, MAX_TEAM_NAME_BYTES,
};
use crate::flow::{
    level_or_zero, login_status, points_or_zero, stored, team_chain_next, told, told_quietly,
    ChainModel, TeamChain,
};
use crate::game::{
    already_given, answer_next, get_question_next, help_decision, help_next, help_text,
    not_logged_in, promotion, used_levels, AnswerModel, GetQuestionModel, HelpModel,
    ANSWER_REWARD, FINAL_LEVEL, HELP_COST,
};
use crate::leaderboard::{chunks, flatten, leaderboard_pages, page_text};
use crate::model::{
    Access, Policy, inserted_record, updated_record, writes, EffectModel, HelpKind, LookupModel, RecordModel,
    QueryModel, StepModel, WriteModel,
};
use crate::password::{bcrypt_hash_form, bcrypt_verifies, has_bcrypt_setup, verify_panics};
use crate::seed::{seeded_question, QUESTION_COUNT};
use crate::text::signed_decimal;

verus! {

/// Registering a free name of at most 20 bytes ends in storing the team
/// and announcing it. What is stored for the password is a bcrypt hash of
/// it, never the password itself unless the password already has a bcrypt
/// hash's form; read back, that team document makes `login_team` with the
/// same name and password log any chat user in.
pub proof fn law_registration_stores_a_hash_that_logs_in(
    author: Seq<char>,
    team_name: Seq<char>,
    password: Seq<char>,
    r: StepModel<RegisterTeamModel>,
)
    requires
        register_team_allows(
            RegisterTeamModel::AwaitTeam { team_name, password },
            LookupModel::Found(seq![]),
            r,
        ),
        encode_utf8(team_name).len() <= MAX_TEAM_NAME_BYTES,
    ensures
        r is Done && r->Done_0.len() == 2,
        r->Done_0[1] == told("Team **"@ + team_name + "** registered"@),
        r->Done_0[0] is Store && r->Done_0[0]->Store_1 == Policy::Propagate,
        ({
            let w = r->Done_0[0]->Store_0;
            &&& w is InsertTeam && w->InsertTeam_name == team_name
            &&& bcrypt_hash_form(w->InsertTeam_password)
            &&& bcrypt_verifies(password, w->InsertTeam_password)
            &&& !bcrypt_hash_form(password) ==> w->InsertTeam_password != password
            &&& login_team_next(
                LoginTeamModel::AwaitTeam { author, team_name, password },
                LookupModel::Found(seq![inserted_record(w)->0]),
            ) == StepModel::<LoginTeamModel>::Done(
                seq![
                    stored(WriteModel::SetUserTeam { username: author, team_name }),
                    told("Logged in as **"@ + team_name + "**"@),
                ],
            )
        }),
{
    let s = RegisterTeamModel::AwaitTeam { team_name, password };
    let l = LookupModel::Found(seq![]);
    assert(register_team_hashes(s, l));
    let (h, now) = choose|h: Seq<char>, now: i64|
        #[trigger] register_team_next(s, l, Some(h), now) == r && {
            &&& bcrypt_verifies(password, h)
            &&& !verify_panics(h)
            &&& bcrypt_hash_form(h)
        };
}

/// `register_team` writes only for a registered user, and only a team whose
/// name is free and at most 20 bytes long.
pub proof fn law_register_team_guards(
    s: RegisterTeamModel,
    l: LookupModel,
    r: StepModel<RegisterTeamModel>,
)
    requires
        register_team_allows(s, l, r),
    ensures
        (s is AwaitUser && l == LookupModel::Found(seq![])) ==> r
            == StepModel::<RegisterTeamModel>::Done(seq![told(no_such_user())]),
        writes(r) ==> register_team_hashes(s, l),
{
    if writes(r) && !register_team_hashes(s, l) {
        let effects = r->Done_0;
        let i = choose|i: int| 0 <= i < effects.len() && #[trigger] effects[i] is Store;
        match s {
            RegisterTeamModel::AwaitUser { .. } => {
                assert(effects[i] is Send);
            },
            RegisterTeamModel::AwaitTeam { team_name, .. } => {
                if l != LookupModel::Found(seq![]) {
                    if l is Found {
                        assert(l->Found_0 =~= seq![]);
                    }
                    assert(effects[i] is Send);
                } else {
                    assert(effects[i] is Send);
                }
            },
        }
    }
}

/// `login_team` writes only where the password verifies against the stored
/// hash of the first team of the name given.
pub proof fn law_login_needs_the_password(s: LoginTeamModel, l: LookupModel)
    ensures
        writes(login_team_next(s, l)) ==> (s is AwaitTeam && l is Found && l->Found_0.len() > 0
            && bcrypt_verifies(s->AwaitTeam_password, stored_hash(l->Found_0[0]))),
{
    let r = login_team_next(s, l);
    if writes(r) {
        let effects = r->Done_0;
        let i = choose|i: int| 0 <= i < effects.len() && #[trigger] effects[i] is Store;
        assert(effects[i] is Store);
    }
}

/// After a successful `login_team`, the author's user document, read back,
/// marks them logged in, where the team name given is not empty.
pub proof fn law_login_logs_in(s: LoginTeamModel, l: LookupModel, user: RecordModel)
    requires
        login_team_next(s, l) matches StepModel::Done(e) && e.len() > 0 && e[0] is Store,
    ensures
        login_team_next(s, l)->Done_0[0] matches EffectModel::Store(w, _) && login_status(
            LookupModel::Found(seq![updated_record(w, user)]),
        ) == Ok::<bool, Access>(s->AwaitTeam_team_name.len() > 0),
{
}

/// After `logout` writes, the author's user document, read back, marks
/// them logged out.
pub proof fn law_logout_logs_out(author: Seq<char>, l: LookupModel, user: RecordModel)
    requires
        logout_next(author, l) matches StepModel::Done(e) && e.len() > 0 && e[0] is Store,
    ensures
        logout_next(author, l)->Done_0[0] matches EffectModel::Store(w, _) && login_status(
            LookupModel::Found(seq![updated_record(w, user)]),
        ) == Ok::<bool, Access>(false),
{
}

/// A hint (or giveaway) is paid for once per level: after a charge, the
/// team's document, read back, has paid exactly the cost, kept its level,
/// and a second request on the same question is answered without a charge.
pub proof fn law_help_charged_once(
    kind: HelpKind,
    team: RecordModel,
    used: Seq<i32>,
    q: RecordModel,
)
    requires
        help_decision(kind, team, used, q) matches StepModel::Done(e) && e.len() > 0
            && e[0] is Store,
    ensures
        help_decision(kind, team, used, q)->Done_0[0] matches EffectModel::Store(w, _) && {
            let after = updated_record(w, team);
            &&& points_or_zero(after) == points_or_zero(team) - HELP_COST
            &&& after.level == team.level
            &&& used_levels(kind, after) matches Ok(u2) && help_decision(kind, after, u2, q)
                == StepModel::<crate::game::HelpModel>::Done(
                seq![told_quietly(already_given(kind, help_text(kind, q)->Ok_0))],
            )
        },
{
    let level = q.level->Ok_0;
    assert(used.push(level).contains(level)) by {
        assert(used.push(level)[used.len() as int] == level);
    }
}

/// A team that has completed the game is left alone by `answer`.
pub proof fn law_completed_team_left_alone(
    guess: Seq<char>,
    chain: TeamChain,
    l: LookupModel,
    now: i64,
)
    requires
        team_chain_next(chain, l) matches ChainModel::Found(teams) && teams.len() > 0
            && level_or_zero(teams[0]) == FINAL_LEVEL,
    ensures
        !writes(answer_next(AnswerModel::Team { guess, chain }, l, now)),
{
    let r = answer_next(AnswerModel::Team { guess, chain }, l, now);
    if writes(r) {
        let effects = r->Done_0;
        let i = choose|i: int| 0 <= i < effects.len() && #[trigger] effects[i] is Store;
        assert(effects[i] is Store);
    }
}

/// A correct answer moves the team, read back, one level up with the reward
/// added; reaching the final level is announced as completing the game.
pub proof fn law_correct_answer_promotes(team: RecordModel, now: i64)
    requires
        promotion(team, now) is Done,
    ensures
        promotion(team, now)->Done_0[0] matches EffectModel::Store(w, _) && {
            let after = updated_record(w, team);
            &&& level_or_zero(after) == level_or_zero(team) + 1
            &&& points_or_zero(after) == points_or_zero(team) + ANSWER_REWARD
        },
        level_or_zero(team) + 1 == FINAL_LEVEL ==> promotion(team, now)->Done_0[1] == told(
            "Congrats! You have completed the game"@,
        ),
{
}

/// The seeded questions accept their own answers: a team at any level of
/// the catalogue that sends the answer the question was seeded with is
/// promoted.
pub proof fn law_seeded_answers_accepted(
    level: int,
    answer: Seq<char>,
    hash: Seq<char>,
    hint: Seq<char>,
    giveaway: Seq<char>,
    team: RecordModel,
    now: i64,
)
    requires
        0 <= level < QUESTION_COUNT,
        bcrypt_verifies(answer, hash),
        !verify_panics(hash),
        bcrypt_hash_form(hash),
    ensures
        answer_next(
            AnswerModel::Questions { guess: answer, team },
            LookupModel::Found(seq![seeded_question(level, hash, hint, giveaway)]),
            now,
        ) == promotion(team, now),
{
}

/// The game's commands refuse a chat user who is not logged in with a
/// team, and change nothing.
pub proof fn law_logged_out_refused(
    author: Seq<char>,
    guess: Seq<char>,
    kind: HelpKind,
    l: LookupModel,
    now: i64,
)
    requires
        login_status(l) == Ok::<bool, Access>(false),
    ensures
        get_question_next(GetQuestionModel::Gate { author }, l) == StepModel::<
            GetQuestionModel,
        >::Done(seq![told(not_logged_in())]),
        answer_next(AnswerModel::Gate { author, guess }, l, now) == StepModel::<
            AnswerModel,
        >::Done(seq![told(not_logged_in())]),
        help_next(HelpModel::Gate { author, kind }, l) == StepModel::<HelpModel>::Done(
            seq![told(not_logged_in())],
        ),
{
}

/// Splitting into parts keeps every item, in order, and makes parts of `n`
/// items, but for a shorter, non-empty last one.
pub proof fn law_parts_keep_every_item<T>(s: Seq<T>, n: nat)
    requires
        n > 0,
    ensures
        flatten(chunks(s, n)) == s,
        forall|i: int| 0 <= i < chunks(s, n).len() ==> 0 < #[trigger] chunks(s, n)[i].len() <= n,
        forall|i: int| 0 <= i < chunks(s, n).len() - 1 ==> #[trigger] chunks(s, n)[i].len() == n,
    decreases s.len(),
{
    if s.len() == 0 {
    } else if s.len() <= n {
        assert(chunks(s, n).drop_first() =~= Seq::<Seq<T>>::empty());
        assert(flatten(Seq::<Seq<T>>::empty()) =~= Seq::<T>::empty());
        assert(flatten(chunks(s, n)) =~= s);
    } else {
        law_parts_keep_every_item(s.skip(n as int), n);
        let rest = chunks(s.skip(n as int), n);
        assert(chunks(s, n).drop_first() =~= rest);
        assert(s.take(n as int) + s.skip(n as int) =~= s);
        assert forall|i: int| 0 <= i < chunks(s, n).len() implies 0 < #[trigger] chunks(
            s,
            n,
        )[i].len() <= n by {
            if i > 0 {
                assert(chunks(s, n)[i] == rest[i - 1]);
            }
        }
        assert forall|i: int| 0 <= i < chunks(s, n).len() - 1 implies #[trigger] chunks(
            s,
            n,
        )[i].len() == n by {
            if i > 0 {
                assert(chunks(s, n)[i] == rest[i - 1]);
            }
        }
    }
}


/// The reply to a login with a team name that no team has.
pub open spec fn no_such_team() -> Seq<char> {
    "No Such Team, Register your self with ```?c rt teamname password```"@
}

/// A login is refused, and nothing is written, where no team has the name,
/// where the team has no password hash (it is checked against a text that
/// is no bcrypt hash), where its stored text has no bcrypt setup, or where
/// bcrypt does not accept the password against it.
pub proof fn law_login_refused(
    author: Seq<char>,
    team_name: Seq<char>,
    password: Seq<char>,
    teams: Seq<RecordModel>,
)
    requires
        teams.len() == 0 || teams[0].password is Err || !has_bcrypt_setup(stored_hash(teams[0]))
            || (!verify_panics(stored_hash(teams[0])) && !bcrypt_verifies(
            password,
            stored_hash(teams[0]),
        )),
    ensures
        login_team_next(
            LoginTeamModel::AwaitTeam { author, team_name, password },
            LookupModel::Found(teams),
        ) == StepModel::<LoginTeamModel>::Done(
            seq![told(if teams.len() == 0 { no_such_team() } else { "Wrong Password"@ })],
        ),
{
    reveal_strlit("Could not verify password.");
}

/// The bookkeeping of a team document that the game keeps: a level from 0
/// to the final one, lists of the levels helped at, and points of 1000 per
/// level gained less 100 per hint or giveaway taken.
pub open spec fn accounted(t: RecordModel) -> bool {
    &&& t.level is Ok && t.hints is Ok && t.giveaways is Ok
    &&& 0 <= t.level->Ok_0 <= FINAL_LEVEL
    &&& points_or_zero(t) == ANSWER_REWARD * t.level->Ok_0 - HELP_COST * (t.hints->Ok_0.len()
        + t.giveaways->Ok_0.len())
}

/// A team that `register_team` stores, read back, is in order.
pub proof fn law_registered_team_accounted(w: WriteModel)
    requires
        w is InsertTeam,
    ensures
        accounted(inserted_record(w)->0),
{
}

/// `answer` keeps a team's bookkeeping: it asks for the questions only of a
/// team below the final level, and the team that a correct answer promotes,
/// read back, is in order again.
pub proof fn law_answer_keeps_accounts(
    guess: Seq<char>,
    chain: TeamChain,
    team: RecordModel,
    l: LookupModel,
    now: i64,
)
    ensures
        answer_next(AnswerModel::Team { guess, chain }, l, now) matches StepModel::Fetch(
            AnswerModel::Questions { team: t, .. },
            _,
        ) ==> level_or_zero(t) != FINAL_LEVEL,
        (accounted(team) && level_or_zero(team) != FINAL_LEVEL && ends_in_store(
            answer_next(AnswerModel::Questions { guess, team }, l, now),
        )) ==> accounted(
            updated_record(
                answer_next(AnswerModel::Questions { guess, team }, l, now)->Done_0[0]->Store_0,
                team,
            ),
        ),
{
}

/// A hint or giveaway keeps a team's bookkeeping: the list it checks is the
/// team's own, and the team that it charges, read back, is in order again.
pub proof fn law_help_keeps_accounts(
    author: Seq<char>,
    kind: HelpKind,
    chain: TeamChain,
    l: LookupModel,
    team: RecordModel,
    used: Seq<i32>,
    q: RecordModel,
)
    ensures
        help_next(HelpModel::Team { author, kind, chain }, l) matches StepModel::Fetch(
            HelpModel::Question { kind: k, team: t, used: u, .. },
            _,
        ) ==> k == kind && used_levels(kind, t) == Ok::<Seq<i32>, Access>(u),
        (accounted(team) && used_levels(kind, team) == Ok::<Seq<i32>, Access>(used)
            && ends_in_store(help_decision(kind, team, used, q))) ==> accounted(
            updated_record(help_decision(kind, team, used, q)->Done_0[0]->Store_0, team),
        ),
{
}

/// A hint or giveaway records the team's current level: the questions asked
/// for are those at the level of the team as looked up, and where the
/// lookup gives back a question of that level, a charge adds exactly that
/// level to the list, keeps it free of repeats and within the level, and
/// changes nothing of the team but that list and the points.
pub proof fn law_help_records_team_level(
    kind: HelpKind,
    team: RecordModel,
    used: Seq<i32>,
    teams: Seq<RecordModel>,
    qs: Seq<RecordModel>,
)
    requires
        teams.len() > 0,
        qs.len() > 0,
        qs[0].level == Ok::<i32, Access>(level_or_zero(teams[0])),
    ensures
        help_next(
            HelpModel::Question { kind, team, used, chain: TeamChain::AwaitTeam { questions: true } },
            LookupModel::Found(teams),
        ) == StepModel::Fetch(
            HelpModel::Question { kind, team, used, chain: TeamChain::AwaitQuestions },
            QueryModel::QuestionsAtLevel(level_or_zero(teams[0])),
        ),
        ({
            let r = help_next(
                HelpModel::Question { kind, team, used, chain: TeamChain::AwaitQuestions },
                LookupModel::Found(qs),
            );
            let level = level_or_zero(teams[0]);
            ends_in_store(r) ==> ({
                let w = r->Done_0[0]->Store_0;
                let after = updated_record(w, team);
                &&& w is Charge && w->Charge_kind == kind
                &&& w->Charge_used == used.push(level)
                &&& used.no_duplicates() ==> w->Charge_used.no_duplicates()
                &&& (forall|i: int| 0 <= i < used.len() ==> 0 <= #[trigger] used[i] <= level)
                    ==> (0 <= level ==> forall|i: int|
                    0 <= i < w->Charge_used.len() ==> 0 <= #[trigger] w->Charge_used[i] <= level)
                &&& after.level == team.level && after.name == team.name
                &&& after.password == team.password
                &&& used_levels(other_kind(kind), after) == used_levels(other_kind(kind), team)
            })
        }),
{
    let r = help_next(
        HelpModel::Question { kind, team, used, chain: TeamChain::AwaitQuestions },
        LookupModel::Found(qs),
    );
    let level = level_or_zero(teams[0]);
    if ends_in_store(r) {
        let w = r->Done_0[0]->Store_0;
        let u2 = used.push(level);
        assert(!used.contains(level));
        if used.no_duplicates() {
            assert forall|i: int, j: int| 0 <= i < u2.len() && 0 <= j < u2.len() && i != j implies u2[i]
                != u2[j] by {
                if i == used.len() as int {
                    assert(used[j] == u2[j]);
                } else if j == used.len() as int {
                    assert(used[i] == u2[i]);
                }
            }
        }
        if forall|i: int| 0 <= i < used.len() ==> 0 <= #[trigger] used[i] <= level {
            assert forall|i: int| 0 <= i < u2.len() implies 0 <= #[trigger] u2[i] <= level || level
                < 0 by {
                if i < used.len() {
                    assert(u2[i] == used[i]);
                }
            }
        }
    }
}

/// Whether a step ends the command with a write first.
pub open spec fn ends_in_store<M>(r: StepModel<M>) -> bool {
    r is Done && r->Done_0.len() > 0 && r->Done_0[0] is Store
}

/// The other kind of help.
pub open spec fn other_kind(kind: HelpKind) -> HelpKind {
    match kind {
        HelpKind::Hint => HelpKind::Giveaway,
        HelpKind::Giveaway => HelpKind::Hint,
    }
}


/// A whole `answer` run checks the guess the author sent: when the author
/// is logged in, their team is below the final level, and the stored answer
/// of the question at the team's level is a bcrypt hash that the guess
/// verifies against, the run looks up the author, then their team, then the
/// questions of its level, and ends by storing the team one level up with
/// 1000 more points and announcing the new level.
pub proof fn law_answer_run_checks_the_guess(
    author: Seq<char>,
    guess: Seq<char>,
    check: LookupModel,
    users: Seq<RecordModel>,
    teams: Seq<RecordModel>,
    qs: Seq<RecordModel>,
    now: i64,
)
    requires
        login_status(check) == Ok::<bool, Access>(true),
        users.len() > 0,
        users[0].team_name is Ok,
        teams.len() > 0,
        teams[0].name is Ok,
        teams[0].level is Ok,
        0 <= teams[0].level->Ok_0 < FINAL_LEVEL,
        points_or_zero(teams[0]) + 1000 <= i32::MAX,
        qs.len() > 0,
        qs[0].answer is Ok,
        has_bcrypt_setup(qs[0].answer->Ok_0),
        !verify_panics(qs[0].answer->Ok_0),
        bcrypt_verifies(guess, qs[0].answer->Ok_0),
    ensures
        answer_next(AnswerModel::Gate { author, guess }, check, now) == StepModel::Fetch(
            AnswerModel::Team { guess, chain: TeamChain::AwaitUser { questions: false } },
            QueryModel::UserByName(author),
        ),
        answer_next(
            AnswerModel::Team { guess, chain: TeamChain::AwaitUser { questions: false } },
            LookupModel::Found(users),
            now,
        ) == StepModel::Fetch(
            AnswerModel::Team { guess, chain: TeamChain::AwaitTeam { questions: false } },
            QueryModel::TeamByName(users[0].team_name->Ok_0),
        ),
        answer_next(
            AnswerModel::Team { guess, chain: TeamChain::AwaitTeam { questions: false } },
            LookupModel::Found(teams),
            now,
        ) == StepModel::Fetch(
            AnswerModel::Questions { guess, team: teams[0] },
            QueryModel::QuestionsAtLevel(teams[0].level->Ok_0),
        ),
        answer_next(AnswerModel::Questions { guess, team: teams[0] }, LookupModel::Found(qs), now)
            == StepModel::<AnswerModel>::Done(
            seq![
                stored(
                    WriteModel::Promote {
                        team: teams[0].name->Ok_0,
                        level: (teams[0].level->Ok_0 + 1) as i32,
                        points: (points_or_zero(teams[0]) + 1000) as i32,
                        last_updated: now,
                    },
                ),
                told(
                    if teams[0].level->Ok_0 + 1 == 5 {
                        "Congrats! You have completed the game"@
                    } else {
                        "Correct Answer. Promoted to level "@ + signed_decimal(
                            teams[0].level->Ok_0 + 1,
                        )
                    },
                ),
            ],
        ),
{
}

/// A whole `login_team` run checks the password the author typed: whatever
/// the author's first lookup gave, when the second shows them logged out
/// and the first team of the name stores a bcrypt hash that the typed
/// password verifies against, the run looks that team up and ends by
/// setting the author's team name and announcing the login.
pub proof fn law_login_run_checks_the_password(
    author: Seq<char>,
    team_name: Seq<char>,
    password: Seq<char>,
    users: Seq<RecordModel>,
    check: LookupModel,
    teams: Seq<RecordModel>,
)
    requires
        login_status(check) == Ok::<bool, Access>(false),
        teams.len() > 0,
        teams[0].password is Ok,
        has_bcrypt_setup(teams[0].password->Ok_0),
        !verify_panics(teams[0].password->Ok_0),
        bcrypt_verifies(password, teams[0].password->Ok_0),
    ensures
        login_team_next(
            LoginTeamModel::AwaitUser { author, team_name, password },
            LookupModel::Found(users),
        ) == StepModel::Fetch(
            LoginTeamModel::AwaitCheck { author, team_name, password, users },
            QueryModel::UserByName(author),
        ),
        login_team_next(LoginTeamModel::AwaitCheck { author, team_name, password, users }, check)
            == StepModel::Fetch(
            LoginTeamModel::AwaitTeam { author, team_name, password },
            QueryModel::TeamByName(team_name),
        ),
        login_team_next(
            LoginTeamModel::AwaitTeam { author, team_name, password },
            LookupModel::Found(teams),
        ) == StepModel::<LoginTeamModel>::Done(
            seq![
                stored(WriteModel::SetUserTeam { username: author, team_name }),
                told("Logged in as **"@ + team_name + "**"@),
            ],
        ),
{
}

/// Any registered user may register a team, logged in or not: a non-empty
/// lookup of the author goes on to look up the team name, carrying the
/// name and password given.
pub proof fn law_any_registered_user_may_register(
    team_name: Seq<char>,
    password: Seq<char>,
    users: Seq<RecordModel>,
    r: StepModel<RegisterTeamModel>,
)
    requires
        users.len() > 0,
        register_team_allows(
            RegisterTeamModel::AwaitUser { team_name, password },
            LookupModel::Found(users),
            r,
        ),
    ensures
        r == StepModel::Fetch(
            RegisterTeamModel::AwaitTeam { team_name, password },
            QueryModel::TeamByName(team_name),
        ),
{
}

/// A hint or giveaway is charged exactly when the team has not been helped
/// at the question's level: with the level, the help text, the team's name
/// readable and the points far enough from the bottom, a level not in the
/// list gives a write of the list with the level added and the points less
/// 100, and the text with the charge; a level in the list gives the text
/// with no charge, however long the list.
pub proof fn law_help_charged_unless_given(
    kind: HelpKind,
    team: RecordModel,
    used: Seq<i32>,
    q: RecordModel,
)
    requires
        q.level is Ok,
        help_text(kind, q) is Ok,
        team.name is Ok,
        points_or_zero(team) - 100 >= i32::MIN,
    ensures
        !used.contains(q.level->Ok_0) ==> help_decision(kind, team, used, q) == StepModel::<
            HelpModel,
        >::Done(
            seq![
                stored(
                    WriteModel::Charge {
                        team: team.name->Ok_0,
                        kind,
                        used: used.push(q.level->Ok_0),
                        points: (points_or_zero(team) - 100) as i32,
                    },
                ),
                told_quietly("100 Points Would Be Deducted.\n HINT: "@ + help_text(kind, q)->Ok_0),
            ],
        ),
        used.contains(q.level->Ok_0) ==> help_decision(kind, team, used, q) == StepModel::<
            HelpModel,
        >::Done(
            seq![
                told_quietly(
                    match kind {
                        HelpKind::Hint => "Hint Already Given! No Further Points Would be Deducted.\n HINT: "@,
                        HelpKind::Giveaway => "Giveaway Already Given! No Further Points Would be Deducted.\n HINT: "@,
                    } + help_text(kind, q)->Ok_0,
                ),
            ],
        ),
{
}

/// The parts of `s` by fours: as many as it takes, and part `k` holds items
/// `4k` up to `4k + 4` (or the end).
proof fn lemma_parts_of_four<T>(s: Seq<T>)
    ensures
        chunks(s, 4).len() == (s.len() + 3) / 4,
        forall|k: int|
            0 <= k < chunks(s, 4).len() ==> #[trigger] chunks(s, 4)[k] == s.subrange(
                4 * k,
                if 4 * k + 4 <= s.len() {
                    4 * k + 4
                } else {
                    s.len() as int
                },
            ),
    decreases s.len(),
{
    if s.len() == 0 {
    } else if s.len() <= 4 {
        assert(chunks(s, 4)[0] =~= s.subrange(0, s.len() as int));
    } else {
        let rest = s.skip(4);
        lemma_parts_of_four(rest);
        assert forall|k: int| 0 <= k < chunks(s, 4).len() implies #[trigger] chunks(s, 4)[k]
            == s.subrange(
            4 * k,
            if 4 * k + 4 <= s.len() {
                4 * k + 4
            } else {
                s.len() as int
            },
        ) by {
            if k == 0 {
                assert(s.take(4) =~= s.subrange(0, 4));
            } else {
                assert(chunks(s, 4)[k] == chunks(rest, 4)[k - 1]);
                let end = if 4 * (k - 1) + 4 <= rest.len() {
                    4 * (k - 1) + 4
                } else {
                    rest.len() as int
                };
                assert(rest.subrange(4 * (k - 1), end) =~= s.subrange(4 * k, end + 4));
            }
        }
    }
}

/// Every team is on the leaderboard: there is one page for each four teams
/// in ranking order (and one for the rest), and page `k` shows teams `4k`
/// up to `4k + 4`, in order.
pub proof fn law_every_team_on_a_page(teams: Seq<RecordModel>)
    ensures
        leaderboard_pages(teams).len() == (teams.len() + 3) / 4,
        forall|k: int|
            0 <= k < leaderboard_pages(teams).len() ==> #[trigger] leaderboard_pages(teams)[k]
                == page_text(
                teams.subrange(
                    4 * k,
                    if 4 * k + 4 <= teams.len() {
                        4 * k + 4
                    } else {
                        teams.len() as int
                    },
                ),
            ),
{
    lemma_parts_of_four(teams);
}

} // verus!
