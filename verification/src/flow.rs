//! Pieces shared by the command state machines: the effects they end in, the
//! logged-in check, and the chain of lookups from a user to their team and
//! its current questions.

use vstd::prelude::*;
use crate::model::{
    records_model, effects_model, Access, CommandError, CommandErrorModel, Effect, EffectModel, Lookup,
    LookupModel, Policy, Query, QueryModel, Record, RecordModel, Reply, ReplyModel, Step, StepModel,
    WriteModel,
};

verus! {

/// A message sent to the chat; a failure to send ends the command.
pub open spec fn told(t: Seq<char>) -> EffectModel {
    EffectModel::Send(ReplyModel::Text(t), Policy::Propagate)
}

/// A message sent to the chat; a failure to send is dropped.
pub open spec fn told_quietly(t: Seq<char>) -> EffectModel {
    EffectModel::Send(ReplyModel::Text(t), Policy::Ignore)
}

/// A write to the database; a failure ends the command.
pub open spec fn stored(w: WriteModel) -> EffectModel {
    EffectModel::Store(w, Policy::Propagate)
}

pub(crate) fn tell(t: String) -> (e: Effect)
    ensures
        e@ == told(t@),
{
    Effect::Send(Reply::Text(t), Policy::Propagate)
}

pub(crate) fn tell_quietly(t: String) -> (e: Effect)
    ensures
        e@ == told_quietly(t@),
{
    Effect::Send(Reply::Text(t), Policy::Ignore)
}

/// A command that ends in one effect.
pub(crate) fn only<S: View>(e: Effect) -> (s: Step<S>)
    ensures
        s@ == StepModel::<S::V>::Done(seq![e@]),
{
    let v = vec![e];
    proof {
        assert(effects_model(v@) =~= seq![e@]);
    }
    Step::Done(v)
}

/// A command that ends in two effects, in this order.
pub(crate) fn both<S: View>(a: Effect, b: Effect) -> (s: Step<S>)
    ensures
        s@ == StepModel::<S::V>::Done(seq![a@, b@]),
{
    let v = vec![a, b];
    proof {
        assert(effects_model(v@) =~= seq![a@, b@]);
    }
    Step::Done(v)
}

/// The message of the panic on indexing the first element of an empty list.
pub open spec fn index_panic() -> Seq<char> {
    "index out of bounds: the len is 0 but the index is 0"@
}

pub(crate) fn index_panic_text() -> (s: String)
    ensures
        s@ == index_panic(),
{
    String::from_str("index out of bounds: the len is 0 but the index is 0")
}

/// Whether the users that a lookup found mark a logged-in user: the first
/// one has a non-empty team name. A failed lookup, or no user, counts as
/// logged out; an error where the first user has no readable team name, on
/// which the bot panics.
pub open spec fn login_status(users: LookupModel) -> Result<bool, Access> {
    match users {
        LookupModel::Failed => Ok(false),
        LookupModel::Found(us) => if us.len() == 0 {
            Ok(false)
        } else {
            match us[0].team_name {
                Ok(t) => Ok(t.len() > 0),
                Err(e) => Err(e),
            }
        },
    }
}

/// Decides from a lookup of the author's user documents whether they are
/// logged in with a team.
pub fn logged_in(users: &Lookup) -> (r: Result<bool, Access>)
    ensures
        r == login_status(users@),
{
    match users {
        Lookup::Failed => Ok(false),
        Lookup::Found(us) => {
            if us.len() == 0 {
                Ok(false)
            } else {
                match &us[0].team_name {
                    Ok(t) => Ok(!t.as_str().is_empty()),
                    Err(e) => Err(*e),
                }
            }
        },
    }
}

/// The lookups from a user to their team, and on to the questions of the
/// team's level where `questions` is set.
#[derive(Clone, Copy, Debug, PartialEq, Eq)]
pub enum TeamChain {
    AwaitUser { questions: bool },
    AwaitTeam { questions: bool },
    AwaitQuestions,
}

impl View for TeamChain {
    type V = TeamChain;

    open spec fn view(&self) -> TeamChain {
        *self
    }
}

/// A step of a chain of lookups that ends in a list of records.
#[derive(Debug)]
pub enum Chain<S> {
    Fetch(S, Query),
    Found(Vec<Record>),
    Fail(CommandError),
    Crash(String),
}

pub enum ChainModel<M> {
    Fetch(M, QueryModel),
    Found(Seq<RecordModel>),
    Fail(CommandErrorModel),
    Crash(Seq<char>),
}

impl<S: View> View for Chain<S> {
    type V = ChainModel<S::V>;

    open spec fn view(&self) -> ChainModel<S::V> {
        match self {
            Chain::Fetch(s, q) => ChainModel::Fetch(s@, q@),
            Chain::Found(v) => ChainModel::Found(records_model(v@)),
            Chain::Fail(e) => ChainModel::Fail(e@),
            Chain::Crash(m) => ChainModel::Crash(m@),
        }
    }
}

/// The team name that a user document points to, or "Failed To Fetch Team".
pub open spec fn team_name_or_default(user: RecordModel) -> Seq<char> {
    match user.team_name {
        Ok(t) => t,
        Err(_) => "Failed To Fetch Team"@,
    }
}

/// The next step of the chain from a user to their team (and its questions).
pub open spec fn team_chain_next(s: TeamChain, l: LookupModel) -> ChainModel<TeamChain> {
    match l {
        LookupModel::Failed => ChainModel::Fail(CommandErrorModel::ReadFailed),
        LookupModel::Found(rs) => match s {
            TeamChain::AwaitUser { questions } => if rs.len() == 0 {
                ChainModel::Crash(index_panic())
            } else {
                ChainModel::Fetch(
                    TeamChain::AwaitTeam { questions },
                    QueryModel::TeamByName(team_name_or_default(rs[0])),
                )
            },
            TeamChain::AwaitTeam { questions } => if !questions {
                ChainModel::Found(rs)
            } else if rs.len() == 0 {
                ChainModel::Crash(index_panic())
            } else {
                ChainModel::Fetch(
                    TeamChain::AwaitQuestions,
                    QueryModel::QuestionsAtLevel(level_or_zero(rs[0])),
                )
            },
            TeamChain::AwaitQuestions => ChainModel::Found(rs),
        },
    }
}

/// The level of a team document, or 0.
pub open spec fn level_or_zero(team: RecordModel) -> i32 {
    match team.level {
        Ok(l) => l,
        Err(_) => 0,
    }
}

/// The points of a team document, or 0.
pub open spec fn points_or_zero(team: RecordModel) -> i32 {
    match team.points {
        Ok(p) => p,
        Err(_) => 0,
    }
}

/// Starts the lookups of the teams of the author's team name.
pub fn get_team_by_user(author: String) -> (c: Chain<TeamChain>)
    ensures
        c@ == ChainModel::Fetch(
            TeamChain::AwaitUser { questions: false },
            QueryModel::UserByName(author@),
        ),
{
    Chain::Fetch(TeamChain::AwaitUser { questions: false }, Query::UserByName(author))
}

/// Starts the lookups of the questions at the level of the author's team.
pub fn get_team_question(author: String) -> (c: Chain<TeamChain>)
    ensures
        c@ == ChainModel::Fetch(
            TeamChain::AwaitUser { questions: true },
            QueryModel::UserByName(author@),
        ),
{
    Chain::Fetch(TeamChain::AwaitUser { questions: true }, Query::UserByName(author))
}

impl TeamChain {
    /// Takes the result of the lookup that the chain asked for.
    pub fn resume(self, l: Lookup) -> (c: Chain<TeamChain>)
        ensures
            c@ == team_chain_next(self, l@),
    {
        match l {
            Lookup::Failed => Chain::Fail(CommandError::ReadFailed),
            Lookup::Found(rs) => match self {
                TeamChain::AwaitUser { questions } => {
                    if rs.len() == 0 {
                        Chain::Crash(index_panic_text())
                    } else {
                        let name = match &rs[0].team_name {
                            Ok(t) => t.clone(),
                            Err(_) => String::from_str("Failed To Fetch Team"),
                        };
                        Chain::Fetch(TeamChain::AwaitTeam { questions }, Query::TeamByName(name))
                    }
                },
                TeamChain::AwaitTeam { questions } => {
                    if !questions {
                        Chain::Found(rs)
                    } else if rs.len() == 0 {
                        Chain::Crash(index_panic_text())
                    } else {
                        let level = match rs[0].level {
                            Ok(l) => l,
                            Err(_) => 0,
                        };
                        Chain::Fetch(TeamChain::AwaitQuestions, Query::QuestionsAtLevel(level))
                    }
                },
                TeamChain::AwaitQuestions => Chain::Found(rs),
            },
        }
    }
}

} // verus!
