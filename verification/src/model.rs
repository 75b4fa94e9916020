//! The values that the command state machines exchange with their caller:
//! stored documents, lookups, writes, replies and the steps themselves,
//! each with its mathematical model.

use vstd::prelude::*;

verus! {

/// Why a field of a stored document could not be read: it is absent, or it
/// holds a value of another type.
#[derive(Clone, Copy, Debug, PartialEq, Eq, Structural)]
pub enum Access {
    NotPresent,
    UnexpectedType,
}

/// The fields that the bot reads from a stored document (a user, a team or a
/// question), each as the document's typed getter gives it back.
#[derive(Debug, PartialEq)]
pub struct Record {
    pub team_name: Result<String, Access>,
    pub name: Result<String, Access>,
    pub password: Result<String, Access>,
    pub level: Result<i32, Access>,
    pub points: Result<i32, Access>,
    pub hints: Result<Vec<i32>, Access>,
    pub giveaways: Result<Vec<i32>, Access>,
    pub question: Result<String, Access>,
    pub answer: Result<String, Access>,
    pub hint: Result<String, Access>,
    pub giveaway: Result<String, Access>,
}

/// The model of a [`Record`].
pub struct RecordModel {
    pub team_name: Result<Seq<char>, Access>,
    pub name: Result<Seq<char>, Access>,
    pub password: Result<Seq<char>, Access>,
    pub level: Result<i32, Access>,
    pub points: Result<i32, Access>,
    pub hints: Result<Seq<i32>, Access>,
    pub giveaways: Result<Seq<i32>, Access>,
    pub question: Result<Seq<char>, Access>,
    pub answer: Result<Seq<char>, Access>,
    pub hint: Result<Seq<char>, Access>,
    pub giveaway: Result<Seq<char>, Access>,
}

/// The model of a text field.
pub open spec fn text_model(f: Result<String, Access>) -> Result<Seq<char>, Access> {
    match f {
        Ok(s) => Ok(s@),
        Err(e) => Err(e),
    }
}

/// The model of a field that holds a list of levels.
pub open spec fn levels_model(f: Result<Vec<i32>, Access>) -> Result<Seq<i32>, Access> {
    match f {
        Ok(v) => Ok(v@),
        Err(e) => Err(e),
    }
}

impl View for Record {
    type V = RecordModel;

    open spec fn view(&self) -> RecordModel {
        RecordModel {
            team_name: text_model(self.team_name),
            name: text_model(self.name),
            password: text_model(self.password),
            level: self.level,
            points: self.points,
            hints: levels_model(self.hints),
            giveaways: levels_model(self.giveaways),
            question: text_model(self.question),
            answer: text_model(self.answer),
            hint: text_model(self.hint),
            giveaway: text_model(self.giveaway),
        }
    }
}

fn clone_text(f: &Result<String, Access>) -> (c: Result<String, Access>)
    ensures
        text_model(c) == text_model(*f),
{
    match f {
        Ok(s) => Ok(s.clone()),
        Err(e) => Err(*e),
    }
}

fn clone_number(f: &Result<i32, Access>) -> (c: Result<i32, Access>)
    ensures
        c == *f,
{
    match f {
        Ok(n) => Ok(*n),
        Err(e) => Err(*e),
    }
}

/// A copy of a list of levels.
pub fn copy_levels(levels: &Vec<i32>) -> (c: Vec<i32>)
    ensures
        c@ == levels@,
{
    let mut c: Vec<i32> = Vec::new();
    let mut i: usize = 0;
    while i < levels.len()
        invariant
            0 <= i <= levels.len(),
            c@ == levels@.subrange(0, i as int),
        decreases levels.len() - i,
    {
        c.push(levels[i]);
        i = i + 1;
        proof {
            assert(c@ =~= levels@.subrange(0, i as int));
        }
    }
    proof {
        assert(c@ =~= levels@);
    }
    c
}

fn clone_levels(f: &Result<Vec<i32>, Access>) -> (c: Result<Vec<i32>, Access>)
    ensures
        levels_model(c) == levels_model(*f),
{
    match f {
        Ok(v) => Ok(copy_levels(v)),
        Err(e) => Err(*e),
    }
}

impl Clone for Record {
    fn clone(&self) -> (r: Record)
        ensures
            r@ == self@,
    {
        Record {
            team_name: clone_text(&self.team_name),
            name: clone_text(&self.name),
            password: clone_text(&self.password),
            level: clone_number(&self.level),
            points: clone_number(&self.points),
            hints: clone_levels(&self.hints),
            giveaways: clone_levels(&self.giveaways),
            question: clone_text(&self.question),
            answer: clone_text(&self.answer),
            hint: clone_text(&self.hint),
            giveaway: clone_text(&self.giveaway),
        }
    }
}

/// The text that the debug form of a field access error reads.
pub open spec fn access_error_text(e: Access) -> Seq<char> {
    match e {
        Access::NotPresent => "ValueAccessError: field is not present"@,
        Access::UnexpectedType => "ValueAccessError: field does not have the expected type"@,
    }
}

/// The message of the panic of `expect(message)` on a field access error.
pub open spec fn expect_panic(message: Seq<char>, e: Access) -> Seq<char> {
    message + ": "@ + access_error_text(e)
}

/// The message of the panic of `expect(message)` on a field access error.
pub fn expect_panic_text(message: &str, e: Access) -> (s: String)
    ensures
        s@ == expect_panic(message@, e),
{
    let detail = match e {
        Access::NotPresent => "ValueAccessError: field is not present",
        Access::UnexpectedType => "ValueAccessError: field does not have the expected type",
    };
    String::from_str(message).concat(": ").concat(detail)
}

/// The models of a sequence of records.
pub open spec fn records_model(v: Seq<Record>) -> Seq<RecordModel> {
    v.map_values(|r: Record| r@)
}

/// What a database lookup gave back: the matching documents, or a failure.
#[derive(Debug, PartialEq)]
pub enum Lookup {
    Found(Vec<Record>),
    Failed,
}

pub enum LookupModel {
    Found(Seq<RecordModel>),
    Failed,
}

impl View for Lookup {
    type V = LookupModel;

    open spec fn view(&self) -> LookupModel {
        match self {
            Lookup::Found(v) => LookupModel::Found(records_model(v@)),
            Lookup::Failed => LookupModel::Failed,
        }
    }
}

/// A lookup that a command asks for.
#[derive(Debug, PartialEq)]
pub enum Query {
    /// The users registered under a chat tag.
    UserByName(String),
    /// The teams of a name.
    TeamByName(String),
    /// The questions of a level.
    QuestionsAtLevel(i32),
}

pub enum QueryModel {
    UserByName(Seq<char>),
    TeamByName(Seq<char>),
    QuestionsAtLevel(i32),
}

impl View for Query {
    type V = QueryModel;

    open spec fn view(&self) -> QueryModel {
        match self {
            Query::UserByName(s) => QueryModel::UserByName(s@),
            Query::TeamByName(s) => QueryModel::TeamByName(s@),
            Query::QuestionsAtLevel(l) => QueryModel::QuestionsAtLevel(*l),
        }
    }
}

/// The two kinds of paid help: a hint, and a giveaway.
#[derive(Clone, Copy, Debug, PartialEq, Eq, Structural)]
pub enum HelpKind {
    Hint,
    Giveaway,
}

/// What becomes of an error while carrying out an effect: it ends the
/// command, or it is dropped.
#[derive(Clone, Copy, Debug, PartialEq, Eq, Structural)]
pub enum Policy {
    Propagate,
    Ignore,
}

/// A change to the database.
#[derive(Debug, PartialEq)]
pub enum Write {
    /// Insert a user document with this chat tag and an empty team name.
    InsertUser { username: String },
    /// Insert a team document: this name and password hash, level 0, this
    /// time stamp in milliseconds, and empty lists of used hints and giveaways.
    InsertTeam { name: String, password: String, last_updated: i64 },
    /// Set the team name of the first user of this chat tag.
    SetUserTeam { username: String, team_name: String },
    /// Set the level, points and time stamp of the first team of this name.
    Promote { team: String, level: i32, points: i32, last_updated: i64 },
    /// Set the used hints (or giveaways) and the points of the first team of this name.
    Charge { team: String, kind: HelpKind, used: Vec<i32>, points: i32 },
}

pub enum WriteModel {
    InsertUser { username: Seq<char> },
    InsertTeam { name: Seq<char>, password: Seq<char>, last_updated: i64 },
    SetUserTeam { username: Seq<char>, team_name: Seq<char> },
    Promote { team: Seq<char>, level: i32, points: i32, last_updated: i64 },
    Charge { team: Seq<char>, kind: HelpKind, used: Seq<i32>, points: i32 },
}

impl View for Write {
    type V = WriteModel;

    open spec fn view(&self) -> WriteModel {
        match self {
            Write::InsertUser { username } => WriteModel::InsertUser { username: username@ },
            Write::InsertTeam { name, password, last_updated } => WriteModel::InsertTeam {
                name: name@,
                password: password@,
                last_updated: *last_updated,
            },
            Write::SetUserTeam { username, team_name } => WriteModel::SetUserTeam {
                username: username@,
                team_name: team_name@,
            },
            Write::Promote { team, level, points, last_updated } => WriteModel::Promote {
                team: team@,
                level: *level,
                points: *points,
                last_updated: *last_updated,
            },
            Write::Charge { team, kind, used, points } => WriteModel::Charge {
                team: team@,
                kind: *kind,
                used: used@,
                points: *points,
            },
        }
    }
}

/// A message to the chat.
#[derive(Debug, PartialEq)]
pub enum Reply {
    /// A plain text message.
    Text(String),
    /// A card that shows a question, with the footer "Answer By Saying ?c answer <answer>".
    QuestionCard { title: String, description: String },
}

pub enum ReplyModel {
    Text(Seq<char>),
    QuestionCard { title: Seq<char>, description: Seq<char> },
}

impl View for Reply {
    type V = ReplyModel;

    open spec fn view(&self) -> ReplyModel {
        match self {
            Reply::Text(t) => ReplyModel::Text(t@),
            Reply::QuestionCard { title, description } => ReplyModel::QuestionCard {
                title: title@,
                description: description@,
            },
        }
    }
}

/// One thing to do at the end of a command.
#[derive(Debug, PartialEq)]
pub enum Effect {
    Store(Write, Policy),
    Send(Reply, Policy),
}

pub enum EffectModel {
    Store(WriteModel, Policy),
    Send(ReplyModel, Policy),
}

impl View for Effect {
    type V = EffectModel;

    open spec fn view(&self) -> EffectModel {
        match self {
            Effect::Store(w, p) => EffectModel::Store(w@, *p),
            Effect::Send(r, p) => EffectModel::Send(r@, *p),
        }
    }
}

/// The models of a sequence of effects.
pub open spec fn effects_model(v: Seq<Effect>) -> Seq<EffectModel> {
    v.map_values(|e: Effect| e@)
}

/// Why a command ends with an error.
#[derive(Debug)]
pub enum CommandError {
    /// The lookup just answered failed; its error is the command's.
    ReadFailed,
    /// The user's document holds no readable team name, for this reason.
    TeamNameUnreadable(Access),
    /// Hashing a password failed.
    Hash(pwhash::error::Error),
}

pub enum CommandErrorModel {
    ReadFailed,
    TeamNameUnreadable(Access),
    Hash,
}

impl View for CommandError {
    type V = CommandErrorModel;

    open spec fn view(&self) -> CommandErrorModel {
        match self {
            CommandError::ReadFailed => CommandErrorModel::ReadFailed,
            CommandError::TeamNameUnreadable(e) => CommandErrorModel::TeamNameUnreadable(*e),
            CommandError::Hash(_) => CommandErrorModel::Hash,
        }
    }
}

/// The next step of a command in state `S`.
#[derive(Debug)]
pub enum Step<S> {
    /// Carry out the query and resume the state with its result.
    Fetch(S, Query),
    /// Carry out these effects in order; the command is over.
    Done(Vec<Effect>),
    /// The command ends with this error.
    Fail(CommandError),
    /// The command panics with this message.
    Crash(String),
}

pub enum StepModel<M> {
    Fetch(M, QueryModel),
    Done(Seq<EffectModel>),
    Fail(CommandErrorModel),
    Crash(Seq<char>),
}

impl<S: View> View for Step<S> {
    type V = StepModel<S::V>;

    open spec fn view(&self) -> StepModel<S::V> {
        match self {
            Step::Fetch(s, q) => StepModel::Fetch(s@, q@),
            Step::Done(v) => StepModel::Done(effects_model(v@)),
            Step::Fail(e) => StepModel::Fail(e@),
            Step::Crash(m) => StepModel::Crash(m@),
        }
    }
}

} // verus!

verus! {

/// An empty document.
pub open spec fn blank_record() -> RecordModel {
    RecordModel {
        team_name: Err(Access::NotPresent),
        name: Err(Access::NotPresent),
        password: Err(Access::NotPresent),
        level: Err(Access::NotPresent),
        points: Err(Access::NotPresent),
        hints: Err(Access::NotPresent),
        giveaways: Err(Access::NotPresent),
        question: Err(Access::NotPresent),
        answer: Err(Access::NotPresent),
        hint: Err(Access::NotPresent),
        giveaway: Err(Access::NotPresent),
    }
}

/// The document that an insert stores, as a later lookup reads it back.
pub open spec fn inserted_record(w: WriteModel) -> Option<RecordModel> {
    match w {
        WriteModel::InsertUser { .. } => Some(
            RecordModel { team_name: Ok(seq![]), ..blank_record() },
        ),
        WriteModel::InsertTeam { name, password, .. } => Some(
            RecordModel {
                name: Ok(name),
                password: Ok(password),
                level: Ok(0),
                hints: Ok(seq![]),
                giveaways: Ok(seq![]),
                ..blank_record()
            },
        ),
        _ => None,
    }
}

/// A document that an update matched, as a later lookup reads it back.
pub open spec fn updated_record(w: WriteModel, r: RecordModel) -> RecordModel {
    match w {
        WriteModel::SetUserTeam { team_name, .. } => RecordModel {
            team_name: Ok(team_name),
            ..r
        },
        WriteModel::Promote { level, points, .. } => RecordModel {
            level: Ok(level),
            points: Ok(points),
            ..r
        },
        WriteModel::Charge { kind, used, points, .. } => match kind {
            HelpKind::Hint => RecordModel { hints: Ok(used), points: Ok(points), ..r },
            HelpKind::Giveaway => RecordModel { giveaways: Ok(used), points: Ok(points), ..r },
        },
        _ => r,
    }
}

/// Whether a step ends the command with a change to the database.
pub open spec fn writes<M>(s: StepModel<M>) -> bool {
    s matches StepModel::Done(effects) && exists|i: int|
        0 <= i < effects.len() && #[trigger] effects[i] is Store
}

} // verus!
