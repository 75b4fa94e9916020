//! Registration, login and logout of users and teams.

use vstd::prelude::*;
use vstd::utf8::encode_utf8;
use crate::clock::now_millis;
use crate::flow::{
    both, index_panic, index_panic_text, login_status, logged_in, only, stored, tell, told,
};
use crate::model::{
    expect_panic, expect_panic_text, CommandError, CommandErrorModel, Effect, Lookup, LookupModel, Policy, Query, QueryModel,
    Record, RecordModel, Step, StepModel, Write, WriteModel, records_model,
};
use crate::password::{
    bcrypt_hash_form, bcrypt_verifies, has_bcrypt_setup, hash_password, verify_panic_message, verify_panic_text,
    verify_panics, verify_password, verify_would_panic,
};

verus! {

/// The reply to a chat user who has not registered.
pub open spec fn no_such_user() -> Seq<char> {
    "No Such User, Register your self with ```?c register```"@
}

fn no_such_user_text() -> (s: String)
    ensures
        s@ == no_such_user(),
{
    String::from_str("No Such User, Register your self with ```?c register```")
}

/// The longest team name, in bytes of UTF-8.
pub const MAX_TEAM_NAME_BYTES: usize = 20;

// ---------------------------------------------------------------- register_team

/// The states of `register_team`.
#[derive(Debug)]
pub enum RegisterTeam {
    AwaitUser { team_name: String, password: String },
    AwaitTeam { team_name: String, password: String },
}

pub enum RegisterTeamModel {
    AwaitUser { team_name: Seq<char>, password: Seq<char> },
    AwaitTeam { team_name: Seq<char>, password: Seq<char> },
}

impl View for RegisterTeam {
    type V = RegisterTeamModel;

    open spec fn view(&self) -> RegisterTeamModel {
        match self {
            RegisterTeam::AwaitUser { team_name, password } => RegisterTeamModel::AwaitUser {
                team_name: team_name@,
                password: password@,
            },
            RegisterTeam::AwaitTeam { team_name, password } => RegisterTeamModel::AwaitTeam {
                team_name: team_name@,
                password: password@,
            },
        }
    }
}

/// The team document that registering `team_name` stores, with the password
/// hash and time stamp that it was made with.
pub open spec fn new_team(team_name: Seq<char>, hash: Seq<char>, now: i64) -> WriteModel {
    WriteModel::InsertTeam { name: team_name, password: hash, last_updated: now }
}

/// The next step of `register_team`, given, for the last step, the outcome
/// of hashing the password (`None` where hashing failed) and the clock.
pub open spec fn register_team_next(
    s: RegisterTeamModel,
    l: LookupModel,
    hashed: Option<Seq<char>>,
    now: i64,
) -> StepModel<RegisterTeamModel> {
    match l {
        LookupModel::Failed => StepModel::Fail(CommandErrorModel::ReadFailed),
        LookupModel::Found(rs) => match s {
            RegisterTeamModel::AwaitUser { team_name, password } => if rs.len() == 0 {
                StepModel::Done(seq![told(no_such_user())])
            } else {
                StepModel::Fetch(
                    RegisterTeamModel::AwaitTeam { team_name, password },
                    QueryModel::TeamByName(team_name),
                )
            },
            RegisterTeamModel::AwaitTeam { team_name, password } => if rs.len() != 0 {
                StepModel::Done(seq![told("Team With This Name Already Exists"@)])
            } else if encode_utf8(team_name).len() > MAX_TEAM_NAME_BYTES {
                StepModel::Done(seq![told("Team Name Cannot Be More Than 20 Characters."@)])
            } else {
                match hashed {
                    None => StepModel::Fail(CommandErrorModel::Hash),
                    Some(h) => StepModel::Done(
                        seq![
                            stored(new_team(team_name, h, now)),
                            told("Team **"@ + team_name + "** registered"@),
                        ],
                    ),
                }
            },
        },
    }
}

/// Whether the step of `register_team` hashes the password: the author is
/// registered (the state is past the user lookup), no team has the name, and
/// the name is at most 20 bytes long.
pub open spec fn register_team_hashes(s: RegisterTeamModel, l: LookupModel) -> bool {
    &&& s is AwaitTeam
    &&& l == LookupModel::Found(seq![])
    &&& encode_utf8(s->AwaitTeam_team_name).len() <= MAX_TEAM_NAME_BYTES
}

/// A step of `register_team` that the contracts allow. Where the step hashes
/// the password, it is the model's step for some clock reading and some
/// hash, which is of bcrypt's form and one that bcrypt verification accepts
/// the password against; hashing does not fail. Elsewhere it is the model's
/// step, which neither hashes nor reads the clock.
pub open spec fn register_team_allows(
    s: RegisterTeamModel,
    l: LookupModel,
    r: StepModel<RegisterTeamModel>,
) -> bool {
    if register_team_hashes(s, l) {
        exists|h: Seq<char>, now: i64|
            #[trigger] register_team_next(s, l, Some(h), now) == r && {
                &&& bcrypt_verifies(register_team_password(s), h)
                &&& !verify_panics(h)
                &&& bcrypt_hash_form(h)
            }
    } else {
        r == register_team_next(s, l, None, 0)
    }
}

pub open spec fn register_team_password(s: RegisterTeamModel) -> Seq<char> {
    match s {
        RegisterTeamModel::AwaitUser { password, .. } => password,
        RegisterTeamModel::AwaitTeam { password, .. } => password,
    }
}

/// Starts `register_team` for the chat user `author`: it looks up the author.
pub fn register_team(author: String, team_name: String, password: String) -> (s: Step<RegisterTeam>)
    ensures
        s@ == StepModel::Fetch(
            RegisterTeamModel::AwaitUser { team_name: team_name@, password: password@ },
            QueryModel::UserByName(author@),
        ),
{
    Step::Fetch(RegisterTeam::AwaitUser { team_name, password }, Query::UserByName(author))
}

/// The end of a registration whose checks passed, from the outcome of
/// hashing the password and the clock reading.
pub fn register_team_store(
    team_name: String,
    hashed: Result<String, pwhash::error::Error>,
    now: i64,
) -> (s: Step<RegisterTeam>)
    ensures
        s@ == (match hashed {
            Err(_) => StepModel::Fail(CommandErrorModel::Hash),
            Ok(h) => StepModel::<RegisterTeamModel>::Done(
                seq![
                    stored(new_team(team_name@, h@, now)),
                    told("Team **"@ + team_name@ + "** registered"@),
                ],
            ),
        }),
{
    match hashed {
        Err(e) => Step::Fail(CommandError::Hash(e)),
        Ok(h) => {
            let message = String::from_str("Team **").concat(team_name.as_str()).concat(
                "** registered",
            );
            proof {
                assert(message@ =~= "Team **"@ + team_name@ + "** registered"@);
            }
            let write = Write::InsertTeam { name: team_name, password: h, last_updated: now };
            both(Effect::Store(write, Policy::Propagate), tell(message))
        },
    }
}

impl RegisterTeam {
    /// Takes the result of the lookup that the last step asked for.
    pub fn resume(self, l: Lookup) -> (r: Step<RegisterTeam>)
        ensures
            register_team_allows(self@, l@, r@),
    {
        let ghost s = self@;
        match l {
            Lookup::Failed => {
                let r = Step::Fail(CommandError::ReadFailed);
                assert(register_team_next(s, l@, None, 0) == r@);
                r
            },
            Lookup::Found(rs) => match self {
                RegisterTeam::AwaitUser { team_name, password } => {
                    let r = if rs.len() == 0 {
                        only(tell(no_such_user_text()))
                    } else {
                        Step::Fetch(
                            RegisterTeam::AwaitTeam { team_name: team_name.clone(), password },
                            Query::TeamByName(team_name),
                        )
                    };
                    assert(register_team_next(s, l@, None, 0) == r@);
                    r
                },
                RegisterTeam::AwaitTeam { team_name, password } => {
                    if rs.len() != 0 {
                        let r = only(tell(String::from_str("Team With This Name Already Exists")));
                        assert(register_team_next(s, l@, None, 0) == r@);
                        r
                    } else if team_name.as_str().as_bytes().len() > MAX_TEAM_NAME_BYTES {
                        let r = only(
                            tell(String::from_str("Team Name Cannot Be More Than 20 Characters.")),
                        );
                        assert(register_team_next(s, l@, None, 0) == r@);
                        r
                    } else {
                        let hashed = hash_password(password.as_str());
                        let now = now_millis();
                        let ghost h = match &hashed {
                            Ok(h) => h@,
                            Err(_) => Seq::<char>::empty(),
                        };
                        let r = register_team_store(team_name, hashed, now);
                        assert(register_team_next(s, l@, Some(h), now) == r@);
                        assert(l@ == LookupModel::Found(seq![])) by {
                            assert(records_model(rs@) =~= seq![]);
                        }
                        r
                    }
                },
            },
        }
    }
}

// ---------------------------------------------------------------- register_user

/// The state of `register_user`: waiting for the lookup of the author.
#[derive(Debug)]
pub struct RegisterUser {
    pub author: String,
}

impl View for RegisterUser {
    type V = Seq<char>;

    open spec fn view(&self) -> Seq<char> {
        self.author@
    }
}

/// The next step of `register_user`.
pub open spec fn register_user_next(author: Seq<char>, l: LookupModel) -> StepModel<Seq<char>> {
    match l {
        LookupModel::Failed => StepModel::Fail(CommandErrorModel::ReadFailed),
        LookupModel::Found(rs) => if rs.len() == 0 {
            StepModel::Done(
                seq![
                    crate::model::EffectModel::Store(
                        WriteModel::InsertUser { username: author },
                        Policy::Ignore,
                    ),
                    told("User Successfully Registered"@),
                ],
            )
        } else {
            StepModel::Done(seq![told("User Already Registered"@)])
        },
    }
}

/// Starts `register_user` for the chat user `author`: it looks up the author.
pub fn register_user(author: String) -> (s: Step<RegisterUser>)
    ensures
        s@ == StepModel::Fetch(author@, QueryModel::UserByName(author@)),
{
    let query = Query::UserByName(author.clone());
    Step::Fetch(RegisterUser { author }, query)
}

impl RegisterUser {
    /// Takes the result of the lookup of the author.
    pub fn resume(self, l: Lookup) -> (r: Step<RegisterUser>)
        ensures
            r@ == register_user_next(self@, l@),
    {
        match l {
            Lookup::Failed => Step::Fail(CommandError::ReadFailed),
            Lookup::Found(rs) => {
                if rs.len() == 0 {
                    both(
                        Effect::Store(Write::InsertUser { username: self.author }, Policy::Ignore),
                        tell(String::from_str("User Successfully Registered")),
                    )
                } else {
                    only(tell(String::from_str("User Already Registered")))
                }
            },
        }
    }
}

// ---------------------------------------------------------------- login_team

/// The states of `login_team`.
#[derive(Debug)]
pub enum LoginTeam {
    /// Waiting for the author's user documents.
    AwaitUser { author: String, team_name: String, password: String },
    /// Waiting for the author's user documents again, to check the login.
    AwaitCheck { author: String, team_name: String, password: String, users: Vec<Record> },
    /// Waiting for the teams of the name given.
    AwaitTeam { author: String, team_name: String, password: String },
}

pub enum LoginTeamModel {
    AwaitUser { author: Seq<char>, team_name: Seq<char>, password: Seq<char> },
    AwaitCheck {
        author: Seq<char>,
        team_name: Seq<char>,
        password: Seq<char>,
        users: Seq<RecordModel>,
    },
    AwaitTeam { author: Seq<char>, team_name: Seq<char>, password: Seq<char> },
}

impl View for LoginTeam {
    type V = LoginTeamModel;

    open spec fn view(&self) -> LoginTeamModel {
        match self {
            LoginTeam::AwaitUser { author, team_name, password } => LoginTeamModel::AwaitUser {
                author: author@,
                team_name: team_name@,
                password: password@,
            },
            LoginTeam::AwaitCheck { author, team_name, password, users } =>
                LoginTeamModel::AwaitCheck {
                author: author@,
                team_name: team_name@,
                password: password@,
                users: records_model(users@),
            },
            LoginTeam::AwaitTeam { author, team_name, password } => LoginTeamModel::AwaitTeam {
                author: author@,
                team_name: team_name@,
                password: password@,
            },
        }
    }
}

/// The stored password hash of a team document, or the text the bot checks
/// against where it has none.
pub open spec fn stored_hash(team: RecordModel) -> Seq<char> {
    match team.password {
        Ok(p) => p,
        Err(_) => "Could not verify password."@,
    }
}

/// The end of a login whose team was found: the password is checked
/// against the first team's stored hash; a text without a bcrypt setup
/// (such as the stand-in for a missing hash) accepts no password.
pub open spec fn login_decision(
    author: Seq<char>,
    team_name: Seq<char>,
    password: Seq<char>,
    team: RecordModel,
) -> StepModel<LoginTeamModel> {
    let hash = stored_hash(team);
    if verify_panics(hash) {
        StepModel::Crash(verify_panic_message(hash))
    } else if has_bcrypt_setup(hash) && bcrypt_verifies(password, hash) {
        StepModel::Done(
            seq![
                stored(WriteModel::SetUserTeam { username: author, team_name }),
                told("Logged in as **"@ + team_name + "**"@),
            ],
        )
    } else {
        StepModel::Done(seq![told("Wrong Password"@)])
    }
}

/// The next step of `login_team`.
pub open spec fn login_team_next(s: LoginTeamModel, l: LookupModel) -> StepModel<LoginTeamModel> {
    match s {
        LoginTeamModel::AwaitUser { author, team_name, password } => match l {
            LookupModel::Failed => StepModel::Fail(CommandErrorModel::ReadFailed),
            LookupModel::Found(users) => StepModel::Fetch(
                LoginTeamModel::AwaitCheck { author, team_name, password, users },
                QueryModel::UserByName(author),
            ),
        },
        LoginTeamModel::AwaitCheck { author, team_name, password, users } => match login_status(
            l,
        ) {
            Err(e) => StepModel::Crash(expect_panic("could not find name"@, e)),
            Ok(true) => if users.len() == 0 {
                StepModel::Crash(index_panic())
            } else {
                match users[0].team_name {
                    Err(e) => StepModel::Fail(CommandErrorModel::TeamNameUnreadable(e)),
                    Ok(t) => StepModel::Done(seq![told("Already Logged In With Team "@ + t)]),
                }
            },
            Ok(false) => StepModel::Fetch(
                LoginTeamModel::AwaitTeam { author, team_name, password },
                QueryModel::TeamByName(team_name),
            ),
        },
        LoginTeamModel::AwaitTeam { author, team_name, password } => match l {
            LookupModel::Failed => StepModel::Fail(CommandErrorModel::ReadFailed),
            LookupModel::Found(teams) => if teams.len() == 0 {
                StepModel::Done(
                    seq![
                        told(
                            "No Such Team, Register your self with ```?c rt teamname password```"@,
                        ),
                    ],
                )
            } else {
                login_decision(author, team_name, password, teams[0])
            },
        },
    }
}

/// Starts `login_team` for the chat user `author`: it looks up the author.
pub fn login_team(author: String, team_name: String, password: String) -> (s: Step<LoginTeam>)
    ensures
        s@ == StepModel::Fetch(
            LoginTeamModel::AwaitUser {
                author: author@,
                team_name: team_name@,
                password: password@,
            },
            QueryModel::UserByName(author@),
        ),
{
    let query = Query::UserByName(author.clone());
    Step::Fetch(LoginTeam::AwaitUser { author, team_name, password }, query)
}

impl LoginTeam {
    /// Takes the result of the lookup that the last step asked for.
    pub fn resume(self, l: Lookup) -> (r: Step<LoginTeam>)
        ensures
            r@ == login_team_next(self@, l@),
    {
        match self {
            LoginTeam::AwaitUser { author, team_name, password } => match l {
                Lookup::Failed => Step::Fail(CommandError::ReadFailed),
                Lookup::Found(users) => {
                    let query = Query::UserByName(author.clone());
                    Step::Fetch(LoginTeam::AwaitCheck { author, team_name, password, users }, query)
                },
            },
            LoginTeam::AwaitCheck { author, team_name, password, users } => {
                match logged_in(&l) {
                    Err(e) => Step::Crash(expect_panic_text("could not find name", e)),
                    Ok(true) => {
                        if users.len() == 0 {
                            Step::Crash(index_panic_text())
                        } else {
                            match &users[0].team_name {
                                Err(e) => Step::Fail(CommandError::TeamNameUnreadable(*e)),
                                Ok(t) => {
                                    let message = String::from_str(
                                        "Already Logged In With Team ",
                                    ).concat(t.as_str());
                                    only(tell(message))
                                },
                            }
                        }
                    },
                    Ok(false) => {
                        let query = Query::TeamByName(team_name.clone());
                        Step::Fetch(LoginTeam::AwaitTeam { author, team_name, password }, query)
                    },
                }
            },
            LoginTeam::AwaitTeam { author, team_name, password } => match l {
                Lookup::Failed => Step::Fail(CommandError::ReadFailed),
                Lookup::Found(teams) => {
                    if teams.len() == 0 {
                        only(
                            tell(
                                String::from_str(
                                    "No Such Team, Register your self with ```?c rt teamname password```",
                                ),
                            ),
                        )
                    } else {
                        let hash = match &teams[0].password {
                            Ok(p) => p.clone(),
                            Err(_) => String::from_str("Could not verify password."),
                        };
                        if verify_would_panic(hash.as_str()) {
                            Step::Crash(verify_panic_text(hash.as_str()))
                        } else if verify_password(password.as_str(), hash.as_str()) {
                            let message = String::from_str("Logged in as **").concat(
                                team_name.as_str(),
                            ).concat("**");
                            let write = Write::SetUserTeam { username: author, team_name };
                            both(Effect::Store(write, Policy::Propagate), tell(message))
                        } else {
                            only(tell(String::from_str("Wrong Password")))
                        }
                    }
                },
            },
        }
    }
}

// ---------------------------------------------------------------- logout

/// The state of `logout`: waiting for the lookup of the author.
#[derive(Debug)]
pub struct Logout {
    pub author: String,
}

impl View for Logout {
    type V = Seq<char>;

    open spec fn view(&self) -> Seq<char> {
        self.author@
    }
}

/// The next step of `logout`.
pub open spec fn logout_next(author: Seq<char>, l: LookupModel) -> StepModel<Seq<char>> {
    match l {
        LookupModel::Failed => StepModel::Fail(CommandErrorModel::ReadFailed),
        LookupModel::Found(users) => if users.len() == 0 {
            StepModel::Done(seq![told(no_such_user())])
        } else {
            match users[0].team_name {
                Err(e) => StepModel::Fail(CommandErrorModel::TeamNameUnreadable(e)),
                Ok(t) => if t.len() > 0 {
                    StepModel::Done(
                        seq![
                            stored(WriteModel::SetUserTeam { username: author, team_name: seq![] }),
                            told("Logged Out"@),
                        ],
                    )
                } else {
                    StepModel::Done(seq![told("Not Logged In"@)])
                },
            }
        },
    }
}

/// Starts `logout` for the chat user `author`: it looks up the author.
pub fn logout(author: String) -> (s: Step<Logout>)
    ensures
        s@ == StepModel::Fetch(author@, QueryModel::UserByName(author@)),
{
    let query = Query::UserByName(author.clone());
    Step::Fetch(Logout { author }, query)
}

impl Logout {
    /// Takes the result of the lookup of the author.
    pub fn resume(self, l: Lookup) -> (r: Step<Logout>)
        ensures
            r@ == logout_next(self@, l@),
    {
        match l {
            Lookup::Failed => Step::Fail(CommandError::ReadFailed),
            Lookup::Found(users) => {
                if users.len() == 0 {
                    only(tell(no_such_user_text()))
                } else {
                    match &users[0].team_name {
                        Err(e) => Step::Fail(CommandError::TeamNameUnreadable(*e)),
                        Ok(t) => {
                            if !t.as_str().is_empty() {
                                let write = Write::SetUserTeam {
                                    username: self.author,
                                    team_name: String::new(),
                                };
                                both(
                                    Effect::Store(write, Policy::Propagate),
                                    tell(String::from_str("Logged Out")),
                                )
                            } else {
                                only(tell(String::from_str("Not Logged In")))
                            }
                        },
                    }
                }
            },
        }
    }
}

} // verus!
