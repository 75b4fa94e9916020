use linear_bot::flow::logged_in;
use linear_bot::auth::{login_team, logout, register_team, register_user, LoginTeam, RegisterTeam};
use linear_bot::model::{Access, CommandError, Effect, Lookup, Policy, Query, Record, Reply, Step, Write};

fn blank() -> Record {
    Record {
        team_name: Err(Access::NotPresent),
        name: Err(Access::NotPresent),
        password: Err(Access::NotPresent),
        level: Err(Access::NotPresent),
        points: Err(Access::NotPresent),
        hints: Err(Access::NotPresent),
        giveaways: Err(Access::NotPresent),
        question: Err(Access::NotPresent),
        answer: Err(Access::NotPresent),
        hint: Err(Access::NotPresent),
        giveaway: Err(Access::NotPresent),
    }
}

fn user(team: &str) -> Record {
    Record { team_name: Ok(team.to_string()), ..blank() }
}

fn say(t: &str) -> Effect {
    Effect::Send(Reply::Text(t.to_string()), Policy::Propagate)
}

fn expect_fetch<S: std::fmt::Debug>(step: Step<S>, query: Query) -> S {
    match step {
        Step::Fetch(s, q) => {
            assert_eq!(q, query);
            s
        }
        other => panic!("expected a lookup, got {:?}", other),
    }
}

fn done<S: std::fmt::Debug>(step: Step<S>) -> Vec<Effect> {
    match step {
        Step::Done(e) => e,
        other => panic!("expected the end, got {:?}", other),
    }
}

fn register(name: &str, password: &str, users: Vec<Record>, teams: Vec<Record>) -> Step<RegisterTeam> {
    let s = expect_fetch(
        register_team("ann#1".to_string(), name.to_string(), password.to_string()),
        Query::UserByName("ann#1".to_string()),
    );
    let step = s.resume(Lookup::Found(users));
    match step {
        Step::Fetch(s, q) => {
            assert_eq!(q, Query::TeamByName(name.to_string()));
            s.resume(Lookup::Found(teams))
        }
        other => other,
    }
}

#[test]
fn register_team_for_unknown_user() {
    let effects = done(register("reds", "pw", vec![], vec![]));
    assert_eq!(effects, vec![say("No Such User, Register your self with ```?c register```")]);
}

#[test]
fn register_team_taken_name() {
    let team = Record { name: Ok("reds".to_string()), ..blank() };
    let effects = done(register("reds", "pw", vec![user("")], vec![team]));
    assert_eq!(effects, vec![say("Team With This Name Already Exists")]);
}

#[test]
fn register_team_name_too_long_in_bytes() {
    // eleven characters, twenty-two bytes
    let effects = done(register("ééééééééééé", "pw", vec![user("")], vec![]));
    assert_eq!(effects, vec![say("Team Name Cannot Be More Than 20 Characters.")]);
    let effects = done(register("abcdefghijklmnopqrstu", "pw", vec![user("")], vec![]));
    assert_eq!(effects, vec![say("Team Name Cannot Be More Than 20 Characters.")]);
}

#[test]
fn register_team_read_failure() {
    let s = expect_fetch(
        register_team("ann#1".to_string(), "reds".to_string(), "pw".to_string()),
        Query::UserByName("ann#1".to_string()),
    );
    assert!(matches!(s.resume(Lookup::Failed), Step::Fail(CommandError::ReadFailed)));
}

#[test]
fn registered_team_accepts_its_password_only() {
    let name = "abcdefghijklmnopqrst"; // twenty bytes: the longest name allowed
    let effects = done(register(name, "hunter2", vec![user("")], vec![]));
    assert_eq!(effects.len(), 2);
    assert_eq!(effects[1], say("Team **abcdefghijklmnopqrst** registered"));
    let hash = match &effects[0] {
        Effect::Store(Write::InsertTeam { name: n, password, .. }, Policy::Propagate) => {
            assert_eq!(n, name);
            password.clone()
        }
        other => panic!("unexpected effect {:?}", other),
    };
    assert_ne!(hash, "hunter2");
    assert!(hash.starts_with("$2b$10$"));
    assert_eq!(hash.len(), 60);
    assert!(!linear_bot::password::verify_would_panic(&hash));
    let stored = Record {
        name: Ok(name.to_string()),
        password: Ok(hash.clone()),
        level: Ok(0),
        hints: Ok(vec![]),
        giveaways: Ok(vec![]),
        ..blank()
    };
    // the right password logs in
    let step = LoginTeam::AwaitTeam {
        author: "bob#2".to_string(),
        team_name: name.to_string(),
        password: "hunter2".to_string(),
    }
    .resume(Lookup::Found(vec![stored.clone()]));
    assert_eq!(
        done(step),
        vec![
            Effect::Store(
                Write::SetUserTeam { username: "bob#2".to_string(), team_name: name.to_string() },
                Policy::Propagate
            ),
            say("Logged in as **abcdefghijklmnopqrst**"),
        ]
    );
    // a wrong one does not
    let step = LoginTeam::AwaitTeam {
        author: "bob#2".to_string(),
        team_name: name.to_string(),
        password: "hunter3".to_string(),
    }
    .resume(Lookup::Found(vec![stored]));
    assert_eq!(done(step), vec![say("Wrong Password")]);
}

#[test]
fn register_user_new_and_known() {
    let s = expect_fetch(register_user("ann#1".to_string()), Query::UserByName("ann#1".to_string()));
    assert_eq!(
        done(s.resume(Lookup::Found(vec![]))),
        vec![
            Effect::Store(Write::InsertUser { username: "ann#1".to_string() }, Policy::Ignore),
            say("User Successfully Registered"),
        ]
    );
    let s = expect_fetch(register_user("ann#1".to_string()), Query::UserByName("ann#1".to_string()));
    assert_eq!(done(s.resume(Lookup::Found(vec![user("")]))), vec![say("User Already Registered")]);
    let s = expect_fetch(register_user("ann#1".to_string()), Query::UserByName("ann#1".to_string()));
    assert!(matches!(s.resume(Lookup::Failed), Step::Fail(CommandError::ReadFailed)));
}

fn login_until_team(first: Vec<Record>, check: Lookup) -> Step<LoginTeam> {
    let s = expect_fetch(
        login_team("ann#1".to_string(), "reds".to_string(), "pw".to_string()),
        Query::UserByName("ann#1".to_string()),
    );
    let s = expect_fetch(s.resume(Lookup::Found(first)), Query::UserByName("ann#1".to_string()));
    s.resume(check)
}

#[test]
fn login_when_already_logged_in() {
    let step = login_until_team(vec![user("blues")], Lookup::Found(vec![user("blues")]));
    assert_eq!(done(step), vec![say("Already Logged In With Team blues")]);
}

#[test]
fn login_check_without_team_name_panics() {
    let step = login_until_team(vec![user("")], Lookup::Found(vec![blank()]));
    assert!(matches!(step, Step::Crash(m) if m == "could not find name: ValueAccessError: field is not present"));
}

#[test]
fn login_logged_in_but_first_read_lacks_team_name() {
    let step = login_until_team(vec![blank()], Lookup::Found(vec![user("blues")]));
    assert!(matches!(step, Step::Fail(CommandError::TeamNameUnreadable(Access::NotPresent))));
}

#[test]
fn login_unknown_team_and_missing_hash() {
    let step = login_until_team(vec![], Lookup::Failed);
    let s = expect_fetch(step, Query::TeamByName("reds".to_string()));
    assert_eq!(
        done(s.resume(Lookup::Found(vec![]))),
        vec![say("No Such Team, Register your self with ```?c rt teamname password```")]
    );
    let step = login_until_team(vec![user("")], Lookup::Found(vec![user("")]));
    let s = expect_fetch(step, Query::TeamByName("reds".to_string()));
    // a team document without a password hash checks against a text that is no hash
    let team = Record { name: Ok("reds".to_string()), ..blank() };
    assert_eq!(done(s.resume(Lookup::Found(vec![team]))), vec![say("Wrong Password")]);
}

#[test]
fn login_against_hash_that_traps_the_decoder() {
    let step = login_until_team(vec![], Lookup::Found(vec![]));
    let s = expect_fetch(step, Query::TeamByName("reds".to_string()));
    let team = Record {
        password: Ok("$2b$10$ab\u{1}cdefghijklmnopqrstuvwxyz0123456789abcdefghijklmnopqr".to_string()),
        ..blank()
    };
    assert!(matches!(
        s.resume(Lookup::Found(vec![team])),
        Step::Crash(m) if m == "attempt to subtract with overflow"
    ));
    let step = login_until_team(vec![], Lookup::Found(vec![]));
    let s = expect_fetch(step, Query::TeamByName("reds".to_string()));
    let team = Record {
        password: Ok("$2b$10$ab\u{80}cdefghijklmnopqrstuvwxyz0123456789abcdefghijklmnopq".to_string()),
        ..blank()
    };
    assert!(matches!(
        s.resume(Lookup::Found(vec![team])),
        Step::Crash(m) if m == "index out of bounds: the len is 96 but the index is 96"
    ));
}

#[test]
fn logout_cases() {
    let run = |users: Lookup| {
        let s = expect_fetch(logout("ann#1".to_string()), Query::UserByName("ann#1".to_string()));
        s.resume(users)
    };
    assert_eq!(
        done(run(Lookup::Found(vec![user("reds")]))),
        vec![
            Effect::Store(
                Write::SetUserTeam { username: "ann#1".to_string(), team_name: String::new() },
                Policy::Propagate
            ),
            say("Logged Out"),
        ]
    );
    assert_eq!(done(run(Lookup::Found(vec![user("")]))), vec![say("Not Logged In")]);
    assert_eq!(
        done(run(Lookup::Found(vec![]))),
        vec![say("No Such User, Register your self with ```?c register```")]
    );
    assert!(matches!(run(Lookup::Found(vec![blank()])), Step::Fail(CommandError::TeamNameUnreadable(Access::NotPresent))));
    let mistyped = Record { team_name: Err(Access::UnexpectedType), ..blank() };
    assert!(matches!(run(Lookup::Found(vec![mistyped])), Step::Fail(CommandError::TeamNameUnreadable(Access::UnexpectedType))));
    assert!(matches!(run(Lookup::Failed), Step::Fail(CommandError::ReadFailed)));
}

#[test]
fn near_trapping_hashes_are_checked_without_panic() {
    let salt_and_sum = "abcdefghijklmnopqrstuvwxyz0123456789abcdefghijklmnopq";
    for hash in [
        format!("$2b$10$a!\u{1}{}", salt_and_sum),
        format!("$2b$03$\u{1}{}", salt_and_sum),
        format!("$2b$10$\u{1}abcdefghijklmnopqrsté{}", salt_and_sum),
        "$2b$10$\u{1}abc".to_string(),
    ] {
        let team = Record { password: Ok(hash), ..blank() };
        let step = LoginTeam::AwaitTeam {
            author: "ann#1".to_string(),
            team_name: "reds".to_string(),
            password: "pw".to_string(),
        }
        .resume(Lookup::Found(vec![team]));
        assert_eq!(done(step), vec![say("Wrong Password")]);
    }
}

#[test]
fn login_then_logout_as_seen_by_the_gate() {
    let step = LoginTeam::AwaitTeam {
        author: "ann#1".to_string(),
        team_name: "reds".to_string(),
        password: "pw".to_string(),
    }
    .resume(Lookup::Found(vec![]));
    assert_eq!(
        done(step),
        vec![say("No Such Team, Register your self with ```?c rt teamname password```")]
    );
    // the user document after a login to "reds", and after a logout
    assert_eq!(logged_in(&Lookup::Found(vec![user("reds")])), Ok(true));
    let s = expect_fetch(logout("ann#1".to_string()), Query::UserByName("ann#1".to_string()));
    let effects = done(s.resume(Lookup::Found(vec![user("reds")])));
    let cleared = match &effects[0] {
        Effect::Store(Write::SetUserTeam { team_name, .. }, _) => team_name.clone(),
        other => panic!("{:?}", other),
    };
    assert_eq!(logged_in(&Lookup::Found(vec![user(&cleared)])), Ok(false));
}
