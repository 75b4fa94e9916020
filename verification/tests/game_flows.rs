use linear_bot::flow::{get_team_by_user, get_team_question, logged_in, Chain, TeamChain};
use linear_bot::game::{answer, get_question, giveaway, hint, promote, Answer, Help};
use linear_bot::model::{Access, CommandError, Effect, HelpKind, Lookup, Policy, Query, Record, Reply, Step, Write};
use linear_bot::seed::{seed, SeedSecret};

fn blank() -> Record {
    Record {
        team_name: Err(Access::NotPresent),
        name: Err(Access::NotPresent),
        password: Err(Access::NotPresent),
        level: Err(Access::NotPresent),
        points: Err(Access::NotPresent),
        hints: Err(Access::NotPresent),
        giveaways: Err(Access::NotPresent),
        question: Err(Access::NotPresent),
        answer: Err(Access::NotPresent),
        hint: Err(Access::NotPresent),
        giveaway: Err(Access::NotPresent),
    }
}

fn user(team: &str) -> Record {
    Record { team_name: Ok(team.to_string()), ..blank() }
}

fn team(level: i32, points: Option<i32>) -> Record {
    Record {
        name: Ok("reds".to_string()),
        level: Ok(level),
        points: points.ok_or(Access::NotPresent),
        hints: Ok(vec![0]),
        giveaways: Ok(vec![]),
        ..blank()
    }
}

fn question(level: i32) -> Record {
    Record {
        level: Ok(level),
        question: Ok("Who?".to_string()),
        hint: Ok("look up".to_string()),
        giveaway: Ok("it is you".to_string()),
        ..blank()
    }
}

fn say(t: &str) -> Effect {
    Effect::Send(Reply::Text(t.to_string()), Policy::Propagate)
}

fn say_quietly(t: &str) -> Effect {
    Effect::Send(Reply::Text(t.to_string()), Policy::Ignore)
}

fn feed<S: std::fmt::Debug>(
    mut step: Step<S>,
    resume: fn(S, Lookup) -> Step<S>,
    mut lookups: Vec<(Query, Lookup)>,
) -> Step<S> {
    lookups.reverse();
    loop {
        match step {
            Step::Fetch(s, q) => {
                if lookups.is_empty() {
                    return Step::Fetch(s, q);
                }
                let (want, l) = lookups.pop().unwrap();
                assert_eq!(q, want);
                step = resume(s, l);
            }
            other => {
                assert!(lookups.is_empty(), "lookups left over");
                return other;
            }
        }
    }
}

fn me() -> Query {
    Query::UserByName("ann#1".to_string())
}

fn reds() -> Query {
    Query::TeamByName("reds".to_string())
}

#[test]
fn logged_in_decisions() {
    assert_eq!(logged_in(&Lookup::Failed), Ok(false));
    assert_eq!(logged_in(&Lookup::Found(vec![])), Ok(false));
    assert_eq!(logged_in(&Lookup::Found(vec![user("")])), Ok(false));
    assert_eq!(logged_in(&Lookup::Found(vec![user("reds")])), Ok(true));
    assert_eq!(logged_in(&Lookup::Found(vec![blank()])), Err(Access::NotPresent));
    let mistyped = Record { team_name: Err(Access::UnexpectedType), ..blank() };
    assert_eq!(logged_in(&Lookup::Found(vec![mistyped])), Err(Access::UnexpectedType));
}

#[test]
fn team_chains() {
    match get_team_by_user("ann#1".to_string()) {
        Chain::Fetch(c, q) => {
            assert_eq!(q, me());
            match c.resume(Lookup::Found(vec![blank()])) {
                Chain::Fetch(c, q) => {
                    assert_eq!(q, Query::TeamByName("Failed To Fetch Team".to_string()));
                    assert!(matches!(c.resume(Lookup::Found(vec![])), Chain::Found(v) if v.is_empty()));
                }
                _ => panic!(),
            }
        }
        _ => panic!(),
    }
    match get_team_question("ann#1".to_string()) {
        Chain::Fetch(c, _) => {
            assert!(matches!(c.resume(Lookup::Found(vec![])), Chain::Crash(_)));
        }
        _ => panic!(),
    }
    let after_team = TeamChain::AwaitTeam { questions: true }.resume(Lookup::Found(vec![team(3, None)]));
    assert!(matches!(after_team, Chain::Fetch(TeamChain::AwaitQuestions, Query::QuestionsAtLevel(3))));
    let no_level = TeamChain::AwaitTeam { questions: true }.resume(Lookup::Found(vec![blank()]));
    assert!(matches!(no_level, Chain::Fetch(_, Query::QuestionsAtLevel(0))));
    assert!(matches!(TeamChain::AwaitQuestions.resume(Lookup::Failed), Chain::Fail(CommandError::ReadFailed)));
}

#[test]
fn get_question_shows_the_card() {
    let r = feed(
        get_question("ann#1".to_string()),
        |s, l| s.resume(l),
        vec![
            (me(), Lookup::Found(vec![user("reds")])),
            (me(), Lookup::Found(vec![user("reds")])),
            (reds(), Lookup::Found(vec![team(2, None)])),
            (Query::QuestionsAtLevel(2), Lookup::Found(vec![question(2)])),
        ],
    );
    match r {
        Step::Done(e) => assert_eq!(
            e,
            vec![Effect::Send(
                Reply::QuestionCard { title: "Question 2: ".to_string(), description: "Who?".to_string() },
                Policy::Propagate
            )]
        ),
        other => panic!("{:?}", other),
    }
}

#[test]
fn get_question_edge_cases() {
    let r = feed(get_question("ann#1".to_string()), |s, l| s.resume(l), vec![(me(), Lookup::Found(vec![user("")]))]);
    assert!(matches!(r, Step::Done(e) if e == vec![say("Not Logged In With A Team")]));
    // a team that finished the game has no question at its level
    let r = feed(
        get_question("ann#1".to_string()),
        |s, l| s.resume(l),
        vec![
            (me(), Lookup::Found(vec![user("reds")])),
            (me(), Lookup::Found(vec![user("reds")])),
            (reds(), Lookup::Found(vec![team(5, None)])),
            (Query::QuestionsAtLevel(5), Lookup::Found(vec![])),
        ],
    );
    assert!(matches!(r, Step::Crash(m) if m == "index out of bounds: the len is 0 but the index is 0"));
    let r = feed(
        get_question("ann#1".to_string()),
        |s, l| s.resume(l),
        vec![
            (me(), Lookup::Found(vec![user("reds")])),
            (me(), Lookup::Found(vec![user("reds")])),
            (reds(), Lookup::Found(vec![team(1, None)])),
            (Query::QuestionsAtLevel(1), Lookup::Found(vec![blank()])),
        ],
    );
    match r {
        Step::Done(e) => assert_eq!(
            e,
            vec![Effect::Send(
                Reply::QuestionCard {
                    title: "Question 0: ".to_string(),
                    description: "Could Not Find Question".to_string()
                },
                Policy::Propagate
            )]
        ),
        other => panic!("{:?}", other),
    }
}

fn answer_until_questions(guess: &str, t: Record) -> Step<Answer> {
    feed(
        answer("ann#1".to_string(), guess.to_string()),
        |s, l| s.resume(l),
        vec![
            (me(), Lookup::Found(vec![user("reds")])),
            (me(), Lookup::Found(vec![user("reds")])),
            (reds(), Lookup::Found(vec![t])),
        ],
    )
}

#[test]
fn answer_after_completion() {
    let r = answer_until_questions("x", team(5, Some(5000)));
    assert!(matches!(r, Step::Done(e) if e == vec![say_quietly("You have already completed the game")]));
}

#[test]
fn answer_without_question() {
    match answer_until_questions("x", team(7, None)) {
        Step::Fetch(s, q) => {
            assert_eq!(q, Query::QuestionsAtLevel(7));
            let r = s.resume(Lookup::Found(vec![]));
            assert!(matches!(r, Step::Done(e) if e == vec![say("Invalid Question (Hint: first question is 0)")]));
        }
        other => panic!("{:?}", other),
    }
}

#[test]
fn answer_not_logged_in() {
    let r = feed(answer("ann#1".to_string(), "x".to_string()), |s, l| s.resume(l), vec![(me(), Lookup::Failed)]);
    assert!(matches!(r, Step::Done(e) if e == vec![say("Not Logged In With A Team")]));
}

#[test]
fn promotion_rules() {
    match promote(&team(2, Some(300)), 42) {
        Step::Done(e) => assert_eq!(
            e,
            vec![
                Effect::Store(
                    Write::Promote { team: "reds".to_string(), level: 3, points: 1300, last_updated: 42 },
                    Policy::Propagate
                ),
                say("Correct Answer. Promoted to level 3"),
            ]
        ),
        other => panic!("{:?}", other),
    }
    match promote(&team(4, None), 7) {
        Step::Done(e) => assert_eq!(
            e,
            vec![
                Effect::Store(
                    Write::Promote { team: "reds".to_string(), level: 5, points: 1000, last_updated: 7 },
                    Policy::Propagate
                ),
                say("Congrats! You have completed the game"),
            ]
        ),
        other => panic!("{:?}", other),
    }
    assert!(matches!(promote(&team(1, Some(i32::MAX - 999)), 0), Step::Crash(m) if m == "attempt to add with overflow"));
    assert!(matches!(promote(&team(i32::MAX, None), 0), Step::Crash(m) if m == "attempt to add with overflow"));
    assert!(matches!(promote(&Record { level: Ok(1), ..blank() }, 0), Step::Crash(m) if m == "LOL: ValueAccessError: field is not present"));
}

#[test]
fn seeded_catalogue_accepts_its_answers() {
    let secrets: Vec<SeedSecret> = (1..=5)
        .map(|i| SeedSecret {
            answer: format!("answer{}", i),
            hint: format!("hint{}", i),
            giveaway: format!("giveaway{}", i),
        })
        .collect();
    let qs = match seed(&secrets) {
        Ok(qs) => qs,
        Err(e) => panic!("{:?}", e),
    };
    assert_eq!(qs.len(), 5);
    assert_eq!(qs[0].question.as_deref(), Ok("What is the meaning of life?"));
    assert_eq!(qs[4].question.as_deref(), Ok("Who is the best at being offended?"));
    for (i, q) in qs.iter().enumerate() {
        assert_eq!(q.level, Ok(i as i32));
        assert_eq!(q.hint, Ok(format!("hint{}", i + 1)));
        assert_ne!(q.answer, Ok(format!("answer{}", i + 1)));
        let hash = q.answer.clone().unwrap();
        assert_eq!(hash.len(), 60);
        assert!(hash.starts_with("$2b$10$"));
    }
    // the level-3 question accepts its answer and refuses another
    let s = Answer::Questions { guess: "answer4".to_string(), team: team(3, Some(10)) };
    let r = s.resume(Lookup::Found(vec![qs[3].clone()]));
    match r {
        Step::Done(e) => {
            assert!(matches!(&e[0], Effect::Store(Write::Promote { level: 4, points: 1010, .. }, _)));
            assert_eq!(e[1], say("Correct Answer. Promoted to level 4"));
        }
        other => panic!("{:?}", other),
    }
    let s = Answer::Questions { guess: "answer3".to_string(), team: team(3, Some(10)) };
    let r = s.resume(Lookup::Found(vec![qs[3].clone()]));
    assert!(matches!(r, Step::Done(e) if e == vec![say("Wrong Answer")]));
}

fn help_run(start: Step<Help>, t: Record, q: Record) -> Step<Help> {
    let level = t.level.unwrap_or(0);
    feed(
        start,
        |s, l| s.resume(l),
        vec![
            (me(), Lookup::Found(vec![user("reds")])),
            (me(), Lookup::Found(vec![user("reds")])),
            (reds(), Lookup::Found(vec![t.clone()])),
            (me(), Lookup::Found(vec![user("reds")])),
            (reds(), Lookup::Found(vec![t])),
            (Query::QuestionsAtLevel(level), Lookup::Found(vec![q])),
        ],
    )
}

#[test]
fn hint_is_charged_once() {
    let t = Record { level: Ok(2), points: Ok(50), ..team(2, None) };
    let r = help_run(hint("ann#1".to_string()), t.clone(), question(2));
    let used = match r {
        Step::Done(e) => {
            assert_eq!(e.len(), 2);
            assert_eq!(e[1], say_quietly("100 Points Would Be Deducted.\n HINT: look up"));
            match &e[0] {
                Effect::Store(Write::Charge { team, kind, used, points }, Policy::Propagate) => {
                    assert_eq!(team, "reds");
                    assert_eq!(*kind, HelpKind::Hint);
                    assert_eq!(*points, -50);
                    assert_eq!(used, &vec![0, 2]);
                    used.clone()
                }
                other => panic!("{:?}", other),
            }
        }
        other => panic!("{:?}", other),
    };
    let after = Record { hints: Ok(used), points: Ok(-50), ..t };
    let r = help_run(hint("ann#1".to_string()), after, question(2));
    assert!(matches!(r, Step::Done(e) if e == vec![say_quietly(
        "Hint Already Given! No Further Points Would be Deducted.\n HINT: look up"
    )]));
}

#[test]
fn giveaway_messages_and_panics() {
    let t = team(0, None);
    let r = help_run(giveaway("ann#1".to_string()), t.clone(), question(0));
    match r {
        Step::Done(e) => {
            assert!(matches!(&e[0], Effect::Store(Write::Charge { kind: HelpKind::Giveaway, points: -100, .. }, _)));
            assert_eq!(e[1], say_quietly("100 Points Would Be Deducted.\n HINT: it is you"));
        }
        other => panic!("{:?}", other),
    }
    let given = Record { giveaways: Ok(vec![0]), ..t.clone() };
    let r = help_run(giveaway("ann#1".to_string()), given, question(0));
    assert!(matches!(r, Step::Done(e) if e == vec![say_quietly(
        "Giveaway Already Given! No Further Points Would be Deducted.\n HINT: it is you"
    )]));
    let no_list = Record { giveaways: Err(Access::NotPresent), ..t.clone() };
    let r = feed(
        giveaway("ann#1".to_string()),
        |s, l| s.resume(l),
        vec![
            (me(), Lookup::Found(vec![user("reds")])),
            (me(), Lookup::Found(vec![user("reds")])),
            (reds(), Lookup::Found(vec![no_list])),
        ],
    );
    assert!(matches!(r, Step::Crash(m) if m == "Could not fetch used hints: ValueAccessError: field is not present"));
    let r = help_run(giveaway("ann#1".to_string()), t.clone(), Record { giveaway: Err(Access::NotPresent), ..question(0) });
    assert!(matches!(r, Step::Crash(m) if m == "Cannot get hint: ValueAccessError: field is not present"));
    let r = help_run(giveaway("ann#1".to_string()), t.clone(), Record { giveaway: Err(Access::UnexpectedType), ..question(0) });
    assert!(matches!(r, Step::Crash(m) if m == "Cannot get hint: ValueAccessError: field does not have the expected type"));
    let r = help_run(giveaway("ann#1".to_string()), t.clone(), Record { level: Err(Access::NotPresent), ..question(0) });
    assert!(matches!(r, Step::Crash(m) if m == "curr level not found: hint: ValueAccessError: field is not present"));
    let poor = Record { points: Ok(i32::MIN + 99), ..t };
    let r = help_run(hint("ann#1".to_string()), poor, question(1));
    assert!(matches!(r, Step::Crash(m) if m == "attempt to subtract with overflow"));
}

#[test]
fn help_not_logged_in() {
    let r = feed(hint("ann#1".to_string()), |s, l| s.resume(l), vec![(me(), Lookup::Found(vec![user("")]))]);
    assert!(matches!(r, Step::Done(e) if e == vec![say("Not Logged In With A Team")]));
    let r = feed(giveaway("ann#1".to_string()), |s, l| s.resume(l), vec![(me(), Lookup::Found(vec![blank()]))]);
    assert!(matches!(r, Step::Crash(m) if m == "could not find name: ValueAccessError: field is not present"));
}

#[test]
fn bookkeeping_over_a_game() {
    // a team as registered: level 0, no points, empty lists
    let fresh = Record {
        name: Ok("reds".to_string()),
        password: Ok("$2b$10$x".to_string()),
        level: Ok(0),
        hints: Ok(vec![]),
        giveaways: Ok(vec![]),
        ..blank()
    };
    // a hint at level 0
    let r = help_run(hint("ann#1".to_string()), fresh.clone(), question(0));
    let after_hint = match r {
        Step::Done(e) => match &e[0] {
            Effect::Store(Write::Charge { used, points, .. }, _) => {
                Record { hints: Ok(used.clone()), points: Ok(*points), ..fresh.clone() }
            }
            other => panic!("{:?}", other),
        },
        other => panic!("{:?}", other),
    };
    // a correct answer at level 0
    let after_answer = match promote(&after_hint, 1) {
        Step::Done(e) => match &e[0] {
            Effect::Store(Write::Promote { level, points, .. }, _) => {
                Record { level: Ok(*level), points: Ok(*points), ..after_hint.clone() }
            }
            other => panic!("{:?}", other),
        },
        other => panic!("{:?}", other),
    };
    let hints = after_answer.hints.clone().unwrap().len() as i32;
    let giveaways = after_answer.giveaways.clone().unwrap().len() as i32;
    assert_eq!(after_answer.level, Ok(1));
    assert_eq!(after_answer.points, Ok(1000 * 1 - 100 * (hints + giveaways)));
    assert_eq!(after_answer.points, Ok(900));
}
