use linear_bot::handler::Handler;
use linear_bot::help::{check_cooldown, help_answer, help_lt, help_rt, howto, ping};
use linear_bot::leaderboard::{divide_into_parts, leaderboard};
use linear_bot::model::{Access, Record};
use linear_bot::password::verify_would_panic;
use linear_bot::text::{render_signed, render_unsigned};

fn standing(name: Option<&str>, points: Option<i32>) -> Record {
    Record {
        team_name: Err(Access::NotPresent),
        name: name.map(|n| n.to_string()).ok_or(Access::NotPresent),
        password: Err(Access::NotPresent),
        level: Err(Access::NotPresent),
        points: points.ok_or(Access::NotPresent),
        hints: Err(Access::NotPresent),
        giveaways: Err(Access::NotPresent),
        question: Err(Access::NotPresent),
        answer: Err(Access::NotPresent),
        hint: Err(Access::NotPresent),
        giveaway: Err(Access::NotPresent),
    }
}

#[test]
fn decimal_rendering() {
    assert_eq!(render_unsigned(0), "0");
    assert_eq!(render_unsigned(1234), "1234");
    assert_eq!(render_unsigned(u64::MAX), u64::MAX.to_string());
    assert_eq!(render_signed(-5), "-5");
    assert_eq!(render_signed(i64::MIN), i64::MIN.to_string());
    assert_eq!(render_signed(i64::MAX), i64::MAX.to_string());
}

#[test]
fn cooldown_verdicts() {
    assert_eq!(check_cooldown(None), Ok(()));
    assert_eq!(
        check_cooldown(Some(7)),
        Err("Please wait for 7 seconds before running the command again.".to_string())
    );
    assert_eq!(
        check_cooldown(Some(0)),
        Err("Please wait for 0 seconds before running the command again.".to_string())
    );
}

#[test]
fn fixed_texts() {
    assert_eq!(
        help_rt(),
        "Example Usage (Team Name and Password are one word):\n?c register_team <team_name> <password>"
    );
    assert_eq!(
        help_lt(),
        "Example Usage (Team Name and Password are one word):\n?c login_team <team_name> <password>"
    );
    assert_eq!(help_answer(), "example usage:\n?c answer <answer>");
    let h = howto();
    assert!(h.starts_with("How to play!\n## Authentication\n1. Register Yourself - `?c register_user`"));
    assert!(h.ends_with("5. Get a giveaway (-100 Points) - `?c giveaway` \n\nHave Fun!"));
    assert_eq!(ping("ann#1"), "Pong for ann#1!");
    let _ = Handler::new();
}

#[test]
fn parts_of_four() {
    let v: Vec<i32> = (1..=10).collect();
    assert_eq!(divide_into_parts(v, 4), vec![vec![1, 2, 3, 4], vec![5, 6, 7, 8], vec![9, 10]]);
    let v: Vec<i32> = (1..=8).collect();
    assert_eq!(divide_into_parts(v, 4), vec![vec![1, 2, 3, 4], vec![5, 6, 7, 8]]);
    assert_eq!(divide_into_parts(Vec::<i32>::new(), 4), Vec::<Vec<i32>>::new());
    assert_eq!(divide_into_parts(vec![1, 2, 3], 1), vec![vec![1], vec![2], vec![3]]);
}

#[test]
fn leaderboard_pages() {
    assert!(leaderboard(vec![]).is_empty());
    let teams = vec![
        standing(Some("a"), Some(3000)),
        standing(Some("b"), Some(2000)),
        standing(None, None),
        standing(Some("d"), Some(-100)),
        standing(Some("e"), Some(0)),
    ];
    let pages = leaderboard(teams);
    assert_eq!(pages.len(), 2);
    assert_eq!(
        pages[0],
        "Team Name: a\n**Points** - 3000\n\nTeam Name: b\n**Points** - 2000\n\nTeam Name: NIL\n**Points** - 0\n\nTeam Name: d\n**Points** - -100\n\n"
    );
    assert_eq!(pages[1], "Team Name: e\n**Points** - 0\n\n");
}

#[test]
fn hashes_that_trap_the_decoder() {
    let salt_and_sum = "abcdefghijklmnopqrstuvwxyz0123456789abcdefghijklmnopq";
    assert!(!verify_would_panic(&format!("$2b$10${}", salt_and_sum)));
    assert!(verify_would_panic(&format!("$2b$10$\u{1}{}", salt_and_sum)));
    assert!(verify_would_panic(&format!("$2y$04$ab\u{80}{}", salt_and_sum)));
    // a character outside the alphabet before the trap ends decoding first
    assert!(!verify_would_panic(&format!("$2b$10$a!\u{1}{}", salt_and_sum)));
    // the cost is checked before the salt
    assert!(!verify_would_panic(&format!("$2b$03$\u{1}{}", salt_and_sum)));
    assert!(!verify_would_panic(&format!("$2b$32$\u{1}{}", salt_and_sum)));
    // too short for a salt
    assert!(!verify_would_panic("$2b$10$\u{1}abc"));
    // 22 bytes that end inside a character are no salt
    assert!(!verify_would_panic(&format!("$2b$10$\u{1}abcdefghijklmnopqrsté{}", salt_and_sum)));
    assert!(!verify_would_panic("Could not verify password."));
    assert!(!verify_would_panic(""));
}
