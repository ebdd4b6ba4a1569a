use guessing_game::game::{Game, Reply};
use guessing_game::guess::Guess;

fn game_with(secret: i32) -> Game {
    Game::new(Guess::new(secret).unwrap())
}

fn lines(items: &[&str]) -> Vec<String> {
    items.iter().map(|s| s.to_string()).collect()
}

#[test]
fn small_big_then_win() {
    let game = game_with(50);
    let replies = game.play(&lines(&["30", "70", "50"]));
    let feedback: Vec<String> = replies.iter().map(|r| r.feedback()).collect();
    assert_eq!(feedback, vec!["Too small!", "Too big!", "You win!"]);
    let guessed: Vec<Option<i32>> = replies.iter().map(|r| r.guessed()).collect();
    assert_eq!(guessed, vec![Some(30), Some(70), Some(50)]);
    assert!(replies[2].ends_game());
}

#[test]
fn quit_on_first_prompt() {
    let game = game_with(50);
    let replies = game.play(&lines(&["quit", "50"]));
    assert_eq!(replies.len(), 1);
    assert!(matches!(replies[0], Reply::Quit));
    assert_eq!(replies[0].feedback(), "Quitting...");
    assert_eq!(replies[0].guessed(), None);
    assert!(replies[0].ends_game());
}

#[test]
fn quit_is_trimmed_and_case_sensitive() {
    let game = game_with(50);
    assert!(matches!(game.turn("  quit\n"), Reply::Quit));
    assert!(matches!(game.turn("\tquit \r\n"), Reply::Quit));
    assert!(matches!(game.turn("Quit"), Reply::NotANumber));
    assert!(matches!(game.turn("QUIT"), Reply::NotANumber));
    assert!(matches!(game.turn("qu it"), Reply::NotANumber));
}

#[test]
fn not_a_number_continues() {
    let game = game_with(50);
    let reply = game.turn("abc");
    assert!(matches!(reply, Reply::NotANumber));
    assert_eq!(reply.feedback(), "Invalid number. Try again.");
    assert_eq!(reply.guessed(), None);
    assert!(!reply.ends_game());
    assert_eq!(game.secret(), 50);
}

#[test]
fn out_of_range_number_continues() {
    let game = game_with(50);
    let reply = game.turn("500");
    assert!(matches!(reply, Reply::Rejected(_)));
    assert_eq!(reply.feedback(), "Value should be between 1 and 100");
    assert!(!reply.ends_game());
    let reply = game.turn("0");
    assert_eq!(reply.feedback(), "Value should be between 1 and 100");
    let reply = game.turn("-7");
    assert_eq!(reply.feedback(), "Value should be between 1 and 100");
}

#[test]
fn numbers_are_trimmed_and_signed() {
    let game = game_with(50);
    assert_eq!(game.turn(" 50\n").guessed(), Some(50));
    assert_eq!(game.turn("+30").guessed(), Some(30));
    assert_eq!(game.turn("007").guessed(), Some(7));
    assert!(matches!(game.turn("+"), Reply::NotANumber));
    assert!(matches!(game.turn("-"), Reply::NotANumber));
    assert!(matches!(game.turn(""), Reply::NotANumber));
    assert!(matches!(game.turn("5 0"), Reply::NotANumber));
    assert!(matches!(game.turn("12.5"), Reply::NotANumber));
}

#[test]
fn overflowing_number_is_not_a_number() {
    let game = game_with(50);
    assert!(matches!(game.turn("2147483648"), Reply::NotANumber));
    assert!(matches!(game.turn("-2147483649"), Reply::NotANumber));
    let reply = game.turn("2147483647");
    assert!(matches!(reply, Reply::Rejected(_)));
    let reply = game.turn("-2147483648");
    assert!(matches!(reply, Reply::Rejected(_)));
}

#[test]
fn repeated_invalid_lines_never_end_the_game() {
    let game = game_with(42);
    let input = lines(&["abc", "500", "", "0", "1", "100", "41", "43", "xyz", "-3"]);
    let replies = game.play(&input);
    assert_eq!(replies.len(), input.len());
    assert!(replies.iter().all(|r| !r.ends_game()));
    assert_eq!(game.secret(), 42);
}

#[test]
fn play_stops_at_the_win() {
    let game = game_with(1);
    let replies = game.play(&lines(&["2", "1", "quit", "1"]));
    assert_eq!(replies.len(), 2);
    assert!(matches!(replies[0], Reply::TooBig(_)));
    assert!(matches!(replies[1], Reply::Win(_)));
    assert_eq!(replies[1].feedback(), "You win!");
}

#[test]
fn play_on_no_lines_gives_no_replies() {
    let game = game_with(7);
    assert!(game.play(&Vec::new()).is_empty());
}

#[test]
fn started_game_has_secret_in_range() {
    for _ in 0..200 {
        let s = Game::start().secret();
        assert!((1..=100).contains(&s));
    }
}
