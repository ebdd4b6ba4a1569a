//! The game: a secret drawn once, and the reply that each line of input
//! earns, up to a correct guess or the quit command.
use vstd::prelude::*;
use vstd::string::StringExecFns;

use crate::guess::{in_range, range_message, Guess, ValError, HIGHEST, LOWEST};
use crate::input::{parse_i32, parsed_i32, trim_line, trimmed};

verus! {

/// The command that ends the game.
pub open spec fn quit_word() -> Seq<char> {
    "quit"@
}

/// What a reply says, as plain values.
pub enum ReplyView {
    Quit,
    NotANumber,
    Rejected(Seq<char>),
    TooSmall(i32),
    TooBig(i32),
    Win(i32),
}

impl ReplyView {
    /// Whether this reply ends the game.
    pub open spec fn ends(self) -> bool {
        self is Quit || self is Win
    }

    /// The line printed for this reply.
    pub open spec fn feedback(self) -> Seq<char> {
        match self {
            ReplyView::Quit => "Quitting..."@,
            ReplyView::NotANumber => "Invalid number. Try again."@,
            ReplyView::Rejected(m) => m,
            ReplyView::TooSmall(_) => "Too small!"@,
            ReplyView::TooBig(_) => "Too big!"@,
            ReplyView::Win(_) => "You win!"@,
        }
    }
}

/// The reply that `line` earns against `secret`: the trimmed line quits,
/// fails to read as a number, is out of range, or is compared.
pub open spec fn reply_of(secret: i32, line: Seq<char>) -> ReplyView {
    let t = trimmed(line);
    if t == quit_word() {
        ReplyView::Quit
    } else {
        match parsed_i32(t) {
            None => ReplyView::NotANumber,
            Some(v) => if !in_range(v as int) {
                ReplyView::Rejected(range_message())
            } else if v < secret {
                ReplyView::TooSmall(v)
            } else if v > secret {
                ReplyView::TooBig(v)
            } else {
                ReplyView::Win(v)
            },
        }
    }
}

/// The replies to `lines` in order, up to and including the first that ends
/// the game.
pub open spec fn transcript(secret: i32, lines: Seq<Seq<char>>) -> Seq<ReplyView>
    decreases lines.len(),
{
    if lines.len() == 0 {
        Seq::empty()
    } else {
        let r = reply_of(secret, lines[0]);
        if r.ends() {
            seq![r]
        } else {
            seq![r] + transcript(secret, lines.drop_first())
        }
    }
}

/// Whether `line` ends a game with secret `secret`: trimmed, it is the quit
/// command or spells the secret.
pub open spec fn is_final_line(secret: i32, line: Seq<char>) -> bool {
    trimmed(line) == quit_word() || parsed_i32(trimmed(line)) == Some(secret)
}

/// Only the quit command or a correct guess ends the game: the reply to a
/// line ends it exactly when the line is final.
pub proof fn lemma_ends_iff_final(secret: i32, line: Seq<char>)
    requires
        in_range(secret as int),
    ensures
        reply_of(secret, line).ends() <==> is_final_line(secret, line),
{
}

/// Lines that neither quit nor guess the secret never end the game, however
/// many there are: each gets its own reply, and none of those replies ends it.
pub proof fn lemma_other_lines_never_end(secret: i32, lines: Seq<Seq<char>>)
    requires
        in_range(secret as int),
        forall|i: int| 0 <= i < lines.len() ==> !is_final_line(secret, #[trigger] lines[i]),
    ensures
        transcript(secret, lines).len() == lines.len(),
        forall|i: int|
            0 <= i < lines.len() ==> (#[trigger] transcript(secret, lines)[i]) == reply_of(
                secret,
                lines[i],
            ) && !transcript(secret, lines)[i].ends(),
    decreases lines.len(),
{
    if lines.len() > 0 {
        let rest = lines.drop_first();
        assert(!is_final_line(secret, lines[0]));
        lemma_ends_iff_final(secret, lines[0]);
        assert forall|i: int| 0 <= i < rest.len() implies !is_final_line(secret, #[trigger] rest[i]) by {
            assert(rest[i] == lines[i + 1]);
        }
        lemma_other_lines_never_end(secret, rest);
        assert forall|i: int| 0 <= i < lines.len() implies (#[trigger] transcript(secret, lines)[i])
            == reply_of(secret, lines[i]) && !transcript(secret, lines)[i].ends() by {
            if i > 0 {
                assert(transcript(secret, lines)[i] == transcript(secret, rest)[i - 1]);
                assert(rest[i - 1] == lines[i]);
            }
        }
    }
}

/// The reply to one line of input.
pub enum Reply {
    /// The quit command.
    Quit,
    /// A line that is neither the quit command nor an integer.
    NotANumber,
    /// An integer outside the accepted range.
    Rejected(ValError),
    /// A guess below the secret.
    TooSmall(Guess),
    /// A guess above the secret.
    TooBig(Guess),
    /// The secret itself.
    Win(Guess),
}

impl View for Reply {
    type V = ReplyView;

    open spec fn view(&self) -> ReplyView {
        match self {
            Reply::Quit => ReplyView::Quit,
            Reply::NotANumber => ReplyView::NotANumber,
            Reply::Rejected(e) => ReplyView::Rejected(e@),
            Reply::TooSmall(g) => ReplyView::TooSmall(g@),
            Reply::TooBig(g) => ReplyView::TooBig(g@),
            Reply::Win(g) => ReplyView::Win(g@),
        }
    }
}

impl Reply {
    /// Whether this reply ends the game.
    pub fn ends_game(&self) -> (r: bool)
        ensures
            r == self@.ends(),
    {
        match self {
            Reply::Quit | Reply::Win(_) => true,
            _ => false,
        }
    }

    /// The line to print for this reply.
    pub fn feedback(&self) -> (r: String)
        ensures
            r@ == self@.feedback(),
    {
        match self {
            Reply::Quit => String::from_str("Quitting..."),
            Reply::NotANumber => String::from_str("Invalid number. Try again."),
            Reply::Rejected(e) => e.message(),
            Reply::TooSmall(_) => String::from_str("Too small!"),
            Reply::TooBig(_) => String::from_str("Too big!"),
            Reply::Win(_) => String::from_str("You win!"),
        }
    }

    /// The value guessed, for a reply that compared one.
    pub fn guessed(&self) -> (r: Option<i32>)
        ensures
            r == match self@ {
                ReplyView::TooSmall(v) | ReplyView::TooBig(v) | ReplyView::Win(v) => Some(v),
                _ => None::<i32>,
            },
    {
        match self {
            Reply::TooSmall(g) | Reply::TooBig(g) | Reply::Win(g) => Some(g.value()),
            _ => None,
        }
    }
}

/// One game: the secret to guess.
pub struct Game {
    secret: Guess,
}

impl View for Game {
    type V = i32;

    closed spec fn view(&self) -> i32 {
        self.secret@
    }
}

/// Relies on `rand::rng` and `Rng::random_range`: a draw from the thread's
/// generator over `low..=high` lies in that range. The range is not empty, so
/// `random_range` does not panic; `rand::rng` panics only when the operating
/// system cannot seed the generator.
#[verifier::external_body]
fn draw_in_range(low: i32, high: i32) -> (r: i32)
    requires
        low <= high,
    ensures
        low <= r <= high,
{
    rand::Rng::random_range(&mut rand::rng(), low..=high)
}

impl Game {
    /// A game whose secret is `secret`.
    pub fn new(secret: Guess) -> (g: Game)
        ensures
            g@ == secret@,
    {
        Game { secret }
    }

    /// A game whose secret is drawn at random from the accepted range.
    pub fn start() -> (g: Game)
        ensures
            in_range(g@ as int),
    {
        let v = draw_in_range(LOWEST, HIGHEST);
        Game { secret: Guess::new(v).unwrap() }
    }

    /// The secret.
    pub fn secret(&self) -> (r: i32)
        ensures
            r == self@,
            in_range(r as int),
    {
        self.secret.value()
    }

    /// The reply that one line of input earns; the game itself is not
    /// changed by it.
    pub fn turn(&self, line: &str) -> (r: Reply)
        ensures
            r@ == reply_of(self@, line@),
    {
        let t = trim_line(line);
        if String::from_str(t) == String::from_str("quit") {
            return Reply::Quit;
        }
        match parse_i32(t) {
            None => Reply::NotANumber,
            Some(v) => match Guess::new(v) {
                Err(e) => Reply::Rejected(e),
                Ok(g) => {
                    let secret = self.secret.value();
                    if v < secret {
                        Reply::TooSmall(g)
                    } else if v > secret {
                        Reply::TooBig(g)
                    } else {
                        Reply::Win(g)
                    }
                },
            },
        }
    }

    /// Plays `lines` in order: the reply to each, up to and including the
    /// first that ends the game.
    pub fn play(&self, lines: &Vec<String>) -> (r: Vec<Reply>)
        ensures
            r@.map_values(|x: Reply| x@) == transcript(self@, lines@.map_values(|l: String| l@)),
    {
        let ghost all = lines@.map_values(|l: String| l@);
        let mut out: Vec<Reply> = Vec::new();
        let mut i: usize = 0;
        proof {
            assert(all.skip(0) =~= all);
            assert(out@.map_values(|x: Reply| x@) + transcript(self@, all) =~= transcript(self@, all));
        }
        while i < lines.len()
            invariant
                i <= lines.len(),
                all == lines@.map_values(|l: String| l@),
                transcript(self@, all) == out@.map_values(|x: Reply| x@) + transcript(
                    self@,
                    all.skip(i as int),
                ),
            decreases lines.len() - i,
        {
            let reply = self.turn(lines[i].as_str());
            let ends = reply.ends_game();
            proof {
                let rest = all.skip(i as int);
                assert(rest[0] == lines@[i as int]@);
                assert(rest.drop_first() =~= all.skip(i + 1));
            }
            let ghost before = out@.map_values(|x: Reply| x@);
            out.push(reply);
            proof {
                assert(out@.map_values(|x: Reply| x@) =~= before.push(reply@));
            }
            if ends {
                proof {
                    assert(transcript(self@, all) =~= out@.map_values(|x: Reply| x@));
                }
                return out;
            }
            i = i + 1;
            proof {
                assert(transcript(self@, all) =~= out@.map_values(|x: Reply| x@) + transcript(
                    self@,
                    all.skip(i as int),
                ));
            }
        }
        proof {
            assert(all.skip(i as int) =~= Seq::<Seq<char>>::empty());
            assert(transcript(self@, all) =~= out@.map_values(|x: Reply| x@));
        }
        out
    }
}

} // verus!
