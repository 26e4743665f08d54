//! The game: one secret number, and a guess at a time until it is found.

use crate::comparison::{get_ordering, has_found, ordering_of_guess};
use crate::guess::{guess_of_line, parse_guess};
use crate::notice::Notice;
use crate::secret::{draw_secret, in_secret_range, is_secret};
use vstd::prelude::*;

verus! {

/// Where a game stands.
#[derive(Clone, Copy, Debug, PartialEq, Eq, Structural)]
pub enum Phase {
    /// The secret number has not been found yet.
    Running,
    /// The secret number has been found; the game is over.
    Done,
}

/// A game, as contracts see it.
pub struct GameView {
    /// The number to find.
    pub secret: u32,
    /// Where the game stands.
    pub phase: Phase,
}

/// A game in play. Its secret number is fixed when the game is made and lies
/// between 1 and 100.
#[derive(Clone, Copy, Debug)]
pub struct Game {
    secret: u32,
    phase: Phase,
}

/// What the game answers to one input: nothing once it is over; before that a
/// notice, which says that the input held no guess or how the guess stands to
/// the secret.
pub open spec fn answer(state: GameView, input: Option<u32>) -> Option<Notice> {
    match state.phase {
        Phase::Done => None,
        Phase::Running => match input {
            None => Some(Notice::InvalidInput),
            Some(guess) => Some(Notice::for_comparison(ordering_of_guess(state.secret, guess))),
        },
    }
}

/// The game after one input: over once the guess is the secret, else as it
/// was. A game that is over stays so.
pub open spec fn next_state(state: GameView, input: Option<u32>) -> GameView {
    if state.phase == Phase::Running && input == Some(state.secret) {
        GameView { secret: state.secret, phase: Phase::Done }
    } else {
        state
    }
}

/// The game after a run of inputs, taken in order.
pub open spec fn state_after(state: GameView, inputs: Seq<Option<u32>>) -> GameView
    decreases inputs.len(),
{
    if inputs.len() == 0 {
        state
    } else {
        next_state(state_after(state, inputs.drop_last()), inputs.last())
    }
}

impl View for Game {
    type V = GameView;

    closed spec fn view(&self) -> GameView {
        GameView { secret: self.secret, phase: self.phase }
    }
}

impl Game {
    #[verifier::type_invariant]
    spec fn secret_in_range(self) -> bool {
        is_secret(self.secret)
    }

    /// A new game with the given secret number, if it can be one.
    pub fn with_secret(secret: u32) -> (game: Option<Game>)
        ensures
            game is Some <==> is_secret(secret),
            game is Some ==> game->0@ == (GameView { secret, phase: Phase::Running }),
    {
        if in_secret_range(secret) {
            Some(Game { secret, phase: Phase::Running })
        } else {
            None
        }
    }

    /// A new game with a secret number drawn at random.
    pub fn start() -> (game: Game)
        ensures
            is_secret(game@.secret),
            game@.phase == Phase::Running,
    {
        Game { secret: draw_secret(), phase: Phase::Running }
    }

    /// The secret number.
    pub fn secret(&self) -> (secret: u32)
        ensures
            secret == self@.secret,
            is_secret(secret),
    {
        proof {
            use_type_invariant(self);
        }
        self.secret
    }

    /// Where the game stands.
    pub fn phase(&self) -> (phase: Phase)
        ensures
            phase == self@.phase,
    {
        self.phase
    }

    /// Whether the game is over.
    pub fn is_done(&self) -> (done: bool)
        ensures
            done <==> self@.phase == Phase::Done,
    {
        match self.phase {
            Phase::Done => true,
            Phase::Running => false,
        }
    }

    /// Takes one input, a guess or the fact that the line held none, and
    /// gives the notice that answers it. The game is over from the first
    /// guess that is the secret; after that it takes no input and answers
    /// nothing.
    pub fn submit(&mut self, input: Option<u32>) -> (notice: Option<Notice>)
        ensures
            final(self)@ == next_state(old(self)@, input),
            notice == answer(old(self)@, input),
    {
        proof {
            use_type_invariant(&*self);
        }
        match self.phase {
            Phase::Done => None,
            Phase::Running => match input {
                None => Some(Notice::InvalidInput),
                Some(guess) => {
                    let comparison = get_ordering(self.secret, guess);
                    if has_found(comparison) {
                        self.phase = Phase::Done;
                    }
                    Some(Notice::of_comparison(comparison))
                },
            },
        }
    }

    /// Takes one line of input: reads the guess out of it and submits that.
    pub fn submit_line(&mut self, line: &str) -> (notice: Option<Notice>)
        ensures
            final(self)@ == next_state(old(self)@, guess_of_line(line@)),
            notice == answer(old(self)@, guess_of_line(line@)),
    {
        let input = parse_guess(line);
        self.submit(input)
    }
}

/// The secret number of a game never changes, whatever the inputs.
pub proof fn lemma_secret_is_kept(state: GameView, inputs: Seq<Option<u32>>)
    ensures
        state_after(state, inputs).secret == state.secret,
    decreases inputs.len(),
{
    if inputs.len() > 0 {
        lemma_secret_is_kept(state, inputs.drop_last());
    }
}

/// A game that is over stays as it is, whatever the inputs.
pub proof fn lemma_done_is_final(state: GameView, inputs: Seq<Option<u32>>)
    requires
        state.phase == Phase::Done,
    ensures
        state_after(state, inputs) == state,
    decreases inputs.len(),
{
    if inputs.len() > 0 {
        lemma_done_is_final(state, inputs.drop_last());
    }
}

/// A running game is over after a run of inputs if and only if one of them
/// was a guess equal to the secret.
pub proof fn lemma_over_iff_secret_guessed(state: GameView, inputs: Seq<Option<u32>>)
    requires
        state.phase == Phase::Running,
    ensures
        state_after(state, inputs).phase == Phase::Done <==> inputs.contains(Some(state.secret)),
    decreases inputs.len(),
{
    if inputs.len() > 0 {
        let front = inputs.drop_last();
        lemma_over_iff_secret_guessed(state, front);
        lemma_secret_is_kept(state, front);
        if front.contains(Some(state.secret)) {
            let i: int = choose|i: int| 0 <= i < front.len() && front[i] == Some(state.secret);
            assert(inputs[i] == Some(state.secret));
        } else if inputs.contains(Some(state.secret)) {
            let i: int = choose|i: int| 0 <= i < inputs.len() && inputs[i] == Some(state.secret);
            assert(i < front.len() ==> front[i] == Some(state.secret));
            assert(inputs.last() == Some(state.secret));
        }
    }
}

} // verus!
