//! The joke store: an ordered, never empty list of jokes, only ever extended.
use vstd::prelude::*;

verus! {

/// The joke the store starts with.
pub const SEED_JOKE: &'static str = "What does Mr. Williams reign over? His dom-minions!";

/// The jokes told so far, in the order they were added.
pub struct JokeStore {
    jokes: Vec<String>,
}

/// The position picked for a clock reading `time` among `n` jokes.
pub open spec fn pick_index(time: u64, n: nat) -> nat
    recommends
        n > 0,
{
    (time as nat) % n
}

impl View for JokeStore {
    type V = Seq<Seq<char>>;

    closed spec fn view(&self) -> Seq<Seq<char>> {
        self.jokes@.map_values(|j: String| j@)
    }
}

impl JokeStore {
    /// The store holds at least one joke.
    pub open spec fn wf(&self) -> bool {
        self@.len() >= 1
    }

    /// A store holding the seed joke alone.
    pub fn new() -> (r: JokeStore)
        ensures
            r.wf(),
            r@ == seq![SEED_JOKE@],
    {
        let r = JokeStore { jokes: vec![String::from_str(SEED_JOKE)] };
        assert(r@ =~= seq![SEED_JOKE@]);
        r
    }

    /// The number of jokes.
    pub fn len(&self) -> (r: usize)
        ensures
            r == self@.len(),
    {
        self.jokes.len()
    }

    /// Appends a joke at the end.
    pub fn add_joke(&mut self, new_joke: String)
        requires
            old(self).wf(),
        ensures
            final(self).wf(),
            final(self)@ == old(self)@.push(new_joke@),
    {
        self.jokes.push(new_joke);
        assert(self@ =~= old(self)@.push(new_joke@));
    }

    /// The position of the joke picked for the clock reading `time`.
    pub fn random_index(&self, time: u64) -> (r: usize)
        requires
            self.wf(),
        ensures
            r == pick_index(time, self@.len()),
            r < self@.len(),
    {
        let n = self.jokes.len();
        (time % (n as u64)) as usize
    }

    /// The joke picked for the clock reading `time`, with its position counted
    /// from one, and the number of jokes.
    pub fn get_random_joke(&self, time: u64) -> (r: (String, usize, usize))
        requires
            self.wf(),
        ensures
            r.0@ == self@[pick_index(time, self@.len()) as int],
            r.1 == pick_index(time, self@.len()) + 1,
            r.2 == self@.len(),
    {
        let n = self.jokes.len();
        let idx = self.random_index(time);
        let joke = self.jokes[idx].clone();
        (joke, idx + 1, n)
    }
}

/// Every store that a program can reach picks a position that exists: `new`
/// makes a store of one joke and `add_joke` only makes it longer.
pub proof fn lemma_pick_in_bounds(jokes: Seq<Seq<char>>, time: u64)
    requires
        jokes.len() >= 1,
    ensures
        pick_index(time, jokes.len()) < jokes.len(),
{
}

} // verus!
