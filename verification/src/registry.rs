//! The standalone-command registry: a fixed, process-wide set of literal
//! argument tokens, each standing for a zero-argument action. A token found
//! anywhere among the raw arguments (after the program name) short-circuits
//! the structured parse entirely; the caller runs the action at the returned
//! registry index and terminates with its status.

use vstd::prelude::*;

verus! {

/// The index in `tokens` of the first token equal to `a`, scanning from `j`.
pub open spec fn first_match(tokens: Seq<Seq<char>>, a: Seq<char>, j: int) -> Option<int>
    decreases tokens.len() - j,
{
    if j < 0 || j >= tokens.len() {
        None
    } else if tokens[j] == a {
        Some(j)
    } else {
        first_match(tokens, a, j + 1)
    }
}

/// `first_match` finds a (lowest) index exactly when `a` occurs in
/// `tokens[j..]`, and the index it returns points at a token equal to `a`.
pub proof fn lemma_first_match(tokens: Seq<Seq<char>>, a: Seq<char>, j: int)
    requires
        0 <= j,
    ensures
        first_match(tokens, a, j) matches Some(k) ==> j <= k < tokens.len() && tokens[k] == a,
        (first_match(tokens, a, j) is Some) <==> exists|k: int|
            j <= k < tokens.len() && tokens[k] == a,
    decreases tokens.len() - j,
{
    if j < tokens.len() {
        if tokens[j] == a {
            assert(j <= j < tokens.len() && tokens[j] == a);
        } else {
            lemma_first_match(tokens, a, j + 1);
        }
    }
}

/// The fixed set of standalone-command tokens, in registration order. The
/// index of a token is the caller's handle for the action it stands for.
pub struct CommandRegistry {
    tokens: Vec<String>,
}

impl View for CommandRegistry {
    type V = Seq<Seq<char>>;

    closed spec fn view(&self) -> Seq<Seq<char>> {
        self.tokens.deep_view()
    }
}

impl CommandRegistry {
    /// Registered tokens are pairwise distinct, so dispatch is never
    /// ambiguous; `register` refuses duplicates to keep this by construction.
    pub open spec fn well_formed(&self) -> bool {
        forall|i: int, j: int| 0 <= i < j < self@.len() ==> self@[i] != self@[j]
    }

    /// An empty registry.
    pub fn new() -> (r: CommandRegistry)
        ensures
            r@ == Seq::<Seq<char>>::empty(),
            r.well_formed(),
    {
        let r = CommandRegistry { tokens: Vec::new() };
        proof {
            assert(r@ =~= Seq::<Seq<char>>::empty());
        }
        r
    }

    /// The number of registered commands.
    pub fn len(&self) -> (n: usize)
        ensures
            n == self@.len(),
    {
        self.tokens.len()
    }

    /// Appends `token`, unless an equal token is already registered; a
    /// duplicate is refused and leaves the registry unchanged.
    pub fn register(&mut self, token: String) -> (fresh: bool)
        ensures
            fresh == !old(self)@.contains(token@),
            fresh ==> final(self)@ == old(self)@.push(token@),
            !fresh ==> final(self)@ == old(self)@,
            old(self).well_formed() ==> final(self).well_formed(),
    {
        proof {
            lemma_first_match(self@, token@, 0);
        }
        if self.find(&token).is_some() {
            false
        } else {
            let ghost before = self@;
            self.tokens.push(token);
            proof {
                assert(self@ =~= before.push(token@));
                if old(self).well_formed() {
                    assert forall|i: int, j: int| 0 <= i < j < self@.len() implies self@[i]
                        != self@[j] by {
                        if j == before.len() {
                            assert(!before.contains(self@[j]));
                            assert(before[i] == self@[i]);
                        }
                    }
                }
            }
            true
        }
    }

    /// The registry index of the first registered token equal to `a`, if any.
    pub fn find(&self, a: &String) -> (r: Option<usize>)
        ensures
            r matches Some(j) ==> first_match(self@, a@, 0) == Some(j as int) && j < self@.len(),
            r is None ==> first_match(self@, a@, 0) is None,
    {
        let mut j: usize = 0;
        while j < self.tokens.len()
            invariant
                j <= self.tokens.len(),
                first_match(self@, a@, 0) == first_match(self@, a@, j as int),
            decreases self.tokens.len() - j,
        {
            if self.tokens[j] == *a {
                proof {
                    assert(self@[j as int] == self.tokens@[j as int]@);
                }
                return Some(j);
            }
            proof {
                assert(self@[j as int] == self.tokens@[j as int]@);
            }
            j = j + 1;
        }
        None
    }
}

/// The spec-level token list of the registry this tool ships: the single
/// codec-listing command, at index 0.
pub open spec fn default_tokens() -> Seq<Seq<char>> {
    seq!["--list-codecs"@]
}

/// The registry this tool ships: `--list-codecs` at index 0, mapped by the
/// caller to the action that reports the available transcoding codecs.
pub fn default_registry() -> (r: CommandRegistry)
    ensures
        r@ == default_tokens(),
        r.well_formed(),
{
    let mut r = CommandRegistry::new();
    r.register("--list-codecs".to_owned());
    proof {
        assert(r@ =~= default_tokens());
    }
    r
}

} // verus!
