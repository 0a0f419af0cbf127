use vstd::prelude::*;

use crate::text::same_text;

verus! {

/// Who may swim an event or an age group. `All` is the neutral variant: it
/// is written as the empty token, and any token outside `M`, `F`, `X` reads
/// back as `All`.
#[derive(Debug, Clone, Copy, PartialEq, Eq, Structural)]
pub enum Gender {
    Male,
    Female,
    Mixed,
    All,
}

impl Gender {
    pub open spec fn spec_token(self) -> Seq<char> {
        match self {
            Gender::Male => "M"@,
            Gender::Female => "F"@,
            Gender::Mixed => "X"@,
            Gender::All => ""@,
        }
    }

    pub open spec fn spec_from_token(t: Seq<char>) -> Gender {
        if t == "M"@ {
            Gender::Male
        } else if t == "F"@ {
            Gender::Female
        } else if t == "X"@ {
            Gender::Mixed
        } else {
            Gender::All
        }
    }

    /// The token written for an optional variant: nothing where it is absent.
    pub open spec fn spec_opt_token(o: Option<Gender>) -> Seq<char> {
        match o {
            Some(v) => v.spec_token(),
            None => Seq::empty(),
        }
    }

    /// The variant read from an optional attribute: absent stays absent.
    pub open spec fn spec_from_attr(a: Option<Seq<char>>) -> Option<Gender> {
        match a {
            Some(v) => Some(Gender::spec_from_token(v)),
            None => None,
        }
    }

    /// The token that stands for this variant.
    pub fn token(&self) -> (r: &'static str)
        ensures
            r@ == self.spec_token(),
    {
        match self {
            Gender::Male => "M",
            Gender::Female => "F",
            Gender::Mixed => "X",
            Gender::All => "",
        }
    }

    /// The variant for a token; an unknown token gives `All`.
    pub fn from_token(t: &str) -> (r: Gender)
        ensures
            r == Gender::spec_from_token(t@),
    {
        if same_text(t, "M") {
            Gender::Male
        } else if same_text(t, "F") {
            Gender::Female
        } else if same_text(t, "X") {
            Gender::Mixed
        } else {
            Gender::All
        }
    }

    /// Each variant reads back from its own token. The neutral variant's token
    /// is the only empty one.
    pub proof fn lemma_token_round_trip(v: Gender)
        ensures
            Gender::spec_from_token(v.spec_token()) == v,
            v.spec_token().len() == 0 <==> v == Gender::All,
    {
        reveal_strlit("M");
        reveal_strlit("F");
        reveal_strlit("X");
        reveal_strlit("");
        assert("M"@.len() == 1);
        assert("M"@[0] == 'M');
        assert("F"@.len() == 1);
        assert("F"@[0] == 'F');
        assert("X"@.len() == 1);
        assert("X"@[0] == 'X');
        assert(""@.len() == 0);
        match v {
            Gender::Male => {
            },
            Gender::Female => {
                assert("F"@ != "M"@);
            },
            Gender::Mixed => {
                assert("X"@ != "M"@);
                assert("X"@ != "F"@);
            },
            Gender::All => {
                assert(""@.len() == 0);
                assert(""@ != "M"@);
                assert(""@ != "F"@);
                assert(""@ != "X"@);
            },
        }
    }
}

impl Default for Gender {
    fn default() -> (r: Gender)
        ensures
            r == Gender::All,
    {
        Gender::All
    }
}

} // verus!
