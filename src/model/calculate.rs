use vstd::prelude::*;

use crate::text::same_text;

verus! {

/// How the ages of a relay team are combined for an age group. `Single` is
/// the neutral variant: it is written as the empty token, and any token but
/// `TOTAL` reads back as `Single`.
#[derive(Debug, Clone, Copy, PartialEq, Eq, Structural)]
pub enum Calculate {
    Single,
    Total,
}

impl Calculate {
    pub open spec fn spec_token(self) -> Seq<char> {
        match self {
            Calculate::Single => ""@,
            Calculate::Total => "TOTAL"@,
        }
    }

    pub open spec fn spec_from_token(t: Seq<char>) -> Calculate {
        if t == "TOTAL"@ {
            Calculate::Total
        } else {
            Calculate::Single
        }
    }

    /// The token written for an optional variant: nothing where it is absent.
    pub open spec fn spec_opt_token(o: Option<Calculate>) -> Seq<char> {
        match o {
            Some(v) => v.spec_token(),
            None => Seq::empty(),
        }
    }

    /// The variant read from an optional attribute: absent stays absent.
    pub open spec fn spec_from_attr(a: Option<Seq<char>>) -> Option<Calculate> {
        match a {
            Some(v) => Some(Calculate::spec_from_token(v)),
            None => None,
        }
    }

    /// The token that stands for this variant.
    pub fn token(&self) -> (r: &'static str)
        ensures
            r@ == self.spec_token(),
    {
        match self {
            Calculate::Single => "",
            Calculate::Total => "TOTAL",
        }
    }

    /// The variant for a token; an unknown token gives `Single`.
    pub fn from_token(t: &str) -> (r: Calculate)
        ensures
            r == Calculate::spec_from_token(t@),
    {
        if same_text(t, "TOTAL") {
            Calculate::Total
        } else {
            Calculate::Single
        }
    }

    /// Each variant reads back from its own token. The neutral variant's token
    /// is the only empty one.
    pub proof fn lemma_token_round_trip(v: Calculate)
        ensures
            Calculate::spec_from_token(v.spec_token()) == v,
            v.spec_token().len() == 0 <==> v == Calculate::Single,
    {
        reveal_strlit("");
        reveal_strlit("TOTAL");
        assert(""@.len() == 0);
        assert("TOTAL"@.len() == 5);
        assert("TOTAL"@[0] == 'T');
        assert("TOTAL"@[1] == 'O');
        assert("TOTAL"@[2] == 'T');
        assert("TOTAL"@[3] == 'A');
        assert("TOTAL"@[4] == 'L');
        match v {
            Calculate::Single => {
                assert(""@.len() == 0);
                assert(""@ != "TOTAL"@);
            },
            Calculate::Total => {
            },
        }
    }
}

impl Default for Calculate {
    fn default() -> (r: Calculate)
        ensures
            r == Calculate::Single,
    {
        Calculate::Single
    }
}

} // verus!
