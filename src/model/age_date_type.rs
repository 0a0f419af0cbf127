use vstd::prelude::*;

use crate::text::same_text;

verus! {

/// How the age of an athlete is computed. `Date` is the neutral variant: it
/// is written as the empty token, and any unknown token (`DATE` among them)
/// reads back as `Date`.
#[derive(Debug, Clone, Copy, PartialEq, Eq, Structural)]
pub enum AgeDateType {
    Year,
    Date,
    Por,
    CanFnq,
    Lux,
}

impl AgeDateType {
    pub open spec fn spec_token(self) -> Seq<char> {
        match self {
            AgeDateType::Year => "YEAR"@,
            AgeDateType::Date => ""@,
            AgeDateType::Por => "POR"@,
            AgeDateType::CanFnq => "CAN.FNQ"@,
            AgeDateType::Lux => "LUX"@,
        }
    }

    pub open spec fn spec_from_token(t: Seq<char>) -> AgeDateType {
        if t == "YEAR"@ {
            AgeDateType::Year
        } else if t == "POR"@ {
            AgeDateType::Por
        } else if t == "CAN.FNQ"@ {
            AgeDateType::CanFnq
        } else if t == "LUX"@ {
            AgeDateType::Lux
        } else {
            AgeDateType::Date
        }
    }

    /// The token written for an optional variant: nothing where it is absent.
    pub open spec fn spec_opt_token(o: Option<AgeDateType>) -> Seq<char> {
        match o {
            Some(v) => v.spec_token(),
            None => Seq::empty(),
        }
    }

    /// The variant read from an optional attribute: absent stays absent.
    pub open spec fn spec_from_attr(a: Option<Seq<char>>) -> Option<AgeDateType> {
        match a {
            Some(v) => Some(AgeDateType::spec_from_token(v)),
            None => None,
        }
    }

    /// The token that stands for this variant.
    pub fn token(&self) -> (r: &'static str)
        ensures
            r@ == self.spec_token(),
    {
        match self {
            AgeDateType::Year => "YEAR",
            AgeDateType::Date => "",
            AgeDateType::Por => "POR",
            AgeDateType::CanFnq => "CAN.FNQ",
            AgeDateType::Lux => "LUX",
        }
    }

    /// The variant for a token; an unknown token gives `Date`.
    pub fn from_token(t: &str) -> (r: AgeDateType)
        ensures
            r == AgeDateType::spec_from_token(t@),
    {
        if same_text(t, "YEAR") {
            AgeDateType::Year
        } else if same_text(t, "POR") {
            AgeDateType::Por
        } else if same_text(t, "CAN.FNQ") {
            AgeDateType::CanFnq
        } else if same_text(t, "LUX") {
            AgeDateType::Lux
        } else {
            AgeDateType::Date
        }
    }

    /// Each variant reads back from its own token. The neutral variant's token
    /// is the only empty one.
    pub proof fn lemma_token_round_trip(v: AgeDateType)
        ensures
            AgeDateType::spec_from_token(v.spec_token()) == v,
            v.spec_token().len() == 0 <==> v == AgeDateType::Date,
    {
        reveal_strlit("YEAR");
        reveal_strlit("");
        reveal_strlit("POR");
        reveal_strlit("CAN.FNQ");
        reveal_strlit("LUX");
        assert("YEAR"@.len() == 4);
        assert("YEAR"@[0] == 'Y');
        assert("YEAR"@[1] == 'E');
        assert("YEAR"@[2] == 'A');
        assert("YEAR"@[3] == 'R');
        assert(""@.len() == 0);
        assert("POR"@.len() == 3);
        assert("POR"@[0] == 'P');
        assert("POR"@[1] == 'O');
        assert("POR"@[2] == 'R');
        assert("CAN.FNQ"@.len() == 7);
        assert("CAN.FNQ"@[0] == 'C');
        assert("CAN.FNQ"@[1] == 'A');
        assert("CAN.FNQ"@[2] == 'N');
        assert("CAN.FNQ"@[3] == '.');
        assert("CAN.FNQ"@[4] == 'F');
        assert("CAN.FNQ"@[5] == 'N');
        assert("CAN.FNQ"@[6] == 'Q');
        assert("LUX"@.len() == 3);
        assert("LUX"@[0] == 'L');
        assert("LUX"@[1] == 'U');
        assert("LUX"@[2] == 'X');
        match v {
            AgeDateType::Year => {
            },
            AgeDateType::Date => {
                assert(""@.len() == 0);
                assert(""@ != "YEAR"@);
                assert(""@ != "POR"@);
                assert(""@ != "CAN.FNQ"@);
                assert(""@ != "LUX"@);
            },
            AgeDateType::Por => {
                assert("POR"@ != "YEAR"@);
            },
            AgeDateType::CanFnq => {
                assert("CAN.FNQ"@ != "YEAR"@);
                assert("CAN.FNQ"@ != "POR"@);
            },
            AgeDateType::Lux => {
                assert("LUX"@ != "YEAR"@);
                assert("LUX"@ != "POR"@);
                assert("LUX"@ != "CAN.FNQ"@);
            },
        }
    }
}

impl Default for AgeDateType {
    fn default() -> (r: AgeDateType)
        ensures
            r == AgeDateType::Date,
    {
        AgeDateType::Date
    }
}

} // verus!
