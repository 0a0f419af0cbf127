use vstd::prelude::*;

use crate::text::same_text;

verus! {

/// How times are taken at a meet. There is no default: an unknown token is an
/// error.
#[derive(Debug, Clone, Copy, PartialEq, Eq, Structural)]
pub enum Timing {
    Automatic,
    SemiAutomatic,
    Manual1,
    Manual2,
    Manual3,
}

impl Timing {
    pub open spec fn spec_token(self) -> Seq<char> {
        match self {
            Timing::Automatic => "AUTOMATIC"@,
            Timing::SemiAutomatic => "SEMIAUTOMATIC"@,
            Timing::Manual1 => "MANUAL1"@,
            Timing::Manual2 => "MANUAL2"@,
            Timing::Manual3 => "MANUAL3"@,
        }
    }

    pub open spec fn spec_from_token(t: Seq<char>) -> Option<Timing> {
        if t == "AUTOMATIC"@ {
            Some(Timing::Automatic)
        } else if t == "SEMIAUTOMATIC"@ {
            Some(Timing::SemiAutomatic)
        } else if t == "MANUAL1"@ {
            Some(Timing::Manual1)
        } else if t == "MANUAL2"@ {
            Some(Timing::Manual2)
        } else if t == "MANUAL3"@ {
            Some(Timing::Manual3)
        } else {
            None
        }
    }

    /// The token written for an optional variant: nothing where it is absent.
    pub open spec fn spec_opt_token(o: Option<Timing>) -> Seq<char> {
        match o {
            Some(v) => v.spec_token(),
            None => Seq::empty(),
        }
    }

    /// The variant read from an optional attribute: absent stays absent, and
    /// an unknown token gives `None` too (the reader refuses it).
    pub open spec fn spec_from_attr(a: Option<Seq<char>>) -> Option<Timing> {
        match a {
            Some(v) => Timing::spec_from_token(v),
            None => None,
        }
    }

    /// The token that stands for this variant.
    pub fn token(&self) -> (r: &'static str)
        ensures
            r@ == self.spec_token(),
    {
        match self {
            Timing::Automatic => "AUTOMATIC",
            Timing::SemiAutomatic => "SEMIAUTOMATIC",
            Timing::Manual1 => "MANUAL1",
            Timing::Manual2 => "MANUAL2",
            Timing::Manual3 => "MANUAL3",
        }
    }

    /// The variant for a token; `None` for a token outside the closed set.
    pub fn from_token(t: &str) -> (r: Option<Timing>)
        ensures
            r == Timing::spec_from_token(t@),
    {
        if same_text(t, "AUTOMATIC") {
            Some(Timing::Automatic)
        } else if same_text(t, "SEMIAUTOMATIC") {
            Some(Timing::SemiAutomatic)
        } else if same_text(t, "MANUAL1") {
            Some(Timing::Manual1)
        } else if same_text(t, "MANUAL2") {
            Some(Timing::Manual2)
        } else if same_text(t, "MANUAL3") {
            Some(Timing::Manual3)
        } else {
            None
        }
    }

    /// Each variant reads back from its own token, and no token is empty.
    pub proof fn lemma_token_round_trip(v: Timing)
        ensures
            Timing::spec_from_token(v.spec_token()) == Some(v),
            v.spec_token().len() > 0,
    {
        reveal_strlit("AUTOMATIC");
        reveal_strlit("SEMIAUTOMATIC");
        reveal_strlit("MANUAL1");
        reveal_strlit("MANUAL2");
        reveal_strlit("MANUAL3");
        assert("AUTOMATIC"@.len() == 9);
        assert("AUTOMATIC"@[0] == 'A');
        assert("AUTOMATIC"@[1] == 'U');
        assert("AUTOMATIC"@[2] == 'T');
        assert("AUTOMATIC"@[3] == 'O');
        assert("AUTOMATIC"@[4] == 'M');
        assert("AUTOMATIC"@[5] == 'A');
        assert("AUTOMATIC"@[6] == 'T');
        assert("AUTOMATIC"@[7] == 'I');
        assert("AUTOMATIC"@[8] == 'C');
        assert("SEMIAUTOMATIC"@.len() == 13);
        assert("SEMIAUTOMATIC"@[0] == 'S');
        assert("SEMIAUTOMATIC"@[1] == 'E');
        assert("SEMIAUTOMATIC"@[2] == 'M');
        assert("SEMIAUTOMATIC"@[3] == 'I');
        assert("SEMIAUTOMATIC"@[4] == 'A');
        assert("SEMIAUTOMATIC"@[5] == 'U');
        assert("SEMIAUTOMATIC"@[6] == 'T');
        assert("SEMIAUTOMATIC"@[7] == 'O');
        assert("SEMIAUTOMATIC"@[8] == 'M');
        assert("SEMIAUTOMATIC"@[9] == 'A');
        assert("SEMIAUTOMATIC"@[10] == 'T');
        assert("SEMIAUTOMATIC"@[11] == 'I');
        assert("SEMIAUTOMATIC"@[12] == 'C');
        assert("MANUAL1"@.len() == 7);
        assert("MANUAL1"@[0] == 'M');
        assert("MANUAL1"@[1] == 'A');
        assert("MANUAL1"@[2] == 'N');
        assert("MANUAL1"@[3] == 'U');
        assert("MANUAL1"@[4] == 'A');
        assert("MANUAL1"@[5] == 'L');
        assert("MANUAL1"@[6] == '1');
        assert("MANUAL2"@.len() == 7);
        assert("MANUAL2"@[0] == 'M');
        assert("MANUAL2"@[1] == 'A');
        assert("MANUAL2"@[2] == 'N');
        assert("MANUAL2"@[3] == 'U');
        assert("MANUAL2"@[4] == 'A');
        assert("MANUAL2"@[5] == 'L');
        assert("MANUAL2"@[6] == '2');
        assert("MANUAL3"@.len() == 7);
        assert("MANUAL3"@[0] == 'M');
        assert("MANUAL3"@[1] == 'A');
        assert("MANUAL3"@[2] == 'N');
        assert("MANUAL3"@[3] == 'U');
        assert("MANUAL3"@[4] == 'A');
        assert("MANUAL3"@[5] == 'L');
        assert("MANUAL3"@[6] == '3');
        match v {
            Timing::Automatic => {
            },
            Timing::SemiAutomatic => {
                assert("SEMIAUTOMATIC"@ != "AUTOMATIC"@);
            },
            Timing::Manual1 => {
                assert("MANUAL1"@ != "AUTOMATIC"@);
                assert("MANUAL1"@ != "SEMIAUTOMATIC"@);
            },
            Timing::Manual2 => {
                assert("MANUAL2"@ != "AUTOMATIC"@);
                assert("MANUAL2"@ != "SEMIAUTOMATIC"@);
                assert("MANUAL2"@ != "MANUAL1"@);
            },
            Timing::Manual3 => {
                assert("MANUAL3"@ != "AUTOMATIC"@);
                assert("MANUAL3"@ != "SEMIAUTOMATIC"@);
                assert("MANUAL3"@ != "MANUAL1"@);
                assert("MANUAL3"@ != "MANUAL2"@);
            },
        }
    }
}

} // verus!
