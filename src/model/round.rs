use vstd::prelude::*;

use crate::text::same_text;

verus! {

/// The round of an event. `TimedFinals` is the neutral variant: it is written
/// as the empty token, and any unknown token (`TIM` among them) reads back as
/// `TimedFinals`.
#[derive(Debug, Clone, Copy, PartialEq, Eq, Structural)]
pub enum Round {
    TimedFinals,
    FastestHeat,
    Finals,
    SemiFinals,
    QuarterFinals,
    Prelims,
    SwimOffPrelims,
    SwimOffSemiFinals,
    SwimOffQuarterFinals,
}

impl Round {
    pub open spec fn spec_token(self) -> Seq<char> {
        match self {
            Round::TimedFinals => ""@,
            Round::FastestHeat => "FHT"@,
            Round::Finals => "FIN"@,
            Round::SemiFinals => "SEM"@,
            Round::QuarterFinals => "QUA"@,
            Round::Prelims => "PRE"@,
            Round::SwimOffPrelims => "SOP"@,
            Round::SwimOffSemiFinals => "SOS"@,
            Round::SwimOffQuarterFinals => "SOQ"@,
        }
    }

    pub open spec fn spec_from_token(t: Seq<char>) -> Round {
        if t == "FHT"@ {
            Round::FastestHeat
        } else if t == "FIN"@ {
            Round::Finals
        } else if t == "SEM"@ {
            Round::SemiFinals
        } else if t == "QUA"@ {
            Round::QuarterFinals
        } else if t == "PRE"@ {
            Round::Prelims
        } else if t == "SOP"@ {
            Round::SwimOffPrelims
        } else if t == "SOS"@ {
            Round::SwimOffSemiFinals
        } else if t == "SOQ"@ {
            Round::SwimOffQuarterFinals
        } else {
            Round::TimedFinals
        }
    }

    /// The token written for an optional variant: nothing where it is absent.
    pub open spec fn spec_opt_token(o: Option<Round>) -> Seq<char> {
        match o {
            Some(v) => v.spec_token(),
            None => Seq::empty(),
        }
    }

    /// The variant read from an optional attribute: absent stays absent.
    pub open spec fn spec_from_attr(a: Option<Seq<char>>) -> Option<Round> {
        match a {
            Some(v) => Some(Round::spec_from_token(v)),
            None => None,
        }
    }

    /// The token that stands for this variant.
    pub fn token(&self) -> (r: &'static str)
        ensures
            r@ == self.spec_token(),
    {
        match self {
            Round::TimedFinals => "",
            Round::FastestHeat => "FHT",
            Round::Finals => "FIN",
            Round::SemiFinals => "SEM",
            Round::QuarterFinals => "QUA",
            Round::Prelims => "PRE",
            Round::SwimOffPrelims => "SOP",
            Round::SwimOffSemiFinals => "SOS",
            Round::SwimOffQuarterFinals => "SOQ",
        }
    }

    /// The variant for a token; an unknown token gives `TimedFinals`.
    pub fn from_token(t: &str) -> (r: Round)
        ensures
            r == Round::spec_from_token(t@),
    {
        if same_text(t, "FHT") {
            Round::FastestHeat
        } else if same_text(t, "FIN") {
            Round::Finals
        } else if same_text(t, "SEM") {
            Round::SemiFinals
        } else if same_text(t, "QUA") {
            Round::QuarterFinals
        } else if same_text(t, "PRE") {
            Round::Prelims
        } else if same_text(t, "SOP") {
            Round::SwimOffPrelims
        } else if same_text(t, "SOS") {
            Round::SwimOffSemiFinals
        } else if same_text(t, "SOQ") {
            Round::SwimOffQuarterFinals
        } else {
            Round::TimedFinals
        }
    }

    /// Each variant reads back from its own token. The neutral variant's token
    /// is the only empty one.
    pub proof fn lemma_token_round_trip(v: Round)
        ensures
            Round::spec_from_token(v.spec_token()) == v,
            v.spec_token().len() == 0 <==> v == Round::TimedFinals,
    {
        reveal_strlit("");
        reveal_strlit("FHT");
        reveal_strlit("FIN");
        reveal_strlit("SEM");
        reveal_strlit("QUA");
        reveal_strlit("PRE");
        reveal_strlit("SOP");
        reveal_strlit("SOS");
        reveal_strlit("SOQ");
        assert(""@.len() == 0);
        assert("FHT"@.len() == 3);
        assert("FHT"@[0] == 'F');
        assert("FHT"@[1] == 'H');
        assert("FHT"@[2] == 'T');
        assert("FIN"@.len() == 3);
        assert("FIN"@[0] == 'F');
        assert("FIN"@[1] == 'I');
        assert("FIN"@[2] == 'N');
        assert("SEM"@.len() == 3);
        assert("SEM"@[0] == 'S');
        assert("SEM"@[1] == 'E');
        assert("SEM"@[2] == 'M');
        assert("QUA"@.len() == 3);
        assert("QUA"@[0] == 'Q');
        assert("QUA"@[1] == 'U');
        assert("QUA"@[2] == 'A');
        assert("PRE"@.len() == 3);
        assert("PRE"@[0] == 'P');
        assert("PRE"@[1] == 'R');
        assert("PRE"@[2] == 'E');
        assert("SOP"@.len() == 3);
        assert("SOP"@[0] == 'S');
        assert("SOP"@[1] == 'O');
        assert("SOP"@[2] == 'P');
        assert("SOS"@.len() == 3);
        assert("SOS"@[0] == 'S');
        assert("SOS"@[1] == 'O');
        assert("SOS"@[2] == 'S');
        assert("SOQ"@.len() == 3);
        assert("SOQ"@[0] == 'S');
        assert("SOQ"@[1] == 'O');
        assert("SOQ"@[2] == 'Q');
        match v {
            Round::TimedFinals => {
                assert(""@.len() == 0);
                assert(""@ != "FHT"@);
                assert(""@ != "FIN"@);
                assert(""@ != "SEM"@);
                assert(""@ != "QUA"@);
                assert(""@ != "PRE"@);
                assert(""@ != "SOP"@);
                assert(""@ != "SOS"@);
                assert(""@ != "SOQ"@);
            },
            Round::FastestHeat => {
            },
            Round::Finals => {
                assert("FIN"@ != "FHT"@);
            },
            Round::SemiFinals => {
                assert("SEM"@ != "FHT"@);
                assert("SEM"@ != "FIN"@);
            },
            Round::QuarterFinals => {
                assert("QUA"@ != "FHT"@);
                assert("QUA"@ != "FIN"@);
                assert("QUA"@ != "SEM"@);
            },
            Round::Prelims => {
                assert("PRE"@ != "FHT"@);
                assert("PRE"@ != "FIN"@);
                assert("PRE"@ != "SEM"@);
                assert("PRE"@ != "QUA"@);
            },
            Round::SwimOffPrelims => {
                assert("SOP"@ != "FHT"@);
                assert("SOP"@ != "FIN"@);
                assert("SOP"@ != "SEM"@);
                assert("SOP"@ != "QUA"@);
                assert("SOP"@ != "PRE"@);
            },
            Round::SwimOffSemiFinals => {
                assert("SOS"@ != "FHT"@);
                assert("SOS"@ != "FIN"@);
                assert("SOS"@ != "SEM"@);
                assert("SOS"@ != "QUA"@);
                assert("SOS"@ != "PRE"@);
                assert("SOS"@ != "SOP"@);
            },
            Round::SwimOffQuarterFinals => {
                assert("SOQ"@ != "FHT"@);
                assert("SOQ"@ != "FIN"@);
                assert("SOQ"@ != "SEM"@);
                assert("SOQ"@ != "QUA"@);
                assert("SOQ"@ != "PRE"@);
                assert("SOQ"@ != "SOP"@);
                assert("SOQ"@ != "SOS"@);
            },
        }
    }
}

impl Default for Round {
    fn default() -> (r: Round)
        ensures
            r == Round::TimedFinals,
    {
        Round::TimedFinals
    }
}

} // verus!
