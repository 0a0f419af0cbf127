use vstd::prelude::*;

use crate::text::same_text;

verus! {

/// The stroke of a swim style. An unknown token reads back as `Unknown`, the
/// default.
#[derive(Debug, Clone, Copy, PartialEq, Eq, Structural)]
pub enum Stroke {
    Apnea,
    Back,
    Bifins,
    Breast,
    Fly,
    Free,
    Immersion,
    Imrelay,
    Medley,
    Surface,
    Unknown,
}

impl Stroke {
    pub open spec fn spec_token(self) -> Seq<char> {
        match self {
            Stroke::Apnea => "APNEA"@,
            Stroke::Back => "BACK"@,
            Stroke::Bifins => "BIFINS"@,
            Stroke::Breast => "BREAST"@,
            Stroke::Fly => "FLY"@,
            Stroke::Free => "FREE"@,
            Stroke::Immersion => "IMMERSION"@,
            Stroke::Imrelay => "IMRELAY"@,
            Stroke::Medley => "MEDLEY"@,
            Stroke::Surface => "SURFACE"@,
            Stroke::Unknown => "UNKNOWN"@,
        }
    }

    pub open spec fn spec_from_token(t: Seq<char>) -> Stroke {
        if t == "APNEA"@ {
            Stroke::Apnea
        } else if t == "BACK"@ {
            Stroke::Back
        } else if t == "BIFINS"@ {
            Stroke::Bifins
        } else if t == "BREAST"@ {
            Stroke::Breast
        } else if t == "FLY"@ {
            Stroke::Fly
        } else if t == "FREE"@ {
            Stroke::Free
        } else if t == "IMMERSION"@ {
            Stroke::Immersion
        } else if t == "IMRELAY"@ {
            Stroke::Imrelay
        } else if t == "MEDLEY"@ {
            Stroke::Medley
        } else if t == "SURFACE"@ {
            Stroke::Surface
        } else if t == "UNKNOWN"@ {
            Stroke::Unknown
        } else {
            Stroke::Unknown
        }
    }

    /// The token written for an optional variant: nothing where it is absent.
    pub open spec fn spec_opt_token(o: Option<Stroke>) -> Seq<char> {
        match o {
            Some(v) => v.spec_token(),
            None => Seq::empty(),
        }
    }

    /// The variant read from an optional attribute: absent stays absent.
    pub open spec fn spec_from_attr(a: Option<Seq<char>>) -> Option<Stroke> {
        match a {
            Some(v) => Some(Stroke::spec_from_token(v)),
            None => None,
        }
    }

    /// The token that stands for this variant.
    pub fn token(&self) -> (r: &'static str)
        ensures
            r@ == self.spec_token(),
    {
        match self {
            Stroke::Apnea => "APNEA",
            Stroke::Back => "BACK",
            Stroke::Bifins => "BIFINS",
            Stroke::Breast => "BREAST",
            Stroke::Fly => "FLY",
            Stroke::Free => "FREE",
            Stroke::Immersion => "IMMERSION",
            Stroke::Imrelay => "IMRELAY",
            Stroke::Medley => "MEDLEY",
            Stroke::Surface => "SURFACE",
            Stroke::Unknown => "UNKNOWN",
        }
    }

    /// The variant for a token; an unknown token gives `Unknown`.
    pub fn from_token(t: &str) -> (r: Stroke)
        ensures
            r == Stroke::spec_from_token(t@),
    {
        if same_text(t, "APNEA") {
            Stroke::Apnea
        } else if same_text(t, "BACK") {
            Stroke::Back
        } else if same_text(t, "BIFINS") {
            Stroke::Bifins
        } else if same_text(t, "BREAST") {
            Stroke::Breast
        } else if same_text(t, "FLY") {
            Stroke::Fly
        } else if same_text(t, "FREE") {
            Stroke::Free
        } else if same_text(t, "IMMERSION") {
            Stroke::Immersion
        } else if same_text(t, "IMRELAY") {
            Stroke::Imrelay
        } else if same_text(t, "MEDLEY") {
            Stroke::Medley
        } else if same_text(t, "SURFACE") {
            Stroke::Surface
        } else if same_text(t, "UNKNOWN") {
            Stroke::Unknown
        } else {
            Stroke::Unknown
        }
    }

    /// Each variant reads back from its own token. No token is empty.
    pub proof fn lemma_token_round_trip(v: Stroke)
        ensures
            Stroke::spec_from_token(v.spec_token()) == v,
            v.spec_token().len() > 0,
    {
        reveal_strlit("APNEA");
        reveal_strlit("BACK");
        reveal_strlit("BIFINS");
        reveal_strlit("BREAST");
        reveal_strlit("FLY");
        reveal_strlit("FREE");
        reveal_strlit("IMMERSION");
        reveal_strlit("IMRELAY");
        reveal_strlit("MEDLEY");
        reveal_strlit("SURFACE");
        reveal_strlit("UNKNOWN");
        assert("APNEA"@.len() == 5);
        assert("APNEA"@[0] == 'A');
        assert("APNEA"@[1] == 'P');
        assert("APNEA"@[2] == 'N');
        assert("APNEA"@[3] == 'E');
        assert("APNEA"@[4] == 'A');
        assert("BACK"@.len() == 4);
        assert("BACK"@[0] == 'B');
        assert("BACK"@[1] == 'A');
        assert("BACK"@[2] == 'C');
        assert("BACK"@[3] == 'K');
        assert("BIFINS"@.len() == 6);
        assert("BIFINS"@[0] == 'B');
        assert("BIFINS"@[1] == 'I');
        assert("BIFINS"@[2] == 'F');
        assert("BIFINS"@[3] == 'I');
        assert("BIFINS"@[4] == 'N');
        assert("BIFINS"@[5] == 'S');
        assert("BREAST"@.len() == 6);
        assert("BREAST"@[0] == 'B');
        assert("BREAST"@[1] == 'R');
        assert("BREAST"@[2] == 'E');
        assert("BREAST"@[3] == 'A');
        assert("BREAST"@[4] == 'S');
        assert("BREAST"@[5] == 'T');
        assert("FLY"@.len() == 3);
        assert("FLY"@[0] == 'F');
        assert("FLY"@[1] == 'L');
        assert("FLY"@[2] == 'Y');
        assert("FREE"@.len() == 4);
        assert("FREE"@[0] == 'F');
        assert("FREE"@[1] == 'R');
        assert("FREE"@[2] == 'E');
        assert("FREE"@[3] == 'E');
        assert("IMMERSION"@.len() == 9);
        assert("IMMERSION"@[0] == 'I');
        assert("IMMERSION"@[1] == 'M');
        assert("IMMERSION"@[2] == 'M');
        assert("IMMERSION"@[3] == 'E');
        assert("IMMERSION"@[4] == 'R');
        assert("IMMERSION"@[5] == 'S');
        assert("IMMERSION"@[6] == 'I');
        assert("IMMERSION"@[7] == 'O');
        assert("IMMERSION"@[8] == 'N');
        assert("IMRELAY"@.len() == 7);
        assert("IMRELAY"@[0] == 'I');
        assert("IMRELAY"@[1] == 'M');
        assert("IMRELAY"@[2] == 'R');
        assert("IMRELAY"@[3] == 'E');
        assert("IMRELAY"@[4] == 'L');
        assert("IMRELAY"@[5] == 'A');
        assert("IMRELAY"@[6] == 'Y');
        assert("MEDLEY"@.len() == 6);
        assert("MEDLEY"@[0] == 'M');
        assert("MEDLEY"@[1] == 'E');
        assert("MEDLEY"@[2] == 'D');
        assert("MEDLEY"@[3] == 'L');
        assert("MEDLEY"@[4] == 'E');
        assert("MEDLEY"@[5] == 'Y');
        assert("SURFACE"@.len() == 7);
        assert("SURFACE"@[0] == 'S');
        assert("SURFACE"@[1] == 'U');
        assert("SURFACE"@[2] == 'R');
        assert("SURFACE"@[3] == 'F');
        assert("SURFACE"@[4] == 'A');
        assert("SURFACE"@[5] == 'C');
        assert("SURFACE"@[6] == 'E');
        assert("UNKNOWN"@.len() == 7);
        assert("UNKNOWN"@[0] == 'U');
        assert("UNKNOWN"@[1] == 'N');
        assert("UNKNOWN"@[2] == 'K');
        assert("UNKNOWN"@[3] == 'N');
        assert("UNKNOWN"@[4] == 'O');
        assert("UNKNOWN"@[5] == 'W');
        assert("UNKNOWN"@[6] == 'N');
        match v {
            Stroke::Apnea => {
            },
            Stroke::Back => {
                assert("BACK"@ != "APNEA"@);
            },
            Stroke::Bifins => {
                assert("BIFINS"@ != "APNEA"@);
                assert("BIFINS"@ != "BACK"@);
            },
            Stroke::Breast => {
                assert("BREAST"@ != "APNEA"@);
                assert("BREAST"@ != "BACK"@);
                assert("BREAST"@ != "BIFINS"@);
            },
            Stroke::Fly => {
                assert("FLY"@ != "APNEA"@);
                assert("FLY"@ != "BACK"@);
                assert("FLY"@ != "BIFINS"@);
                assert("FLY"@ != "BREAST"@);
            },
            Stroke::Free => {
                assert("FREE"@ != "APNEA"@);
                assert("FREE"@ != "BACK"@);
                assert("FREE"@ != "BIFINS"@);
                assert("FREE"@ != "BREAST"@);
                assert("FREE"@ != "FLY"@);
            },
            Stroke::Immersion => {
                assert("IMMERSION"@ != "APNEA"@);
                assert("IMMERSION"@ != "BACK"@);
                assert("IMMERSION"@ != "BIFINS"@);
                assert("IMMERSION"@ != "BREAST"@);
                assert("IMMERSION"@ != "FLY"@);
                assert("IMMERSION"@ != "FREE"@);
            },
            Stroke::Imrelay => {
                assert("IMRELAY"@ != "APNEA"@);
                assert("IMRELAY"@ != "BACK"@);
                assert("IMRELAY"@ != "BIFINS"@);
                assert("IMRELAY"@ != "BREAST"@);
                assert("IMRELAY"@ != "FLY"@);
                assert("IMRELAY"@ != "FREE"@);
                assert("IMRELAY"@ != "IMMERSION"@);
            },
            Stroke::Medley => {
                assert("MEDLEY"@ != "APNEA"@);
                assert("MEDLEY"@ != "BACK"@);
                assert("MEDLEY"@ != "BIFINS"@);
                assert("MEDLEY"@ != "BREAST"@);
                assert("MEDLEY"@ != "FLY"@);
                assert("MEDLEY"@ != "FREE"@);
                assert("MEDLEY"@ != "IMMERSION"@);
                assert("MEDLEY"@ != "IMRELAY"@);
            },
            Stroke::Surface => {
                assert("SURFACE"@ != "APNEA"@);
                assert("SURFACE"@ != "BACK"@);
                assert("SURFACE"@ != "BIFINS"@);
                assert("SURFACE"@ != "BREAST"@);
                assert("SURFACE"@ != "FLY"@);
                assert("SURFACE"@ != "FREE"@);
                assert("SURFACE"@ != "IMMERSION"@);
                assert("SURFACE"@ != "IMRELAY"@);
                assert("SURFACE"@ != "MEDLEY"@);
            },
            Stroke::Unknown => {
                assert("UNKNOWN"@ != "APNEA"@);
                assert("UNKNOWN"@ != "BACK"@);
                assert("UNKNOWN"@ != "BIFINS"@);
                assert("UNKNOWN"@ != "BREAST"@);
                assert("UNKNOWN"@ != "FLY"@);
                assert("UNKNOWN"@ != "FREE"@);
                assert("UNKNOWN"@ != "IMMERSION"@);
                assert("UNKNOWN"@ != "IMRELAY"@);
                assert("UNKNOWN"@ != "MEDLEY"@);
                assert("UNKNOWN"@ != "SURFACE"@);
            },
        }
    }
}

impl Default for Stroke {
    fn default() -> (r: Stroke)
        ensures
            r == Stroke::Unknown,
    {
        Stroke::Unknown
    }
}

} // verus!
