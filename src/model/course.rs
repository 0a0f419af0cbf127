use vstd::prelude::*;

use crate::text::same_text;

verus! {

/// The pool length of a meet. There is no default: an unknown token is an
/// error.
#[derive(Debug, Clone, Copy, PartialEq, Eq, Structural)]
pub enum Course {
    LCM,
    SCM,
    SCY,
    SCM16,
    SCM20,
    SCM33,
    SCY20,
    SCY27,
    SCY33,
    SCY36,
    Open,
}

impl Course {
    pub open spec fn spec_token(self) -> Seq<char> {
        match self {
            Course::LCM => "LCM"@,
            Course::SCM => "SCM"@,
            Course::SCY => "SCY"@,
            Course::SCM16 => "SCM16"@,
            Course::SCM20 => "SCM20"@,
            Course::SCM33 => "SCM33"@,
            Course::SCY20 => "SCY20"@,
            Course::SCY27 => "SCY27"@,
            Course::SCY33 => "SCY33"@,
            Course::SCY36 => "SCY36"@,
            Course::Open => "OPEN"@,
        }
    }

    pub open spec fn spec_from_token(t: Seq<char>) -> Option<Course> {
        if t == "LCM"@ {
            Some(Course::LCM)
        } else if t == "SCM"@ {
            Some(Course::SCM)
        } else if t == "SCY"@ {
            Some(Course::SCY)
        } else if t == "SCM16"@ {
            Some(Course::SCM16)
        } else if t == "SCM20"@ {
            Some(Course::SCM20)
        } else if t == "SCM33"@ {
            Some(Course::SCM33)
        } else if t == "SCY20"@ {
            Some(Course::SCY20)
        } else if t == "SCY27"@ {
            Some(Course::SCY27)
        } else if t == "SCY33"@ {
            Some(Course::SCY33)
        } else if t == "SCY36"@ {
            Some(Course::SCY36)
        } else if t == "OPEN"@ {
            Some(Course::Open)
        } else {
            None
        }
    }

    /// The token written for an optional variant: nothing where it is absent.
    pub open spec fn spec_opt_token(o: Option<Course>) -> Seq<char> {
        match o {
            Some(v) => v.spec_token(),
            None => Seq::empty(),
        }
    }

    /// The variant read from an optional attribute: absent stays absent, and
    /// an unknown token gives `None` too (the reader refuses it).
    pub open spec fn spec_from_attr(a: Option<Seq<char>>) -> Option<Course> {
        match a {
            Some(v) => Course::spec_from_token(v),
            None => None,
        }
    }

    /// The token that stands for this variant.
    pub fn token(&self) -> (r: &'static str)
        ensures
            r@ == self.spec_token(),
    {
        match self {
            Course::LCM => "LCM",
            Course::SCM => "SCM",
            Course::SCY => "SCY",
            Course::SCM16 => "SCM16",
            Course::SCM20 => "SCM20",
            Course::SCM33 => "SCM33",
            Course::SCY20 => "SCY20",
            Course::SCY27 => "SCY27",
            Course::SCY33 => "SCY33",
            Course::SCY36 => "SCY36",
            Course::Open => "OPEN",
        }
    }

    /// The variant for a token; `None` for a token outside the closed set.
    pub fn from_token(t: &str) -> (r: Option<Course>)
        ensures
            r == Course::spec_from_token(t@),
    {
        if same_text(t, "LCM") {
            Some(Course::LCM)
        } else if same_text(t, "SCM") {
            Some(Course::SCM)
        } else if same_text(t, "SCY") {
            Some(Course::SCY)
        } else if same_text(t, "SCM16") {
            Some(Course::SCM16)
        } else if same_text(t, "SCM20") {
            Some(Course::SCM20)
        } else if same_text(t, "SCM33") {
            Some(Course::SCM33)
        } else if same_text(t, "SCY20") {
            Some(Course::SCY20)
        } else if same_text(t, "SCY27") {
            Some(Course::SCY27)
        } else if same_text(t, "SCY33") {
            Some(Course::SCY33)
        } else if same_text(t, "SCY36") {
            Some(Course::SCY36)
        } else if same_text(t, "OPEN") {
            Some(Course::Open)
        } else {
            None
        }
    }

    /// Each variant reads back from its own token, and no token is empty.
    pub proof fn lemma_token_round_trip(v: Course)
        ensures
            Course::spec_from_token(v.spec_token()) == Some(v),
            v.spec_token().len() > 0,
    {
        reveal_strlit("LCM");
        reveal_strlit("SCM");
        reveal_strlit("SCY");
        reveal_strlit("SCM16");
        reveal_strlit("SCM20");
        reveal_strlit("SCM33");
        reveal_strlit("SCY20");
        reveal_strlit("SCY27");
        reveal_strlit("SCY33");
        reveal_strlit("SCY36");
        reveal_strlit("OPEN");
        assert("LCM"@.len() == 3);
        assert("LCM"@[0] == 'L');
        assert("LCM"@[1] == 'C');
        assert("LCM"@[2] == 'M');
        assert("SCM"@.len() == 3);
        assert("SCM"@[0] == 'S');
        assert("SCM"@[1] == 'C');
        assert("SCM"@[2] == 'M');
        assert("SCY"@.len() == 3);
        assert("SCY"@[0] == 'S');
        assert("SCY"@[1] == 'C');
        assert("SCY"@[2] == 'Y');
        assert("SCM16"@.len() == 5);
        assert("SCM16"@[0] == 'S');
        assert("SCM16"@[1] == 'C');
        assert("SCM16"@[2] == 'M');
        assert("SCM16"@[3] == '1');
        assert("SCM16"@[4] == '6');
        assert("SCM20"@.len() == 5);
        assert("SCM20"@[0] == 'S');
        assert("SCM20"@[1] == 'C');
        assert("SCM20"@[2] == 'M');
        assert("SCM20"@[3] == '2');
        assert("SCM20"@[4] == '0');
        assert("SCM33"@.len() == 5);
        assert("SCM33"@[0] == 'S');
        assert("SCM33"@[1] == 'C');
        assert("SCM33"@[2] == 'M');
        assert("SCM33"@[3] == '3');
        assert("SCM33"@[4] == '3');
        assert("SCY20"@.len() == 5);
        assert("SCY20"@[0] == 'S');
        assert("SCY20"@[1] == 'C');
        assert("SCY20"@[2] == 'Y');
        assert("SCY20"@[3] == '2');
        assert("SCY20"@[4] == '0');
        assert("SCY27"@.len() == 5);
        assert("SCY27"@[0] == 'S');
        assert("SCY27"@[1] == 'C');
        assert("SCY27"@[2] == 'Y');
        assert("SCY27"@[3] == '2');
        assert("SCY27"@[4] == '7');
        assert("SCY33"@.len() == 5);
        assert("SCY33"@[0] == 'S');
        assert("SCY33"@[1] == 'C');
        assert("SCY33"@[2] == 'Y');
        assert("SCY33"@[3] == '3');
        assert("SCY33"@[4] == '3');
        assert("SCY36"@.len() == 5);
        assert("SCY36"@[0] == 'S');
        assert("SCY36"@[1] == 'C');
        assert("SCY36"@[2] == 'Y');
        assert("SCY36"@[3] == '3');
        assert("SCY36"@[4] == '6');
        assert("OPEN"@.len() == 4);
        assert("OPEN"@[0] == 'O');
        assert("OPEN"@[1] == 'P');
        assert("OPEN"@[2] == 'E');
        assert("OPEN"@[3] == 'N');
        match v {
            Course::LCM => {
            },
            Course::SCM => {
                assert("SCM"@ != "LCM"@);
            },
            Course::SCY => {
                assert("SCY"@ != "LCM"@);
                assert("SCY"@ != "SCM"@);
            },
            Course::SCM16 => {
                assert("SCM16"@ != "LCM"@);
                assert("SCM16"@ != "SCM"@);
                assert("SCM16"@ != "SCY"@);
            },
            Course::SCM20 => {
                assert("SCM20"@ != "LCM"@);
                assert("SCM20"@ != "SCM"@);
                assert("SCM20"@ != "SCY"@);
                assert("SCM20"@ != "SCM16"@);
            },
            Course::SCM33 => {
                assert("SCM33"@ != "LCM"@);
                assert("SCM33"@ != "SCM"@);
                assert("SCM33"@ != "SCY"@);
                assert("SCM33"@ != "SCM16"@);
                assert("SCM33"@ != "SCM20"@);
            },
            Course::SCY20 => {
                assert("SCY20"@ != "LCM"@);
                assert("SCY20"@ != "SCM"@);
                assert("SCY20"@ != "SCY"@);
                assert("SCY20"@ != "SCM16"@);
                assert("SCY20"@ != "SCM20"@);
                assert("SCY20"@ != "SCM33"@);
            },
            Course::SCY27 => {
                assert("SCY27"@ != "LCM"@);
                assert("SCY27"@ != "SCM"@);
                assert("SCY27"@ != "SCY"@);
                assert("SCY27"@ != "SCM16"@);
                assert("SCY27"@ != "SCM20"@);
                assert("SCY27"@ != "SCM33"@);
                assert("SCY27"@ != "SCY20"@);
            },
            Course::SCY33 => {
                assert("SCY33"@ != "LCM"@);
                assert("SCY33"@ != "SCM"@);
                assert("SCY33"@ != "SCY"@);
                assert("SCY33"@ != "SCM16"@);
                assert("SCY33"@ != "SCM20"@);
                assert("SCY33"@ != "SCM33"@);
                assert("SCY33"@ != "SCY20"@);
                assert("SCY33"@ != "SCY27"@);
            },
            Course::SCY36 => {
                assert("SCY36"@ != "LCM"@);
                assert("SCY36"@ != "SCM"@);
                assert("SCY36"@ != "SCY"@);
                assert("SCY36"@ != "SCM16"@);
                assert("SCY36"@ != "SCM20"@);
                assert("SCY36"@ != "SCM33"@);
                assert("SCY36"@ != "SCY20"@);
                assert("SCY36"@ != "SCY27"@);
                assert("SCY36"@ != "SCY33"@);
            },
            Course::Open => {
                assert("OPEN"@ != "LCM"@);
                assert("OPEN"@ != "SCM"@);
                assert("OPEN"@ != "SCY"@);
                assert("OPEN"@ != "SCM16"@);
                assert("OPEN"@ != "SCM20"@);
                assert("OPEN"@ != "SCM33"@);
                assert("OPEN"@ != "SCY20"@);
                assert("OPEN"@ != "SCY27"@);
                assert("OPEN"@ != "SCY33"@);
                assert("OPEN"@ != "SCY36"@);
            },
        }
    }
}

} // verus!
