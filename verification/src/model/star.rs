use vstd::prelude::*;

verus! {

/// What a star was given to.
#[derive(Debug, Clone, Copy, PartialEq, Eq, Structural)]
pub enum StarType {
    User,
    Topic,
    Comment,
}

impl StarType {
    /// The number under which the kind is stored.
    pub open spec fn spec_code(self) -> int {
        match self {
            StarType::User => 1,
            StarType::Topic => 2,
            StarType::Comment => 3,
        }
    }

    pub fn code(self) -> (code: u8)
        ensures
            code == self.spec_code(),
    {
        match self {
            StarType::User => 1,
            StarType::Topic => 2,
            StarType::Comment => 3,
        }
    }

    /// The kind stored under `code`, if there is one.
    pub fn from_code(code: u8) -> (kind: Option<Self>)
        ensures
            1 <= code <= 3 <==> kind is Some,
            kind matches Some(k) ==> k.spec_code() == code,
    {
        if code == 1 {
            Some(StarType::User)
        } else if code == 2 {
            Some(StarType::Topic)
        } else if code == 3 {
            Some(StarType::Comment)
        } else {
            None
        }
    }
}

} // verus!
