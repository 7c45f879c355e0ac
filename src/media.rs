use vstd::prelude::*;

verus! {

/// The stream category a descriptor describes.
#[derive(Clone, Copy, Debug, PartialEq, Eq, Structural)]
pub enum Type {
    Unknown,
    Video,
    Audio,
    Data,
    Subtitle,
    Attachment,
}

/// The engine's integer code for a medium.
pub open spec fn code_of(t: Type) -> i32 {
    match t {
        Type::Unknown => -1i32,
        Type::Video => 0i32,
        Type::Audio => 1i32,
        Type::Data => 2i32,
        Type::Subtitle => 3i32,
        Type::Attachment => 4i32,
    }
}

/// The medium an engine code stands for; codes outside the table are unknown.
pub open spec fn type_of(code: i32) -> Type {
    if code == 0 {
        Type::Video
    } else if code == 1 {
        Type::Audio
    } else if code == 2 {
        Type::Data
    } else if code == 3 {
        Type::Subtitle
    } else if code == 4 {
        Type::Attachment
    } else {
        Type::Unknown
    }
}

impl Type {
    /// Reads a medium from the engine's integer code.
    pub fn from_code(code: i32) -> (t: Type)
        ensures
            t == type_of(code),
    {
        if code == 0 {
            Type::Video
        } else if code == 1 {
            Type::Audio
        } else if code == 2 {
            Type::Data
        } else if code == 3 {
            Type::Subtitle
        } else if code == 4 {
            Type::Attachment
        } else {
            Type::Unknown
        }
    }

    /// The engine's integer code for this medium.
    pub fn code(&self) -> (c: i32)
        ensures
            c == code_of(*self),
    {
        match self {
            Type::Unknown => -1,
            Type::Video => 0,
            Type::Audio => 1,
            Type::Data => 2,
            Type::Subtitle => 3,
            Type::Attachment => 4,
        }
    }
}

/// Every medium survives the trip to its engine code and back.
pub proof fn lemma_type_code_round_trip(t: Type)
    ensures
        type_of(code_of(t)) == t,
{
}

} // verus!
