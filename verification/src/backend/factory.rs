//! Backend kinds and their names.
use vstd::prelude::*;
use crate::text::same_text;

verus! {

/// Type of backend to use.
#[derive(Debug, Clone, Copy, PartialEq, Eq, Structural)]
pub enum BackendType {
    /// Mistral-specific backend.
    Mistral,
    /// Generic OpenAI-compatible backend.
    Generic,
}

/// The lower-case form of a string, as `str::to_lowercase` computes it.
pub uninterp spec fn lowercase(s: Seq<char>) -> Seq<char>;

/// ASCII lower-casing of one character.
pub open spec fn ascii_lower_char(c: char) -> char {
    if 'A' <= c && c <= 'Z' {
        ((c as u32) + 32) as char
    } else {
        c
    }
}

/// `str::to_lowercase`: the Unicode lower-case form of the string; on a string
/// of ASCII characters it lower-cases the letters A to Z and keeps the rest.
#[verifier::external_body]
pub(crate) fn to_lowercase(s: &str) -> (r: String)
    ensures
        r@ == lowercase(s@),
        vstd::string::is_ascii(s) ==> r@ == s@.map_values(|c: char| ascii_lower_char(c)),
{
    s.to_lowercase()
}

/// The backend a lower-case name denotes.
pub open spec fn backend_named(name: Seq<char>) -> Option<BackendType> {
    if name == "mistral"@ {
        Some(BackendType::Mistral)
    } else if name == "generic"@ || name == "openai"@ {
        Some(BackendType::Generic)
    } else {
        None
    }
}

/// The name of a backend.
pub open spec fn backend_name(t: BackendType) -> Seq<char> {
    match t {
        BackendType::Mistral => "mistral"@,
        BackendType::Generic => "generic"@,
    }
}

/// The message for a name that denotes no backend.
pub open spec fn unknown_backend_text(s: Seq<char>) -> Seq<char> {
    "Unknown backend type: "@ + s
}

impl BackendType {
    /// The name of the backend (its display form).
    pub fn as_str(&self) -> (s: &'static str)
        ensures
            s@ == backend_name(*self),
    {
        match self {
            BackendType::Mistral => "mistral",
            BackendType::Generic => "generic",
        }
    }

    /// The backend that an already lower-cased name denotes.
    pub fn from_lowercase_name(name: &str) -> (r: Option<BackendType>)
        ensures
            r == backend_named(name@),
    {
        if same_text(name, "mistral") {
            Some(BackendType::Mistral)
        } else if same_text(name, "generic") || same_text(name, "openai") {
            Some(BackendType::Generic)
        } else {
            None
        }
    }

    /// Parses a backend name, ignoring case; `openai` is another name of the
    /// generic backend.
    pub fn parse(s: &str) -> (r: Result<BackendType, String>)
        ensures
            match backend_named(lowercase(s@)) {
                Some(t) => r == Ok::<BackendType, String>(t),
                None => r matches Err(e) && e@ == unknown_backend_text(s@),
            },
            forall|t: BackendType| s@ == backend_name(t) ==> r == Ok::<BackendType, String>(t),
    {
        proof {
            reveal_strlit("mistral");
            reveal_strlit("generic");
        }
        let lowered = to_lowercase(s);
        proof {
            if s@ == "mistral"@ || s@ == "generic"@ {
                assert(vstd::string::is_ascii(s));
                assert(lowered@ =~= s@);
            }
            assert forall|t: BackendType| s@ == backend_name(t) implies backend_named(lowered@) == Some(t) by {
                assert(lowered@ == s@);
                assert("generic"@ != "mistral"@) by {
                    assert("generic"@[0] != "mistral"@[0]);
                }
            }
        }
        match BackendType::from_lowercase_name(lowered.as_str()) {
            Some(t) => Ok(t),
            None => {
                let mut e = String::new();
                e.append("Unknown backend type: ");
                e.append(s);
                Err(e)
            },
        }
    }
}

impl Default for BackendType {
    fn default() -> (t: BackendType)
        ensures
            t == BackendType::Generic,
    {
        BackendType::Generic
    }
}

impl std::str::FromStr for BackendType {
    type Err = String;

    fn from_str(s: &str) -> (r: Result<BackendType, String>)
        ensures
            match backend_named(lowercase(s@)) {
                Some(t) => r == Ok::<BackendType, String>(t),
                None => r matches Err(e) && e@ == unknown_backend_text(s@),
            },
            forall|t: BackendType| s@ == backend_name(t) ==> r == Ok::<BackendType, String>(t),
    {
        BackendType::parse(s)
    }
}

/// Factory for creating LLM backends; the backend kind of a provider decides
/// which backend it creates.
pub struct BackendFactory;

} // verus!
