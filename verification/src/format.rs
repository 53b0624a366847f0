//! Serialization formats that the gateway speaks on its HTTP side.
use vstd::prelude::*;

verus! {

/// The MIME type of the JSON format.
pub open spec fn json_content_type() -> Seq<char> {
    seq!['a', 'p', 'p', 'l', 'i', 'c', 'a', 't', 'i', 'o', 'n', '/', 'j', 's', 'o', 'n']
}

/// Supported serialization formats.
#[derive(Debug, Clone, Copy, PartialEq, Eq, Structural)]
pub enum Format {
    Json,
}

impl Default for Format {
    fn default() -> (r: Format)
        ensures
            r == Format::Json,
    {
        Format::Json
    }
}

/// Whether two character sequences held by string slices are equal, checked character by character.
pub fn str_equals(a: &str, b: &str) -> (r: bool)
    ensures
        r == (a@ == b@),
{
    let n = a.unicode_len();
    if n != b.unicode_len() {
        return false;
    }
    let mut i: usize = 0;
    while i < n
        invariant
            n == a@.len(),
            n == b@.len(),
            i <= n,
            forall|j: int| 0 <= j < i ==> a@[j] == b@[j],
        decreases n - i,
    {
        if a.get_char(i) != b.get_char(i) {
            return false;
        }
        i = i + 1;
    }
    assert(a@ =~= b@);
    true
}

impl Format {
    /// The MIME content type of a format.
    pub open spec fn spec_content_type(self) -> Seq<char> {
        match self {
            Format::Json => json_content_type(),
        }
    }

    /// Returns the MIME content type for this format.
    pub fn content_type(self) -> (r: &'static str)
        ensures
            r@ == self.spec_content_type(),
    {
        match self {
            Format::Json => {
                let s = "application/json";
                proof {
                    reveal_strlit("application/json");
                }
                assert(s@ =~= json_content_type());
                s
            },
        }
    }

    /// The format that a MIME content type names, if any.
    pub open spec fn spec_parse(s: Seq<char>) -> Option<Format> {
        if s == json_content_type() {
            Some(Format::Json)
        } else {
            None
        }
    }

    /// Picks the format named by a MIME content type; only `application/json` is known.
    pub fn from_content_type(s: &str) -> (r: Result<Format, ()>)
        ensures
            r is Ok <==> s@ == json_content_type(),
            r is Ok ==> r == Ok::<Format, ()>(Format::Json),
            match Format::spec_parse(s@) {
                Some(f) => r == Ok::<Format, ()>(f),
                None => r is Err,
            },
    {
        let json = Format::Json.content_type();
        if str_equals(s, json) {
            Ok(Format::Json)
        } else {
            Err(())
        }
    }
}

impl core::str::FromStr for Format {
    type Err = ();

    fn from_str(s: &str) -> (r: Result<Format, ()>)
        ensures
            r is Ok <==> s@ == json_content_type(),
            r is Ok ==> r == Ok::<Format, ()>(Format::Json),
    {
        Format::from_content_type(s)
    }
}

/// Reading a format's content type back gives the same format.
pub proof fn lemma_content_type_round_trip(f: Format)
    ensures
        Format::spec_parse(f.spec_content_type()) == Some(f),
{
}

} // verus!
