use vstd::prelude::*;
use vstd::string::StrSliceExecFns;

verus! {

/// How the result of a deployment is printed.
#[derive(Clone, Copy, Debug, PartialEq, Eq, Structural)]
pub enum OutputFormat {
    /// The result's own human-readable rendering.
    Text,
    /// The result's fields as pretty-printed JSON.
    Json,
}

/// Two characters are equal once ASCII letters are folded to lower case.
pub open spec fn same_ignoring_ascii_case(a: char, b: char) -> bool {
    ||| a == b
    ||| ('A' <= a <= 'Z' && b as int == a as int + 32)
    ||| ('a' <= a <= 'z' && a as int == b as int + 32)
}

/// Two texts are equal once ASCII letters are folded to lower case.
pub open spec fn eq_ignoring_ascii_case(a: Seq<char>, b: Seq<char>) -> bool {
    &&& a.len() == b.len()
    &&& forall|i: int| 0 <= i < a.len() ==> same_ignoring_ascii_case(#[trigger] a[i], b[i])
}

fn same_char_ignoring_ascii_case(a: char, b: char) -> (r: bool)
    ensures
        r == same_ignoring_ascii_case(a, b),
{
    a == b || ('A' <= a && a <= 'Z' && (b as u32) == (a as u32) + 32) || ('a' <= a && a <= 'z'
        && (a as u32) == (b as u32) + 32)
}

/// Whether two texts are equal once ASCII letters are folded to lower case.
fn ascii_case_insensitive_eq(a: &str, b: &str) -> (r: bool)
    ensures
        r == eq_ignoring_ascii_case(a@, b@),
{
    let n = a.unicode_len();
    if n != b.unicode_len() {
        return false;
    }
    let mut i: usize = 0;
    while i < n
        invariant
            n == a@.len(),
            n == b@.len(),
            i <= n,
            forall|j: int| 0 <= j < i ==> same_ignoring_ascii_case(#[trigger] a@[j], b@[j]),
        decreases n - i,
    {
        if !same_char_ignoring_ascii_case(a.get_char(i), b.get_char(i)) {
            return false;
        }
        i = i + 1;
    }
    true
}

/// The format named by a text, in any ASCII case.
pub open spec fn format_named(s: Seq<char>) -> Option<OutputFormat> {
    if eq_ignoring_ascii_case(s, "text"@) {
        Some(OutputFormat::Text)
    } else if eq_ignoring_ascii_case(s, "json"@) {
        Some(OutputFormat::Json)
    } else {
        None
    }
}

impl OutputFormat {
    /// Reads `text` or `json`, in any ASCII case.
    pub fn parse(s: &str) -> (r: Option<OutputFormat>)
        ensures
            r == format_named(s@),
    {
        if ascii_case_insensitive_eq(s, "text") {
            Some(OutputFormat::Text)
        } else if ascii_case_insensitive_eq(s, "json") {
            Some(OutputFormat::Json)
        } else {
            None
        }
    }

    /// The variant's name, as the command line shows it.
    pub fn name(&self) -> (r: &'static str)
        ensures
            r@ == match self {
                OutputFormat::Text => "Text"@,
                OutputFormat::Json => "Json"@,
            },
    {
        match self {
            OutputFormat::Text => "Text",
            OutputFormat::Json => "Json",
        }
    }
}

} // verus!
