use vstd::prelude::*;
use vstd::string::*;

verus! {

/// HTTP request methods.
#[derive(Debug, Clone, Copy, PartialEq, Eq, Structural, Hash)]
pub enum Method {
    /// Requests a representation of the specified resource; should only retrieve data.
    Get,
    /// Asks for a response identical to that of a GET request, but without the body.
    Head,
    /// Submits an entity to the specified resource, often changing state on the server.
    Post,
    /// Replaces all current representations of the target resource with the payload.
    Put,
    /// Deletes the specified resource.
    Delete,
    /// Establishes a tunnel to the server identified by the target resource.
    Connect,
    /// Describes the communication options for the target resource.
    Options,
    /// Performs a message loop-back test along the path to the target resource.
    Trace,
    /// Applies partial modifications to a resource.
    Patch,
}

/// Why text could not be read as a method.
#[derive(Debug, Clone, PartialEq, Eq)]
pub enum Error {
    /// The text is not, in any casing, one of the nine method names; it is kept here.
    InvalidMethod(String),
}

/// The canonical, upper-case name of `m`: its display and wire form.
pub open spec fn canonical(m: Method) -> Seq<char> {
    match m {
        Method::Get => seq!['G', 'E', 'T'],
        Method::Head => seq!['H', 'E', 'A', 'D'],
        Method::Post => seq!['P', 'O', 'S', 'T'],
        Method::Put => seq!['P', 'U', 'T'],
        Method::Delete => seq!['D', 'E', 'L', 'E', 'T', 'E'],
        Method::Connect => seq!['C', 'O', 'N', 'N', 'E', 'C', 'T'],
        Method::Options => seq!['O', 'P', 'T', 'I', 'O', 'N', 'S'],
        Method::Trace => seq!['T', 'R', 'A', 'C', 'E'],
        Method::Patch => seq!['P', 'A', 'T', 'C', 'H'],
    }
}

/// The method whose canonical name is exactly `t`, if any.
pub open spec fn named(t: Seq<char>) -> Option<Method> {
    if t == canonical(Method::Get) {
        Some(Method::Get)
    } else if t == canonical(Method::Head) {
        Some(Method::Head)
    } else if t == canonical(Method::Post) {
        Some(Method::Post)
    } else if t == canonical(Method::Put) {
        Some(Method::Put)
    } else if t == canonical(Method::Delete) {
        Some(Method::Delete)
    } else if t == canonical(Method::Connect) {
        Some(Method::Connect)
    } else if t == canonical(Method::Options) {
        Some(Method::Options)
    } else if t == canonical(Method::Trace) {
        Some(Method::Trace)
    } else if t == canonical(Method::Patch) {
        Some(Method::Patch)
    } else {
        None
    }
}

/// ASCII upper-casing of one character: `a`..=`z` become `A`..=`Z`, all else is kept.
pub open spec fn ascii_upper(c: char) -> char {
    if 'a' <= c && c <= 'z' {
        ((c as int) - 32) as char
    } else {
        c
    }
}

/// ASCII upper-casing of a text, character by character.
pub open spec fn to_ascii_upper(s: Seq<char>) -> Seq<char> {
    s.map_values(|c: char| ascii_upper(c))
}

/// What parsing `s` gives: the method named by `s` once upper-cased.
pub open spec fn parsed(s: Seq<char>) -> Option<Method> {
    named(to_ascii_upper(s))
}

/// Whether `r` is what reading `s` as a method gives: the parsed method, or
/// `InvalidMethod` carrying `s` itself.
pub open spec fn parse_result(s: Seq<char>, r: Result<Method, Error>) -> bool {
    match parsed(s) {
        Some(m) => r == Ok::<Method, Error>(m),
        None => r matches Err(Error::InvalidMethod(t)) && t@ == s,
    }
}

/// Whether the character `c` upper-cases to `d`.
fn upper_char_is(c: char, d: char) -> (r: bool)
    ensures
        r == (ascii_upper(c) == d),
{
    if 'a' <= c && c <= 'z' {
        (c as u32) - 32 == d as u32
    } else {
        c == d
    }
}

/// Whether `s`, upper-cased, is exactly `t`.
fn upper_is(s: &str, t: &str) -> (r: bool)
    ensures
        r == (to_ascii_upper(s@) == t@),
{
    let n = s.unicode_len();
    if n != t.unicode_len() {
        return false;
    }
    let mut i: usize = 0;
    while i < n
        invariant
            n == s@.len(),
            n == t@.len(),
            i <= n,
            forall|j: int| 0 <= j < i ==> ascii_upper(#[trigger] s@[j]) == t@[j],
        decreases n - i,
    {
        if !upper_char_is(s.get_char(i), t.get_char(i)) {
            assert(to_ascii_upper(s@)[i as int] != t@[i as int]);
            return false;
        }
        i += 1;
    }
    assert(to_ascii_upper(s@) =~= t@);
    true
}

/// Canonical names are already upper-case, and each one names its own method.
proof fn lemma_canonical_names(m: Method)
    ensures
        to_ascii_upper(canonical(m)) == canonical(m),
        named(canonical(m)) == Some(m),
{
    assert(to_ascii_upper(canonical(m)) =~= canonical(m));
}

/// Parsing the canonical name of any method gives that method back.
pub proof fn lemma_round_trip(m: Method)
    ensures
        parsed(canonical(m)) == Some(m),
{
    lemma_canonical_names(m);
}

/// Parsing ignores case: any text that upper-cases to a method's canonical name
/// parses to that method, just as the canonical name itself does.
pub proof fn lemma_case_insensitive(m: Method, v: Seq<char>)
    requires
        to_ascii_upper(v) == canonical(m),
    ensures
        parsed(v) == Some(m),
        parsed(v) == parsed(canonical(m)),
{
    lemma_canonical_names(m);
}

/// Text that does not upper-case to any canonical name is refused.
pub proof fn lemma_rejection(v: Seq<char>)
    requires
        forall|m: Method| to_ascii_upper(v) != #[trigger] canonical(m),
    ensures
        parsed(v) is None,
{
    assert(to_ascii_upper(v) != canonical(Method::Get));
    assert(to_ascii_upper(v) != canonical(Method::Head));
    assert(to_ascii_upper(v) != canonical(Method::Post));
    assert(to_ascii_upper(v) != canonical(Method::Put));
    assert(to_ascii_upper(v) != canonical(Method::Delete));
    assert(to_ascii_upper(v) != canonical(Method::Connect));
    assert(to_ascii_upper(v) != canonical(Method::Options));
    assert(to_ascii_upper(v) != canonical(Method::Trace));
    assert(to_ascii_upper(v) != canonical(Method::Patch));
}

/// Whether `m` is one of the methods that HTTP calls safe (read-only).
pub open spec fn safe(m: Method) -> bool {
    m is Get || m is Head || m is Options || m is Trace
}

impl Method {
    /// Reads a method from text, ignoring ASCII case: "get", "Get" and "GET" all give `Get`.
    /// Any other text is refused with `InvalidMethod`, which keeps the text.
    pub fn parse(s: &str) -> (r: Result<Method, Error>)
        ensures
            parse_result(s@, r),
    {
        proof {
            reveal_strlit("GET");
            reveal_strlit("HEAD");
            reveal_strlit("POST");
            reveal_strlit("PUT");
            reveal_strlit("DELETE");
            reveal_strlit("CONNECT");
            reveal_strlit("OPTIONS");
            reveal_strlit("TRACE");
            reveal_strlit("PATCH");
            assert("GET"@ =~= canonical(Method::Get));
            assert("HEAD"@ =~= canonical(Method::Head));
            assert("POST"@ =~= canonical(Method::Post));
            assert("PUT"@ =~= canonical(Method::Put));
            assert("DELETE"@ =~= canonical(Method::Delete));
            assert("CONNECT"@ =~= canonical(Method::Connect));
            assert("OPTIONS"@ =~= canonical(Method::Options));
            assert("TRACE"@ =~= canonical(Method::Trace));
            assert("PATCH"@ =~= canonical(Method::Patch));
        }
        if upper_is(s, "GET") {
            Ok(Method::Get)
        } else if upper_is(s, "HEAD") {
            Ok(Method::Head)
        } else if upper_is(s, "POST") {
            Ok(Method::Post)
        } else if upper_is(s, "PUT") {
            Ok(Method::Put)
        } else if upper_is(s, "DELETE") {
            Ok(Method::Delete)
        } else if upper_is(s, "CONNECT") {
            Ok(Method::Connect)
        } else if upper_is(s, "OPTIONS") {
            Ok(Method::Options)
        } else if upper_is(s, "TRACE") {
            Ok(Method::Trace)
        } else if upper_is(s, "PATCH") {
            Ok(Method::Patch)
        } else {
            Err(Error::InvalidMethod(s.to_owned()))
        }
    }

    /// The canonical upper-case name of the method, used for display and serialization.
    pub fn as_str(&self) -> (r: &'static str)
        ensures
            r@ == canonical(*self),
    {
        proof {
            reveal_strlit("GET");
            reveal_strlit("HEAD");
            reveal_strlit("POST");
            reveal_strlit("PUT");
            reveal_strlit("DELETE");
            reveal_strlit("CONNECT");
            reveal_strlit("OPTIONS");
            reveal_strlit("TRACE");
            reveal_strlit("PATCH");
        }
        let r = match self {
            Method::Get => "GET",
            Method::Head => "HEAD",
            Method::Post => "POST",
            Method::Put => "PUT",
            Method::Delete => "DELETE",
            Method::Connect => "CONNECT",
            Method::Options => "OPTIONS",
            Method::Trace => "TRACE",
            Method::Patch => "PATCH",
        };
        assert(r@ =~= canonical(*self));
        r
    }

    /// Whether a method is considered "safe", meaning the request is
    /// essentially read-only (RFC 7231, section 4.2.1).
    pub fn is_safe(&self) -> (r: bool)
        ensures
            r == safe(*self),
    {
        match self {
            Method::Get | Method::Head | Method::Options | Method::Trace => true,
            _ => false,
        }
    }
}

impl std::str::FromStr for Method {
    type Err = Error;

    /// Same as [`Method::parse`].
    fn from_str(s: &str) -> (r: Result<Method, Error>)
        ensures
            parse_result(s@, r),
    {
        Method::parse(s)
    }
}

impl<'a> std::convert::TryFrom<&'a str> for Method {
    type Error = Error;

    /// Same as [`Method::parse`].
    fn try_from(value: &'a str) -> (r: Result<Method, Error>)
        ensures
            parse_result(value@, r),
    {
        Method::parse(value)
    }
}

impl<'a> vstd::std_specs::convert::TryFromSpecImpl<&'a str> for Method {
    // An error's `String` is fixed only up to its view, so no single value can
    // stand for the result; callers rely on `try_from`'s own `ensures`.
    open spec fn obeys_try_from_spec() -> bool {
        false
    }

    open spec fn try_from_spec(v: &'a str) -> Result<Method, Error> {
        choose|r: Result<Method, Error>| parse_result(v@, r)
    }
}

impl AsRef<str> for Method {
    /// Same as [`Method::as_str`].
    fn as_ref(&self) -> (r: &str)
        ensures
            r@ == canonical(*self),
    {
        self.as_str()
    }
}

} // verus!
