//! The rendezvous address: an onion identity and the path of the resource
//! served under it, written `<identity>/<path>`.

use crate::random::{all_alphanumeric, sample_alphanumeric};
use crate::text::{
    chars_of, ends_with, find_first, first_index_of, has_suffix, lemma_first_index_is,
    lemma_first_index_of, push_range, push_str, string_of,
};
use vstd::prelude::*;

verus! {

/// The number of characters of a generated path.
pub const RANDOM_PATH_LENGTH: usize = 30;

/// An address as contracts see it.
pub struct Address {
    pub identity: Seq<char>,
    pub path: Seq<char>,
}

/// The address of a shared resource.
#[derive(Debug, Clone, PartialEq, Eq)]
pub struct TorShareUrl {
    pub hostname: String,
    pub path: String,
}

impl View for TorShareUrl {
    type V = Address;

    open spec fn view(&self) -> Address {
        Address { identity: self.hostname@, path: self.path@ }
    }
}

/// Why a text is no address.
#[derive(Debug, Clone, Copy, PartialEq, Eq)]
pub enum ParseError {
    /// The text holds no `/`.
    MissingDelimiter,
    /// What stands before the first `/` does not end with `.onion`.
    BadSuffix,
}

/// The suffix every identity ends with.
pub open spec fn onion_suffix() -> Seq<char> {
    ".onion"@
}

/// An identity ends with the reserved suffix and holds no `/`.
pub open spec fn valid(a: Address) -> bool {
    &&& ends_with(a.identity, onion_suffix())
    &&& !a.identity.contains('/')
}

/// The address a text stands for: the identity is what precedes the first
/// `/`, the path all that follows it.
pub open spec fn parse(s: Seq<char>) -> Result<Address, ParseError> {
    let i = first_index_of(s, '/');
    if i == s.len() {
        Err(ParseError::MissingDelimiter)
    } else if !ends_with(s.subrange(0, i), onion_suffix()) {
        Err(ParseError::BadSuffix)
    } else {
        Ok(Address { identity: s.subrange(0, i), path: s.subrange(i + 1, s.len() as int) })
    }
}

/// The text of an address.
pub open spec fn serialize(a: Address) -> Seq<char> {
    a.identity + seq!['/'] + a.path
}

/// Parsing the text of a valid address gives the address back.
pub proof fn lemma_parse_serialize(a: Address)
    requires
        valid(a),
    ensures
        parse(serialize(a)) == Ok::<Address, ParseError>(a),
{
    let s = serialize(a);
    let i = a.identity.len() as int;
    assert(s[i] == '/');
    assert forall|j: int| 0 <= j < i implies s[j] != '/' by {
        assert(s[j] == a.identity[j]);
        assert(a.identity.contains(s[j]));
    }
    lemma_first_index_is(s, '/', i);
    assert(s.subrange(0, i) =~= a.identity);
    assert(s.subrange(i + 1, s.len() as int) =~= a.path);
}

/// What parses is valid, and its text is the text that was parsed.
pub proof fn lemma_serialize_parse(s: Seq<char>)
    requires
        parse(s) is Ok,
    ensures
        valid(parse(s)->Ok_0),
        serialize(parse(s)->Ok_0) == s,
{
    lemma_first_index_of(s, '/');
    let i = first_index_of(s, '/');
    let a = parse(s)->Ok_0;
    assert(serialize(a) =~= s);
    if a.identity.contains('/') {
        let k = choose|k: int| 0 <= k < a.identity.len() && a.identity[k] == '/';
        assert(s[k] == '/');
    }
}

impl ParseError {
    /// What to tell the user.
    pub fn message(&self) -> (m: &'static str)
        ensures
            m@ == match *self {
                ParseError::MissingDelimiter => "Hostname doesn't contain a / delimiter"@,
                ParseError::BadSuffix => "Hostname doesn't end with .onion"@,
            },
    {
        match self {
            ParseError::MissingDelimiter => "Hostname doesn't contain a / delimiter",
            ParseError::BadSuffix => "Hostname doesn't end with .onion",
        }
    }
}

impl TorShareUrl {
    /// Reads an address from its text.
    pub fn from_str(url: &str) -> (r: Result<TorShareUrl, ParseError>)
        ensures
            match parse(url@) {
                Ok(a) => r matches Ok(u) && u@ == a,
                Err(e) => r == Err::<TorShareUrl, ParseError>(e),
            },
    {
        let text = chars_of(url);
        let i = find_first(text.as_slice(), '/');
        if i == text.len() {
            return Err(ParseError::MissingDelimiter);
        }
        let mut identity: Vec<char> = Vec::new();
        push_range(&mut identity, text.as_slice(), 0, i);
        let suffix = chars_of(".onion");
        if !has_suffix(identity.as_slice(), suffix.as_slice()) {
            return Err(ParseError::BadSuffix);
        }
        let mut path: Vec<char> = Vec::new();
        push_range(&mut path, text.as_slice(), i + 1, text.len());
        Ok(
            TorShareUrl {
                hostname: string_of(identity.as_slice()),
                path: string_of(path.as_slice()),
            },
        )
    }

    /// An address under `hostname` with a path of `RANDOM_PATH_LENGTH`
    /// random letters and digits.
    pub fn random_path(hostname: String) -> (r: TorShareUrl)
        ensures
            r.hostname == hostname,
            r.path@.len() == RANDOM_PATH_LENGTH,
            all_alphanumeric(r.path@),
    {
        let mut path: Vec<char> = Vec::new();
        while path.len() < RANDOM_PATH_LENGTH
            invariant
                path.len() <= RANDOM_PATH_LENGTH,
                all_alphanumeric(path@),
            decreases RANDOM_PATH_LENGTH - path.len(),
        {
            let c = sample_alphanumeric();
            path.push(c);
        }
        TorShareUrl { hostname, path: string_of(path.as_slice()) }
    }

    /// The text of the address.
    pub fn to_string(&self) -> (s: String)
        ensures
            s@ == serialize(self@),
    {
        let mut text: Vec<char> = Vec::new();
        push_str(&mut text, self.hostname.as_str());
        text.push('/');
        push_str(&mut text, self.path.as_str());
        string_of(text.as_slice())
    }

    /// The location a client requests.
    pub fn to_url(&self) -> (s: String)
        ensures
            s@ == "http://"@ + serialize(self@),
    {
        let mut text: Vec<char> = Vec::new();
        push_str(&mut text, "http://");
        push_str(&mut text, self.hostname.as_str());
        text.push('/');
        push_str(&mut text, self.path.as_str());
        string_of(text.as_slice())
    }
}

} // verus!
