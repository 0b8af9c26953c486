//! Calls into the address parsers of the `multiaddr` and `url` crates.
use vstd::prelude::*;

verus! {

/// What `multiaddr` makes of a text: `Ok` with the canonical text of the
/// parsed address, or `Err` with the message of the parse error.
pub uninterp spec fn multiaddr_parse(text: Seq<char>) -> Result<Seq<char>, Seq<char>>;

/// What `url` makes of a text: the serialization of the parsed URL, or
/// `None` where the text is no absolute URL.
pub uninterp spec fn url_parse(text: Seq<char>) -> Option<Seq<char>>;

/// The characters of each text in `r`.
pub open spec fn texts_of(r: Result<String, String>) -> Result<Seq<char>, Seq<char>> {
    match r {
        Ok(a) => Ok(a@),
        Err(m) => Err(m@),
    }
}

/// The characters of the text in `r`, if any.
pub open spec fn text_of(r: Option<String>) -> Option<Seq<char>> {
    match r {
        Some(a) => Some(a@),
        None => None,
    }
}

/// Parses `text` with `<multiaddr::Multiaddr as FromStr>::from_str` and gives
/// back the `Display` text of the address or of the error.  The contract
/// names the outcome `multiaddr_parse(text)`, and states what the parser's
/// source shows for a text that does not start with `/` (refused as an
/// invalid multiaddr) and for the empty text (the empty address).
#[verifier::external_body]
pub(crate) fn parse_multiaddr(text: &str) -> (r: Result<String, String>)
    ensures
        multiaddr_parse(text@) == texts_of(r),
        text@.len() > 0 && text@[0] != '/' ==> r is Err && texts_of(r)->Err_0
            == "invalid multiaddr"@,
        text@.len() == 0 ==> r is Ok && texts_of(r)->Ok_0 == Seq::<char>::empty(),
{
    match text.parse::<multiaddr::Multiaddr>() {
        Ok(a) => Ok(a.to_string()),
        Err(e) => Err(e.to_string()),
    }
}

/// Parses `text` with `url::Url::parse` and gives back `Url::as_str` of the
/// result, or `None` where the parser refuses the text.  The contract names
/// the outcome `url_parse(text)`, and states what the parser's source shows
/// for a text without a colon: having no scheme, and no base URL to resolve
/// it against, it is refused.  It states nothing else of which texts the
/// parser accepts.
#[verifier::external_body]
pub(crate) fn parse_url(text: &str) -> (r: Option<String>)
    ensures
        url_parse(text@) == text_of(r),
        !text@.contains(':') ==> r is None,
{
    match url::Url::parse(text) {
        Ok(u) => Some(String::from(u.as_str())),
        Err(_) => None,
    }
}

} // verus!
