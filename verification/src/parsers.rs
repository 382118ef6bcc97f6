//! Parsers that turn a line of a task's output into a short status.
//!
//! Which parser reads a task's output is decided by the first word of its
//! command.  The set of parsers is closed.

use vstd::prelude::*;
use vstd::string::*;
use crate::text::chars_of;
use crate::text::string_of_range;

verus! {

/// The error of `regex::Regex::new`; nothing is read from it.
#[verifier::external_type_specification]
#[verifier::external_body]
pub struct ExRegexError(regex::Error);

/// The outcome of a search with a regular expression: an error when the
/// pattern is not accepted, nothing when it does not match, or the text of
/// each capture group of the leftmost match, the whole match first and
/// nothing for a group that took no part.
pub uninterp spec fn regex_captures(pattern: Seq<char>, haystack: Seq<char>) -> Result<
    Option<Seq<Option<Seq<char>>>>,
    (),
>;

/// The outcome of a search without what an error holds.
pub open spec fn captures_model(found: Result<Option<Vec<Option<String>>>, regex::Error>) -> Result<
    Option<Seq<Option<Seq<char>>>>,
    (),
> {
    match found {
        Ok(groups) => Ok(groups.deep_view()),
        Err(_) => Err(()),
    }
}

/// Compiles `pattern` with `regex::Regex::new` and searches `haystack` with
/// `Regex::captures`.  The outcome depends on the two texts alone.
#[verifier::external_body]
pub(crate) fn captures(pattern: &str, haystack: &str) -> (found: Result<
    Option<Vec<Option<String>>>,
    regex::Error,
>)
    ensures
        captures_model(found) == regex_captures(pattern@, haystack@),
{
    match regex::Regex::new(pattern) {
        Ok(re) => Ok(
            re.captures(haystack).map(
                |caps| caps.iter().map(|group| group.map(|m| m.as_str().to_string())).collect(),
            ),
        ),
        Err(e) => Err(e),
    }
}

/// The first word of a command: what stands before its first space.
pub open spec fn first_word(command: Seq<char>) -> Seq<char>
    decreases command.len(),
{
    if command.len() == 0 || command[0] == ' ' {
        Seq::empty()
    } else {
        seq![command[0]] + first_word(command.skip(1))
    }
}

/// The first word of `command`.
pub fn first_word_of(command: &str) -> (word: String)
    ensures
        word@ == first_word(command@),
{
    let chars = chars_of(command);
    let mut end: usize = 0;
    proof {
        assert(chars@.skip(0) =~= chars@);
    }
    while end < chars.len() && chars[end] != ' '
        invariant
            end <= chars.len(),
            chars@ == command@,
            first_word(chars@) =~= chars@.take(end as int) + first_word(chars@.skip(end as int)),
        decreases chars.len() - end,
    {
        proof {
            let rest = chars@.skip(end as int);
            assert(rest.skip(1) =~= chars@.skip(end + 1));
            assert(chars@.take(end + 1) =~= chars@.take(end as int) + seq![rest[0]]);
        }
        end += 1;
    }
    proof {
        assert(first_word(chars@.skip(end as int)) =~= Seq::<char>::empty());
        assert(chars@.take(end as int) =~= chars@.subrange(0, end as int));
    }
    string_of_range(&chars, 0, end)
}

/// The pattern that reads a line of curl's progress meter: the first number
/// of the line is the percentage, the last word the transfer rate.
pub const CURL_PATTERN: &'static str = "(\\d+).*?(\\w+)$";

/// The status that a line of curl's output gives, from what the pattern
/// found in it: the rate, `/s`, the percentage and a percent sign.
pub open spec fn curl_status(found: Result<Option<Seq<Option<Seq<char>>>>, ()>) -> Option<
    Seq<char>,
> {
    match found {
        Ok(Some(groups)) => if groups.len() > 2 && groups[1] is Some && groups[2] is Some {
            Some(groups[2]->0 + "/s "@ + groups[1]->0 + "%"@)
        } else {
            None
        },
        _ => None,
    }
}

/// The parsers.
#[derive(Clone, Copy, Debug, PartialEq, Eq, Structural)]
pub enum Parser {
    /// Reads the progress meter of curl.
    Curl,
}

/// The parser for the output of the command called `name`.
pub open spec fn parser_for(name: Seq<char>) -> Option<Parser> {
    if name == "curl"@ {
        Some(Parser::Curl)
    } else {
        None
    }
}

/// The status that a line of output gives to a task started by `command`,
/// if the command has a parser and the parser recognises the line.
pub open spec fn parsed_status(command: Seq<char>, line: Seq<char>) -> Option<Seq<char>> {
    match parser_for(first_word(command)) {
        Some(Parser::Curl) => curl_status(regex_captures(CURL_PATTERN@, line)),
        None => None,
    }
}

/// The parser of curl's output.
#[derive(Clone, Copy, Debug)]
pub struct Curl {}

impl Curl {
    /// The parser.
    pub fn new() -> (r: Curl)
        ensures
            r == (Curl {  }),
    {
        Curl {  }
    }

    /// The status that the capture groups of a line give.
    pub fn status(found: &Result<Option<Vec<Option<String>>>, regex::Error>) -> (status: Option<
        String,
    >)
        ensures
            status.deep_view() == curl_status(captures_model(*found)),
    {
        match found {
            Ok(Some(groups)) => {
                if groups.len() > 2 {
                    match (&groups[1], &groups[2]) {
                        (Some(percent), Some(rate)) => {
                            let mut text = rate.clone();
                            text.append("/s ");
                            text.append(percent.as_str());
                            text.append("%");
                            Some(text)
                        },
                        _ => None,
                    }
                } else {
                    None
                }
            },
            _ => None,
        }
    }

    /// The status that a line of curl's output gives.
    pub fn parse(&self, line: &str) -> (status: Option<String>)
        ensures
            status.deep_view() == curl_status(regex_captures(CURL_PATTERN@, line@)),
    {
        let found = captures(CURL_PATTERN, line);
        Self::status(&found)
    }
}

impl Parser {
    /// The parser for the output of the command called `name`.
    pub fn lookup(name: &str) -> (r: Option<Parser>)
        ensures
            r == parser_for(name@),
    {
        if name.to_string() == "curl".to_string() {
            Some(Parser::Curl)
        } else {
            None
        }
    }

    /// The status that a line gives, if the parser recognises it.
    pub fn parse(&self, line: &str) -> (status: Option<String>)
        ensures
            status.deep_view() == match self {
                Parser::Curl => curl_status(regex_captures(CURL_PATTERN@, line@)),
            },
    {
        match self {
            Parser::Curl => Curl::new().parse(line),
        }
    }
}

/// The status that a line of output gives to a task started by `command`.
pub fn parse_status(command: &str, line: &str) -> (status: Option<String>)
    ensures
        status.deep_view() == parsed_status(command@, line@),
{
    let name = first_word_of(command);
    match Parser::lookup(name.as_str()) {
        Some(parser) => parser.parse(line),
        None => None,
    }
}

} // verus!
