//! A whole run: the lines to print, the text for the clipboard, and the exit
//! status.

use vstd::prelude::*;
use vstd::string::StringExecFns;
use crate::format::{hyphenated, is_hex_digit, lemma_hyphenated_shape, to_hyphenated};
use crate::generate::{
    fulfils, generate_uuid, has_invalid_namespace, lemma_name_based_is_deterministic,
};
use crate::request::{validate, GenerationRequest, ValidationError};

verus! {

/// Whether `line` is the text, in the case asked for, of an identifier that
/// fulfils the request.
pub open spec fn is_line_of(request: &GenerationRequest, line: Seq<char>) -> bool {
    exists|bytes: Seq<u8>|
        fulfils(request, bytes) && line == #[trigger] hyphenated(bytes, request.uppercase)
}

/// Any two lines of one name-based request are the same text.
pub proof fn lemma_name_based_lines_agree(
    request: &GenerationRequest,
    first: Seq<char>,
    second: Seq<char>,
)
    requires
        request.version.is_name_based(),
        is_line_of(request, first),
        is_line_of(request, second),
    ensures
        first == second,
{
    let a = choose|bytes: Seq<u8>|
        fulfils(request, bytes) && first == #[trigger] hyphenated(bytes, request.uppercase);
    let b = choose|bytes: Seq<u8>|
        fulfils(request, bytes) && second == #[trigger] hyphenated(bytes, request.uppercase);
    lemma_name_based_is_deterministic(request, a, b);
}

/// Every line of a request has the canonical shape: thirty-six characters,
/// hyphens at the positions 8, 13, 18 and 23, and elsewhere hexadecimal digits
/// in the case that the request asks for.
pub proof fn lemma_line_shape(request: &GenerationRequest, line: Seq<char>)
    requires
        is_line_of(request, line),
    ensures
        line.len() == 36,
        forall|i: int|
            0 <= i < 36 ==> if i == 8 || i == 13 || i == 18 || i == 23 {
                (#[trigger] line[i]) == '-'
            } else {
                is_hex_digit(line[i], request.uppercase)
            },
{
    let bytes = choose|bytes: Seq<u8>|
        fulfils(request, bytes) && line == #[trigger] hyphenated(bytes, request.uppercase);
    lemma_hyphenated_shape(bytes, request.uppercase);
}

/// The characters of each line.
pub open spec fn texts(lines: Seq<String>) -> Seq<Seq<char>> {
    lines.map_values(|line: String| line@)
}

/// The lines with one line feed between each two of them.
pub open spec fn newline_joined(lines: Seq<Seq<char>>) -> Seq<char>
    decreases lines.len(),
{
    if lines.len() == 0 {
        Seq::empty()
    } else if lines.len() == 1 {
        lines[0]
    } else {
        newline_joined(lines.drop_last()) + seq!['\n'] + lines.last()
    }
}

/// Generates as many identifiers as the request counts and writes each as one
/// line.
///
/// The request is validated before anything is generated, so that a refused run
/// yields no line at all. A count of zero is no error: it yields no line, and
/// the namespace's text is then never read.
pub fn generate_lines(request: &GenerationRequest) -> (r: Result<Vec<String>, ValidationError>)
    ensures
        !request.is_complete() ==> r == Err::<Vec<String>, ValidationError>(
            request.missing_argument(),
        ),
        request.is_complete() && request.count > 0 && has_invalid_namespace(request) ==> r
            == Err::<Vec<String>, ValidationError>(ValidationError::InvalidNamespace),
        request.is_complete() && (request.count == 0 || !has_invalid_namespace(request)) ==> {
            &&& r matches Ok(lines)
            &&& lines.len() == request.count
            &&& forall|i: int| 0 <= i < lines.len() ==> is_line_of(request, #[trigger] lines[i]@)
        },
{
    match validate(request) {
        Err(e) => {
            return Err(e);
        },
        Ok(_) => {},
    }
    let mut lines: Vec<String> = Vec::new();
    let mut done: u32 = 0;
    while done < request.count
        invariant
            done <= request.count,
            lines.len() == done,
            request.is_complete(),
            done > 0 ==> !has_invalid_namespace(request),
            forall|i: int| 0 <= i < lines.len() ==> is_line_of(request, #[trigger] lines[i]@),
        decreases request.count - done,
    {
        match generate_uuid(request) {
            Err(e) => {
                return Err(e);
            },
            Ok(id) => {
                let line = to_hyphenated(&id, request.uppercase);
                assert(is_line_of(request, line@));
                lines.push(line);
            },
        }
        done += 1;
    }
    Ok(lines)
}

/// What goes to the clipboard when the caller asks for a copy.
#[derive(Debug)]
pub struct CopyPlan {
    /// The text to copy: the lines, joined by line feeds.
    pub text: String,
    /// Whether more than one identifier is copied, of which the user is
    /// warned.
    pub several: bool,
}

/// Joins the lines by line feeds: no line gives the empty text, one line gives
/// that line.
pub fn clipboard_text(lines: &Vec<String>) -> (text: String)
    ensures
        text@ == newline_joined(texts(lines@)),
{
    let mut text = String::new();
    let mut i: usize = 0;
    proof {
        reveal_strlit("\n");
        assert(texts(lines@).subrange(0, 0) =~= Seq::<Seq<char>>::empty());
    }
    while i < lines.len()
        invariant
            i <= lines.len(),
            text@ == newline_joined(texts(lines@).subrange(0, i as int)),
            "\n"@ == seq!['\n'],
        decreases lines.len() - i,
    {
        if i > 0 {
            text.append("\n");
        }
        text.append(lines[i].as_str());
        proof {
            let next = texts(lines@).subrange(0, i + 1);
            assert(next.drop_last() =~= texts(lines@).subrange(0, i as int));
            assert(next.last() == lines[i as int]@);
            assert(text@ =~= newline_joined(next));
        }
        i += 1;
    }
    proof {
        assert(texts(lines@).subrange(0, lines.len() as int) =~= texts(lines@));
    }
    text
}

/// Decides what is copied: nothing unless `copy` is set, else all the lines
/// together, with a note where they are more than one.
pub fn plan_copy(copy: bool, lines: &Vec<String>) -> (plan: Option<CopyPlan>)
    ensures
        !copy ==> plan is None,
        copy ==> {
            &&& plan matches Some(p)
            &&& p.text@ == newline_joined(texts(lines@))
            &&& p.several == (lines.len() > 1)
        },
{
    if copy {
        Some(CopyPlan { text: clipboard_text(lines), several: lines.len() > 1 })
    } else {
        None
    }
}

/// The status that the process ends with: zero after a run that generated its
/// lines, one after a refused request.
pub fn exit_code(outcome: &Result<Vec<String>, ValidationError>) -> (code: i32)
    ensures
        outcome is Ok ==> code == 0,
        outcome is Err ==> code == 1,
{
    match outcome {
        Ok(_) => 0,
        Err(_) => 1,
    }
}

} // verus!
