//! The handler pipeline: parse the input document, extract its `name`
//! member, and encode the output document `{"name_twice": "<name> <name>"}`.
//!
//! Every failure is terminal: the caller gets the first error and no
//! output. Reading standard input and writing standard output stay with
//! the caller, which hands the input in and the output line out as
//! plain strings.

use vstd::prelude::*;

use crate::json::encode_object_one;
use crate::json::json_object_one;
use crate::json::json_parses;
use crate::json::json_string_field;
use crate::json::parse_string_field;
use crate::json::plain_json;
use crate::json::plain_json_char;
use crate::json::plain_object_encoding;
use crate::transform::double_name;
use crate::transform::doubled;

verus! {

/// Why an invocation aborted. Each failure is terminal: no partial
/// output, no recovery, no retry.
#[derive(Clone, Copy, Debug, PartialEq, Eq, Structural)]
pub enum HandlerError {
    /// The input is not well-formed JSON.
    Parse,
    /// The input has no `name` member, or it is not a string.
    MissingField,
    /// The output document could not be serialized. The contract of
    /// `process` shows this never arises for its fixed output shape.
    Serialize,
}

/// What `process` returns on each input: the handler's whole pipeline
/// as one function of the input text.
pub open spec fn process_spec(input: Seq<char>) -> Result<Seq<char>, HandlerError> {
    if !json_parses(input) {
        Err(HandlerError::Parse)
    } else {
        match json_string_field(input, "name"@) {
            Option::None => Err(HandlerError::MissingField),
            Option::Some(name) => Ok(json_object_one("name_twice"@, doubled(name))),
        }
    }
}

/// The computing part of the handler: from the full text of standard
/// input to the output document, or the error that aborts the
/// invocation.
pub fn process(input: &str) -> (r: Result<String, HandlerError>)
    ensures
        (match r {
            Ok(out) => process_spec(input@) == Ok::<Seq<char>, HandlerError>(out@),
            Err(e) => process_spec(input@) == Err::<Seq<char>, HandlerError>(e),
        }),
        (match (r, json_string_field(input@, "name"@)) {
            (Ok(out), Some(name)) => plain_json(name) ==> out@ == plain_object_encoding(
                "name_twice"@,
                doubled(name),
            ),
            _ => true,
        }),
{
    let name = match parse_string_field(input, "name") {
        Err(_) => {
            return Err(HandlerError::Parse);
        },
        Ok(Option::None) => {
            return Err(HandlerError::MissingField);
        },
        Ok(Option::Some(name)) => name,
    };
    let twice = double_name(name.as_str());
    proof {
        if plain_json(name@) {
            lemma_doubled_plain(name@);
        }
        lemma_key_plain();
    }
    match encode_object_one("name_twice", twice.as_str()) {
        Err(_) => Err(HandlerError::Serialize),
        Ok(out) => Ok(out),
    }
}

/// Invoking the handler twice with the same input produces the same
/// output both times: each result is `process_spec` of the input, a
/// function of the input text alone.
pub proof fn lemma_repeatable(
    input: Seq<char>,
    r1: Result<Seq<char>, HandlerError>,
    r2: Result<Seq<char>, HandlerError>,
)
    requires
        r1 == process_spec(input),
        r2 == process_spec(input),
    ensures
        r1 == r2,
{
}

/// A name free of escapes stays free of escapes when doubled: the
/// separating space needs none.
proof fn lemma_doubled_plain(name: Seq<char>)
    requires
        plain_json(name),
    ensures
        plain_json(doubled(name)),
{
    reveal_strlit(" ");
    assert forall|i: int| 0 <= i < doubled(name).len() implies plain_json_char(
        doubled(name)[i],
    ) by {
        if i < name.len() {
            assert(doubled(name)[i] == name[i]);
        } else if i == name.len() {
            assert(doubled(name)[i] == ' ');
        } else {
            assert(doubled(name)[i] == name[i - name.len() - 1]);
        }
    }
}

/// No character of the output key needs an escape.
proof fn lemma_key_plain()
    ensures
        plain_json("name_twice"@),
{
    reveal_strlit("name_twice");
}

} // verus!
