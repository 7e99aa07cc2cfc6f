//! Reading a tool's arguments: a field may come under its own name or under
//! an alias, an optional field may be absent or null, and a free-form field
//! given as a string that looks like JSON is read as JSON.
use vstd::prelude::*;
use crate::json::{
    document_or_empty,
    items_view,
    json_parse,
    lemma_items_view,
    number_view,
    option_view,
    outcome_view,
    parse_json,
    JsonNumber,
    JsonObject,
    JsonValue,
    JsonView,
};
use crate::outcome::{RequestError, RequestErrorView};
use crate::text::{chars_of, join, strings_view, text_view, trim, trim_spec};

verus! {

/// What is wrong with an argument.
#[derive(Debug, PartialEq, Eq)]
pub enum Problem {
    /// A required field is not there.
    Missing,
    /// The field holds a value of another type than the one expected.
    WrongType { expected: &'static str },
    /// The field holds a string that looks like JSON and is none.
    InvalidJson { cause: String },
}

/// What a `Problem` holds.
pub enum ProblemView {
    Missing,
    WrongType { expected: Seq<char> },
    InvalidJson { cause: Seq<char> },
}

impl View for Problem {
    type V = ProblemView;

    open spec fn view(&self) -> ProblemView {
        match self {
            Problem::Missing => ProblemView::Missing,
            Problem::WrongType { expected } => ProblemView::WrongType { expected: expected@ },
            Problem::InvalidJson { cause } => ProblemView::InvalidJson { cause: cause@ },
        }
    }
}

/// An argument that cannot be used: the field, by its own name, and what is
/// wrong with it.
#[derive(Debug, PartialEq, Eq)]
pub struct ArgumentError {
    pub field: String,
    pub problem: Problem,
}

/// What an `ArgumentError` holds.
pub struct ArgumentErrorView {
    pub field: Seq<char>,
    pub problem: ProblemView,
}

impl View for ArgumentError {
    type V = ArgumentErrorView;

    open spec fn view(&self) -> ArgumentErrorView {
        ArgumentErrorView { field: self.field@, problem: self.problem@ }
    }
}

/// The message for an argument that cannot be used. It names the field.
pub open spec fn argument_message(error: ArgumentErrorView) -> Seq<char> {
    match error.problem {
        ProblemView::Missing => "missing field `"@ + error.field + "`"@,
        ProblemView::WrongType { expected } => "invalid type for field `"@ + error.field
            + "`: expected "@ + expected,
        ProblemView::InvalidJson { cause } => "invalid JSON in field `"@ + error.field + "`: "@
            + cause,
    }
}

impl ArgumentError {
    /// The message that names the field and says what is wrong with it.
    pub fn message(&self) -> (message: String)
        ensures
            message@ == argument_message(self@),
    {
        match &self.problem {
            Problem::Missing => {
                let mut message = join("missing field `", self.field.as_str());
                message.append("`");
                message
            },
            Problem::WrongType { expected } => {
                let mut message = join("invalid type for field `", self.field.as_str());
                message.append("`: expected ");
                message.append(expected);
                message
            },
            Problem::InvalidJson { cause } => {
                let mut message = join("invalid JSON in field `", self.field.as_str());
                message.append("`: ");
                message.append(cause.as_str());
                message
            },
        }
    }

    /// The failure of the call of `method` that this argument causes.
    pub fn into_request_error(self, method: &str) -> (error: RequestError)
        ensures
            error@ == (RequestErrorView::InvalidArguments {
                method: method@,
                message: argument_message(self@),
            }),
    {
        let message = self.message();
        RequestError::InvalidArguments { method: method.to_owned(), message }
    }
}

/// The value of the field `name`, if the arguments hold it.
pub open spec fn named(arguments: Map<Seq<char>, JsonView>, name: Seq<char>) -> Option<JsonView> {
    if arguments.contains_key(name) {
        Some(arguments[name])
    } else {
        None
    }
}

/// The value of a field that has an alias: what stands under the field's own
/// name, else what stands under the alias.
pub open spec fn aliased(
    arguments: Map<Seq<char>, JsonView>,
    name: Seq<char>,
    alias: Seq<char>,
) -> Option<JsonView> {
    if arguments.contains_key(name) {
        Some(arguments[name])
    } else {
        named(arguments, alias)
    }
}

/// The value of a field that has two aliases: the names are tried in the
/// order in which they are given.
pub open spec fn aliased_twice(
    arguments: Map<Seq<char>, JsonView>,
    name: Seq<char>,
    alias: Seq<char>,
    second_alias: Seq<char>,
) -> Option<JsonView> {
    if arguments.contains_key(name) {
        Some(arguments[name])
    } else {
        aliased(arguments, alias, second_alias)
    }
}

/// The meaning of a value that was found, or of none.
pub open spec fn found_view(found: Option<&JsonValue>) -> Option<JsonView> {
    match found {
        Some(value) => Some(value@),
        None => None,
    }
}

/// Looks a field up under its name.
pub fn find<'a>(arguments: &'a JsonObject, name: &str) -> (found: Option<&'a JsonValue>)
    ensures
        found_view(found) == named(arguments@, name@),
{
    arguments.get(name)
}

/// Looks a field up under its name, then under its alias.
pub fn find_aliased<'a>(arguments: &'a JsonObject, name: &str, alias: &str) -> (found: Option<
    &'a JsonValue,
>)
    ensures
        found_view(found) == aliased(arguments@, name@, alias@),
{
    match arguments.get(name) {
        Some(value) => Some(value),
        None => arguments.get(alias),
    }
}

/// Looks a field up under its name, then under its aliases in their order.
pub fn find_aliased_twice<'a>(
    arguments: &'a JsonObject,
    name: &str,
    alias: &str,
    second_alias: &str,
) -> (found: Option<&'a JsonValue>)
    ensures
        found_view(found) == aliased_twice(arguments@, name@, alias@, second_alias@),
{
    match arguments.get(name) {
        Some(value) => Some(value),
        None => find_aliased(arguments, alias, second_alias),
    }
}

/// A required string: it must be there and be a string.
pub open spec fn required_text_spec(found: Option<JsonView>) -> Result<Seq<char>, ProblemView> {
    match found {
        None => Err(ProblemView::Missing),
        Some(JsonView::String(text)) => Ok(text),
        Some(_) => Err(ProblemView::WrongType { expected: "a string"@ }),
    }
}

/// An optional string: absent or null, or a string.
pub open spec fn optional_text_spec(found: Option<JsonView>) -> Result<
    Option<Seq<char>>,
    ProblemView,
> {
    match found {
        None => Ok(None),
        Some(JsonView::Null) => Ok(None),
        Some(JsonView::String(text)) => Ok(Some(text)),
        Some(_) => Err(ProblemView::WrongType { expected: "a string"@ }),
    }
}

/// An optional flag: absent or null, or a boolean.
pub open spec fn optional_flag_spec(found: Option<JsonView>) -> Result<Option<bool>, ProblemView> {
    match found {
        None => Ok(None),
        Some(JsonView::Null) => Ok(None),
        Some(JsonView::Bool(flag)) => Ok(Some(flag)),
        Some(_) => Err(ProblemView::WrongType { expected: "a boolean"@ }),
    }
}

/// An optional number: absent or null, or a number.
pub open spec fn optional_number_spec(found: Option<JsonView>) -> Result<
    Option<Seq<char>>,
    ProblemView,
> {
    match found {
        None => Ok(None),
        Some(JsonView::Null) => Ok(None),
        Some(JsonView::Number(literal)) => Ok(Some(literal)),
        Some(_) => Err(ProblemView::WrongType { expected: "a number"@ }),
    }
}

/// Whether every item is a string.
pub open spec fn all_text(items: Seq<JsonView>) -> bool {
    forall|i: int| 0 <= i < items.len() ==> (#[trigger] items[i]) is String
}

/// The characters of each item of a list of strings.
pub open spec fn texts_of(items: Seq<JsonView>) -> Seq<Seq<char>> {
    Seq::new(items.len(), |i: int| items[i]->String_0)
}

/// A required list of strings: it must be there and be an array of which
/// every item is a string.
pub open spec fn required_text_list_spec(found: Option<JsonView>) -> Result<
    Seq<Seq<char>>,
    ProblemView,
> {
    match found {
        None => Err(ProblemView::Missing),
        Some(JsonView::Array(items)) => if all_text(items) {
            Ok(texts_of(items))
        } else {
            Err(ProblemView::WrongType { expected: "an array of strings"@ })
        },
        Some(_) => Err(ProblemView::WrongType { expected: "an array of strings"@ }),
    }
}

/// An optional value of any type: absent or null, or the value.
pub open spec fn optional_value_spec(found: Option<JsonView>) -> Option<JsonView> {
    match found {
        None => None,
        Some(JsonView::Null) => None,
        Some(value) => Some(value),
    }
}

/// Whether a string is meant as JSON: trimmed, it begins with `{` or `[`.
pub open spec fn looks_like_json(raw: Seq<char>) -> bool {
    let trimmed = trim_spec(raw);
    trimmed.len() > 0 && (trimmed[0] == '{' || trimmed[0] == '[')
}

/// What a free-form value stands for, where `parsed` is what reading its
/// trimmed text as JSON gives: a string that looks like JSON stands for the
/// JSON it writes, and is refused where it writes none; every other value
/// stands for itself.
pub open spec fn embedded_spec(value: JsonView, parsed: Result<JsonView, Seq<char>>) -> Result<
    JsonView,
    ProblemView,
> {
    match value {
        JsonView::String(raw) => if looks_like_json(raw) {
            match parsed {
                Ok(document) => Ok(document),
                Err(cause) => Err(ProblemView::InvalidJson { cause: cause }),
            }
        } else {
            Ok(value)
        },
        _ => Ok(value),
    }
}

/// What reading the trimmed text of a string value as JSON gives. For a
/// value that is no string nothing is read.
pub open spec fn embedded_text_parse(value: JsonView) -> Result<JsonView, Seq<char>> {
    match value {
        JsonView::String(raw) => json_parse(trim_spec(raw)),
        _ => Err(Seq::<char>::empty()),
    }
}

/// What a free-form value stands for.
pub open spec fn resolve_spec(value: JsonView) -> Result<JsonView, ProblemView> {
    embedded_spec(value, embedded_text_parse(value))
}

/// A string that looks like JSON stands for the JSON that its trimmed text
/// writes, and is refused where that text writes none; every other string
/// stands for itself, unchanged.
pub proof fn lemma_string_or_json(raw: Seq<char>)
    ensures
        looks_like_json(raw) ==> resolve_spec(JsonView::String(raw)) == (match json_parse(
            trim_spec(raw),
        ) {
            Ok(document) => Ok::<JsonView, ProblemView>(document),
            Err(cause) => Err::<JsonView, ProblemView>(ProblemView::InvalidJson { cause: cause }),
        }),
        !looks_like_json(raw) ==> resolve_spec(JsonView::String(raw)) == Ok::<
            JsonView,
            ProblemView,
        >(JsonView::String(raw)),
{
}

/// A required field that is absent is refused as missing, whatever its
/// type.
pub proof fn lemma_absent_required_is_missing()
    ensures
        required_text_spec(None) == Err::<Seq<char>, ProblemView>(ProblemView::Missing),
        required_text_list_spec(None) == Err::<Seq<Seq<char>>, ProblemView>(ProblemView::Missing),
        required_document_spec(None) == Err::<JsonView, ProblemView>(ProblemView::Missing),
{
}

/// A required free-form value: it must be there, and stands for what
/// `resolve_spec` says.
pub open spec fn required_document_spec(found: Option<JsonView>) -> Result<JsonView, ProblemView> {
    match found {
        None => Err(ProblemView::Missing),
        Some(value) => resolve_spec(value),
    }
}

/// An optional free-form value: absent or null, or what `resolve_spec` says.
pub open spec fn optional_document_spec(found: Option<JsonView>) -> Result<
    Option<JsonView>,
    ProblemView,
> {
    match found {
        None => Ok(None),
        Some(JsonView::Null) => Ok(None),
        Some(value) => match resolve_spec(value) {
            Ok(document) => Ok(Some(document)),
            Err(problem) => Err(problem),
        },
    }
}

/// Whether reading went well and gave `value`.
pub open spec fn gives<T>(read: Result<T, ProblemView>, value: T) -> bool {
    read == Ok::<T, ProblemView>(value)
}

/// The refusal of the field `field`, if reading it gave a problem.
pub open spec fn refusal<T>(field: Seq<char>, read: Result<T, ProblemView>) -> Option<
    ArgumentErrorView,
> {
    match read {
        Ok(_) => None,
        Err(problem) => Some(ArgumentErrorView { field: field, problem: problem }),
    }
}

/// Telling which argument is refused: that of the first field, in the order
/// of the fields, that has a problem.
pub trait FirstProblem: Sized {
    /// `self` where it holds a problem, else `next`.
    spec fn otherwise(self, next: Self) -> Self;
}

impl FirstProblem for Option<ArgumentErrorView> {
    open spec fn otherwise(self, next: Self) -> Self {
        if self is Some {
            self
        } else {
            next
        }
    }
}

/// An optional string that falls back on `default`.
pub open spec fn text_or(
    read: Result<Option<Seq<char>>, ProblemView>,
    default: Seq<char>,
) -> Result<Seq<char>, ProblemView> {
    match read {
        Ok(Some(text)) => Ok(text),
        Ok(None) => Ok(default),
        Err(problem) => Err(problem),
    }
}

/// An optional free-form value that falls back on the empty object.
pub open spec fn value_or_empty(read: Result<Option<JsonView>, ProblemView>) -> Result<
    JsonView,
    ProblemView,
> {
    match read {
        Ok(value) => Ok(document_or_empty(value)),
        Err(problem) => Err(problem),
    }
}

fn wrong_type(field: &str, expected: &'static str) -> (error: ArgumentError)
    ensures
        error@ == (ArgumentErrorView {
            field: field@,
            problem: ProblemView::WrongType { expected: expected@ },
        }),
{
    ArgumentError { field: field.to_owned(), problem: Problem::WrongType { expected } }
}

fn missing(field: &str) -> (error: ArgumentError)
    ensures
        error@ == (ArgumentErrorView { field: field@, problem: ProblemView::Missing }),
{
    ArgumentError { field: field.to_owned(), problem: Problem::Missing }
}

/// Reads a required string.
pub fn required_text(found: Option<&JsonValue>, field: &str) -> (read: Result<
    String,
    ArgumentError,
>)
    ensures
        match read {
            Ok(text) => required_text_spec(found_view(found)) == Ok::<Seq<char>, ProblemView>(
                text@,
            ),
            Err(error) => error.field@ == field@ && required_text_spec(found_view(found)) == Err::<
                Seq<char>,
                ProblemView,
            >(error.problem@),
        },
{
    match found {
        None => Err(missing(field)),
        Some(JsonValue::String(text)) => Ok(text.clone()),
        Some(_) => Err(wrong_type(field, "a string")),
    }
}

/// Reads an optional string.
pub fn optional_text(found: Option<&JsonValue>, field: &str) -> (read: Result<
    Option<String>,
    ArgumentError,
>)
    ensures
        match read {
            Ok(text) => optional_text_spec(found_view(found)) == Ok::<
                Option<Seq<char>>,
                ProblemView,
            >(text_view(text)),
            Err(error) => error.field@ == field@ && optional_text_spec(found_view(found)) == Err::<
                Option<Seq<char>>,
                ProblemView,
            >(error.problem@),
        },
{
    match found {
        None => Ok(None),
        Some(JsonValue::Null) => Ok(None),
        Some(JsonValue::String(text)) => Ok(Some(text.clone())),
        Some(_) => Err(wrong_type(field, "a string")),
    }
}

/// Reads an optional flag.
pub fn optional_flag(found: Option<&JsonValue>, field: &str) -> (read: Result<
    Option<bool>,
    ArgumentError,
>)
    ensures
        match read {
            Ok(flag) => optional_flag_spec(found_view(found)) == Ok::<Option<bool>, ProblemView>(
                flag,
            ),
            Err(error) => error.field@ == field@ && optional_flag_spec(found_view(found)) == Err::<
                Option<bool>,
                ProblemView,
            >(error.problem@),
        },
{
    match found {
        None => Ok(None),
        Some(JsonValue::Null) => Ok(None),
        Some(JsonValue::Bool(flag)) => Ok(Some(*flag)),
        Some(_) => Err(wrong_type(field, "a boolean")),
    }
}

/// Reads an optional number.
pub fn optional_number(found: Option<&JsonValue>, field: &str) -> (read: Result<
    Option<JsonNumber>,
    ArgumentError,
>)
    ensures
        match read {
            Ok(number) => optional_number_spec(found_view(found)) == Ok::<
                Option<Seq<char>>,
                ProblemView,
            >(number_view(number)),
            Err(error) => error.field@ == field@ && optional_number_spec(found_view(found))
                == Err::<Option<Seq<char>>, ProblemView>(error.problem@),
        },
{
    match found {
        None => Ok(None),
        Some(JsonValue::Null) => Ok(None),
        Some(JsonValue::Number(number)) => Ok(Some(number.clone())),
        Some(_) => Err(wrong_type(field, "a number")),
    }
}

/// Reads a required list of strings.
pub fn required_text_list(found: Option<&JsonValue>, field: &str) -> (read: Result<
    Vec<String>,
    ArgumentError,
>)
    ensures
        match read {
            Ok(texts) => required_text_list_spec(found_view(found)) == Ok::<
                Seq<Seq<char>>,
                ProblemView,
            >(strings_view(texts@)),
            Err(error) => error.field@ == field@ && required_text_list_spec(found_view(found))
                == Err::<Seq<Seq<char>>, ProblemView>(error.problem@),
        },
{
    match found {
        None => Err(missing(field)),
        Some(JsonValue::Array(items)) => {
            let mut texts: Vec<String> = Vec::new();
            let mut i: usize = 0;
            proof {
                lemma_items_view(items@);
            }
            let ghost views = items_view(items@);
            while i < items.len()
                invariant
                    i <= items.len(),
                    views.len() == items.len(),
                    found_view(found) == Some(JsonView::Array(views)),
                    forall|k: int| 0 <= k < items.len() ==> (#[trigger] views[k]) == items[k]@,
                    texts@.len() == i,
                    forall|k: int| 0 <= k < i ==> (#[trigger] views[k]) is String,
                    forall|k: int| 0 <= k < i ==> (#[trigger] texts@[k])@ == views[k]->String_0,
                decreases items.len() - i,
            {
                match &items[i] {
                    JsonValue::String(text) => {
                        texts.push(text.clone());
                    },
                    _ => {
                        assert(!(views[i as int] is String));
                        return Err(wrong_type(field, "an array of strings"));
                    },
                }
                i += 1;
            }
            assert(strings_view(texts@) =~= texts_of(views));
            Ok(texts)
        },
        Some(_) => Err(wrong_type(field, "an array of strings")),
    }
}

/// Reads an optional value of any type.
pub fn optional_value(found: Option<&JsonValue>) -> (read: Option<JsonValue>)
    ensures
        option_view(read) == optional_value_spec(found_view(found)),
{
    match found {
        None => None,
        Some(JsonValue::Null) => None,
        Some(value) => Some(value.clone()),
    }
}

/// Whether `raw`, trimmed, begins with `{` or `[`.
pub fn is_json_like(raw: &str) -> (yes: bool)
    ensures
        yes == looks_like_json(raw@),
{
    let trimmed = chars_of(trim(raw));
    trimmed.len() > 0 && (trimmed[0] == '{' || trimmed[0] == '[')
}

/// Says what a free-form value stands for, given what reading its trimmed
/// text as JSON gave.
pub fn resolve_parsed(value: &JsonValue, parsed: Result<JsonValue, String>, field: &str) -> (read:
    Result<JsonValue, ArgumentError>)
    ensures
        match read {
            Ok(document) => embedded_spec(value@, outcome_view(parsed)) == Ok::<
                JsonView,
                ProblemView,
            >(document@),
            Err(error) => error.field@ == field@ && embedded_spec(value@, outcome_view(parsed))
                == Err::<JsonView, ProblemView>(error.problem@),
        },
{
    match value {
        JsonValue::String(raw) => {
            if is_json_like(raw.as_str()) {
                match parsed {
                    Ok(document) => Ok(document),
                    Err(cause) => Err(
                        ArgumentError {
                            field: field.to_owned(),
                            problem: Problem::InvalidJson { cause },
                        },
                    ),
                }
            } else {
                Ok(value.clone())
            }
        },
        _ => Ok(value.clone()),
    }
}

/// Says what a free-form value stands for: a string that, trimmed, begins
/// with `{` or `[` is read as JSON, and refused where it is none; any other
/// value is handed on unchanged.
pub fn resolve_embedded(value: &JsonValue, field: &str) -> (read: Result<JsonValue, ArgumentError>)
    ensures
        match read {
            Ok(document) => resolve_spec(value@) == Ok::<JsonView, ProblemView>(document@),
            Err(error) => error.field@ == field@ && resolve_spec(value@) == Err::<
                JsonView,
                ProblemView,
            >(error.problem@),
        },
{
    let parsed = match value {
        JsonValue::String(raw) => parse_json(trim(raw.as_str())),
        _ => Err(String::new()),
    };
    resolve_parsed(value, parsed, field)
}

/// Reads a required free-form value.
pub fn required_document(found: Option<&JsonValue>, field: &str) -> (read: Result<
    JsonValue,
    ArgumentError,
>)
    ensures
        match read {
            Ok(document) => required_document_spec(found_view(found)) == Ok::<
                JsonView,
                ProblemView,
            >(document@),
            Err(error) => error.field@ == field@ && required_document_spec(found_view(found))
                == Err::<JsonView, ProblemView>(error.problem@),
        },
{
    match found {
        None => Err(missing(field)),
        Some(value) => resolve_embedded(value, field),
    }
}

/// Reads an optional free-form value.
pub fn optional_document(found: Option<&JsonValue>, field: &str) -> (read: Result<
    Option<JsonValue>,
    ArgumentError,
>)
    ensures
        match read {
            Ok(document) => optional_document_spec(found_view(found)) == Ok::<
                Option<JsonView>,
                ProblemView,
            >(option_view(document)),
            Err(error) => error.field@ == field@ && optional_document_spec(found_view(found))
                == Err::<Option<JsonView>, ProblemView>(error.problem@),
        },
{
    match found {
        None => Ok(None),
        Some(JsonValue::Null) => Ok(None),
        Some(value) => match resolve_embedded(value, field) {
            Ok(document) => Ok(Some(document)),
            Err(error) => Err(error),
        },
    }
}

} // verus!
