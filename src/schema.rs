use vstd::prelude::*;

use crate::text::{isize_decimal, signed_decimal_text};

verus! {

/// An error of schema validation: a list of messages, or one message.
pub enum SchemaError {
    /// Errors of several parameters.
    Parameter(ParameterError),
    /// One error message.
    Message(String),
}

/// Errors of parameter verification, one `(parameter, message)` pair each.
pub struct ParameterError {
    error_list: Vec<(String, String)>,
}

impl View for ParameterError {
    type V = Seq<(Seq<char>, Seq<char>)>;

    closed spec fn view(&self) -> Seq<(Seq<char>, Seq<char>)> {
        self.error_list@.map_values(|e: (String, String)| (e.0@, e.1@))
    }
}

/// The errors `sub` contributes when added under `prefix`: each name is
/// prefixed with `prefix/`.
pub open spec fn prefixed_errors(prefix: Seq<char>, sub: Seq<(Seq<char>, Seq<char>)>) -> Seq<(Seq<char>, Seq<char>)> {
    sub.map_values(|e: (Seq<char>, Seq<char>)| (prefix + "/"@ + e.0, e.1))
}

impl ParameterError {
    /// No errors.
    pub fn new() -> (r: ParameterError)
        ensures
            r@ == Seq::<(Seq<char>, Seq<char>)>::empty(),
    {
        ParameterError { error_list: Vec::new() }
    }

    /// Adds the error `value` of parameter `name`.
    pub fn push(&mut self, name: String, value: String)
        ensures
            final(self)@ == old(self)@.push((name@, value@)),
    {
        self.error_list.push((name, value));
        assert(self@ =~= old(self)@.push((name@, value@)));
    }

    /// The number of errors.
    pub fn len(&self) -> (r: usize)
        ensures
            r == self@.len(),
    {
        self.error_list.len()
    }

    /// The errors, in the order they were added.
    pub fn errors(&self) -> (r: &[(String, String)])
        ensures
            r@.map_values(|e: (String, String)| (e.0@, e.1@)) == self@,
    {
        self.error_list.as_slice()
    }

    /// Whether there are no errors.
    pub fn is_empty(&self) -> (r: bool)
        ensures
            r == (self@.len() == 0),
    {
        self.len() == 0
    }

    /// Adds the errors of `err` under `prefix`: a parameter error's entries
    /// each with their name prefixed by `prefix/`, another error as the
    /// error of `prefix` itself.
    pub fn add_errors(&mut self, prefix: &str, err: SchemaError)
        ensures
            match err {
                SchemaError::Parameter(p) => final(self)@ == old(self)@ + prefixed_errors(prefix@, p@),
                SchemaError::Message(m) => final(self)@ == old(self)@.push((prefix@, m@)),
            },
    {
        match err {
            SchemaError::Parameter(param_err) => {
                let list = param_err.errors();
                let mut i: usize = 0;
                while i < list.len()
                    invariant
                        i <= list@.len(),
                        list@.map_values(|e: (String, String)| (e.0@, e.1@)) == param_err@,
                        self@ == old(self)@ + prefixed_errors(prefix@, param_err@.subrange(0, i as int)),
                    decreases list@.len() - i,
                {
                    let mut name = String::from_str(prefix);
                    name.append("/");
                    name.append(list[i].0.as_str());
                    let msg = list[i].1.clone();
                    self.push(name, msg);
                    assert(param_err@[i as int] == (list@[i as int].0@, list@[i as int].1@));
                    assert(param_err@.subrange(0, i + 1) == param_err@.subrange(0, i as int).push(param_err@[i as int]));
                    assert(prefixed_errors(prefix@, param_err@.subrange(0, i + 1)) =~= prefixed_errors(prefix@, param_err@.subrange(0, i as int)).push((prefix@ + "/"@ + param_err@[i as int].0, param_err@[i as int].1)));
                    i = i + 1;
                }
                assert(param_err@.subrange(0, list@.len() as int) =~= param_err@);
            },
            SchemaError::Message(m) => {
                self.push(String::from_str(prefix), m);
            },
        }
    }
}

/// Describes boolean values.
pub struct BooleanSchema {
    /// What the value means.
    pub description: &'static str,
    /// The default value, if any.
    pub default: Option<bool>,
}

impl BooleanSchema {
    /// A schema with no default.
    pub fn new(description: &'static str) -> (r: BooleanSchema)
        ensures
            r.description == description,
            r.default is None,
    {
        BooleanSchema { description, default: None }
    }

    /// The schema with default `default`.
    pub fn default(self, default: bool) -> (r: BooleanSchema)
        ensures
            r.description == self.description,
            r.default == Some(default),
    {
        BooleanSchema { default: Some(default), ..self }
    }
}

/// Describes integer values.
pub struct IntegerSchema {
    /// What the value means.
    pub description: &'static str,
    /// The smallest allowed value, if any.
    pub minimum: Option<isize>,
    /// The largest allowed value, if any.
    pub maximum: Option<isize>,
    /// The default value, if any.
    pub default: Option<isize>,
}

/// Whether `value` lies within the bounds of `s`.
pub open spec fn integer_in_bounds(s: IntegerSchema, value: int) -> bool {
    &&& s.minimum matches Some(min) ==> value >= min
    &&& s.maximum matches Some(max) ==> value <= max
}

impl IntegerSchema {
    /// A schema without bounds or default.
    pub fn new(description: &'static str) -> (r: IntegerSchema)
        ensures
            r.description == description,
            r.minimum is None,
            r.maximum is None,
            r.default is None,
    {
        IntegerSchema { description, default: None, minimum: None, maximum: None }
    }

    /// The schema with default `default`.
    pub fn default(self, default: isize) -> (r: IntegerSchema)
        ensures
            r == (IntegerSchema { default: Some(default), ..self }),
    {
        IntegerSchema { default: Some(default), ..self }
    }

    /// The schema with minimum `minimum`.
    pub fn minimum(self, minimum: isize) -> (r: IntegerSchema)
        ensures
            r == (IntegerSchema { minimum: Some(minimum), ..self }),
    {
        IntegerSchema { minimum: Some(minimum), ..self }
    }

    /// The schema with maximum `maximum`.
    pub fn maximum(self, maximum: isize) -> (r: IntegerSchema)
        ensures
            r == (IntegerSchema { maximum: Some(maximum), ..self }),
    {
        IntegerSchema { maximum: Some(maximum), ..self }
    }

    /// Checks `value` against the bounds; the minimum is checked first.
    pub fn check_constraints(&self, value: isize) -> (r: Result<(), String>)
        ensures
            r.is_ok() == integer_in_bounds(*self, value as int),
            r matches Err(m) ==> (self.minimum matches Some(min) && value < min && m@
                == "value must have a minimum value of "@ + signed_decimal_text(min as int)
                + " (got "@ + signed_decimal_text(value as int) + ")"@) || (self.maximum matches Some(max)
                && value > max && m@ == "value must have a maximum value of "@
                + signed_decimal_text(max as int) + " (got "@ + signed_decimal_text(value as int)
                + ")"@),
    {
        if let Some(minimum) = self.minimum {
            if value < minimum {
                let mut m = String::from_str("value must have a minimum value of ");
                m.append(isize_decimal(minimum).as_str());
                m.append(" (got ");
                m.append(isize_decimal(value).as_str());
                m.append(")");
                return Err(m);
            }
        }
        if let Some(maximum) = self.maximum {
            if value > maximum {
                let mut m = String::from_str("value must have a maximum value of ");
                m.append(isize_decimal(maximum).as_str());
                m.append(" (got ");
                m.append(isize_decimal(value).as_str());
                m.append(")");
                return Err(m);
            }
        }
        Ok(())
    }
}

/// A string enum entry: a value and its description.
pub struct EnumEntry {
    /// The value.
    pub value: &'static str,
    /// What it means.
    pub description: &'static str,
}

impl EnumEntry {
    /// An entry of `value` with `description`.
    pub fn new(value: &'static str, description: &'static str) -> (r: EnumEntry)
        ensures
            r.value == value,
            r.description == description,
    {
        EnumEntry { value, description }
    }
}

/// What `str::to_lowercase` makes of a string.
pub uninterp spec fn lower_of(s: Seq<char>) -> Seq<char>;

/// Relies on `str::to_lowercase`: the lowercase form depends on the characters alone.
#[verifier::external_body]
fn lowercase(s: &str) -> (r: String)
    ensures
        r@ == lower_of(s@),
{
    s.to_lowercase()
}

/// The boolean a lowercased option value stands for: `1`, `on`, `yes`,
/// `true` and `0`, `off`, `no`, `false`.
pub open spec fn boolean_word(s: Seq<char>) -> Option<bool> {
    if s == "1"@ || s == "on"@ || s == "yes"@ || s == "true"@ {
        Some(true)
    } else if s == "0"@ || s == "off"@ || s == "no"@ || s == "false"@ {
        Some(false)
    } else {
        None
    }
}

fn is_word(s: &String, w: &str) -> (r: bool)
    ensures
        r == (s@ == w@),
{
    *s == String::from_str(w)
}

/// The message of the error for a value that is no boolean word.
pub open spec fn not_boolean_text() -> Seq<char> {
    "Unable to parse boolean option."@
}

/// Reads a boolean option value that is already lowercase.
pub fn parse_boolean_lowered(value: &str) -> (r: Result<bool, String>)
    ensures
        match boolean_word(value@) {
            Some(b) => r == Ok::<bool, String>(b),
            None => r matches Err(m) && m@ == not_boolean_text(),
        },
{
    let v = String::from_str(value);
    if is_word(&v, "1") || is_word(&v, "on") || is_word(&v, "yes") || is_word(&v, "true") {
        Ok(true)
    } else if is_word(&v, "0") || is_word(&v, "off") || is_word(&v, "no") || is_word(&v, "false") {
        Ok(false)
    } else {
        Err(String::from_str("Unable to parse boolean option."))
    }
}

/// Reads a boolean option value, in any case.
pub fn parse_boolean(value_str: &str) -> (r: Result<bool, String>)
    ensures
        match boolean_word(lower_of(value_str@)) {
            Some(b) => r == Ok::<bool, String>(b),
            None => r matches Err(m) && m@ == not_boolean_text(),
        },
{
    let lowered = lowercase(value_str);
    parse_boolean_lowered(lowered.as_str())
}

/// An updater: a value that may be empty, in which case it is not applied.
pub trait Updater {
    /// Whether the updater is empty.
    fn is_empty(&self) -> bool;
}

impl<T> Updater for Vec<T> {
    fn is_empty(&self) -> bool {
        self.len() == 0
    }
}

impl<T> Updater for Option<T> {
    fn is_empty(&self) -> bool {
        self.is_none()
    }
}

} // verus!
