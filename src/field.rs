use vstd::prelude::*;
use crate::error::{AdminError, ValidationResult};
use crate::json::{JsonData, JsonValue};
use crate::markup::{escape, escape_html};

verus! {

/// The kinds of field that a resource can describe.
#[derive(Debug, Clone, Copy, PartialEq, Eq, Structural)]
pub enum FieldKind {
    Text,
    Boolean,
    Number,
}

/// The JSON text of the number that serde_json reads from `s`, if `s` is
/// exactly one JSON number.
pub uninterp spec fn json_number_text(s: Seq<char>) -> Option<Seq<char>>;

/// Relies on serde_json's `FromStr for Number`, which accepts the whole text
/// only when it is one JSON number (so it must start with `-` or a digit), and
/// on `Display for Number` for the number's JSON text.
#[verifier::external_body]
fn parse_number(s: &str) -> (r: Option<String>)
    ensures
        match r {
            Some(t) => json_number_text(s@) == Some(t@),
            None => json_number_text(s@) is None,
        },
        (s@.len() == 0 || !(s@[0] == '-' || ('0' <= s@[0] && s@[0] <= '9'))) ==> r is None,
{
    s.parse::<serde_json::Number>().ok().map(|n| n.to_string())
}

/// The view of an optional submitted string.
pub open spec fn raw_view(raw: Option<&String>) -> Option<Seq<char>> {
    match raw {
        Some(s) => Some(s@),
        None => None,
    }
}

/// The view of a conversion result.
pub open spec fn value_result(r: Result<JsonValue, AdminError>) -> Result<JsonData, AdminError> {
    match r {
        Ok(v) => Ok(v@),
        Err(e) => Err(e),
    }
}

/// The JSON value that a field of `kind` takes from what the form submitted
/// under its name (`None`: nothing). Text passes through and must be there;
/// a checkbox is true exactly when it was submitted; a number must parse.
pub open spec fn form_value(kind: FieldKind, raw: Option<Seq<char>>) -> Result<JsonData, AdminError> {
    match kind {
        FieldKind::Text => match raw {
            Some(s) => Ok(JsonData::Str(s)),
            None => Err(AdminError::InternalError),
        },
        FieldKind::Boolean => Ok(JsonData::Bool(raw is Some)),
        FieldKind::Number => match raw {
            Some(s) => match json_number_text(s) {
                Some(t) => Ok(JsonData::Number(t)),
                None => Err(AdminError::InternalError),
            },
            None => Err(AdminError::InternalError),
        },
    }
}

/// How a field that takes part in creation is read from a form.
#[derive(Debug, Clone, Copy, PartialEq, Eq, Structural)]
pub struct CreateConfig {
    pub kind: FieldKind,
}

impl CreateConfig {
    /// Checks a value before creation; every value is accepted.
    pub fn validate(&self, value: &JsonValue) -> (r: ValidationResult)
        ensures
            r is Valid,
    {
        ValidationResult::Valid
    }

    /// Converts what the form submitted under this field's name.
    pub fn value_from_form_value(&self, raw: Option<&String>) -> (r: Result<JsonValue, AdminError>)
        ensures
            value_result(r) == form_value(self.kind, raw_view(raw)),
    {
        match self.kind {
            FieldKind::Text => match raw {
                Some(s) => Ok(JsonValue::Str(s.clone())),
                None => Err(AdminError::InternalError),
            },
            FieldKind::Boolean => Ok(JsonValue::Bool(raw.is_some())),
            FieldKind::Number => match raw {
                Some(s) => match parse_number(s.as_str()) {
                    Some(t) => Ok(JsonValue::Number(t)),
                    None => Err(AdminError::InternalError),
                },
                None => Err(AdminError::InternalError),
            },
        }
    }
}

/// The text a text widget shows: the string, or nothing for another value.
pub open spec fn shown_text(v: JsonData) -> Seq<char> {
    match v {
        JsonData::Str(s) => s,
        _ => Seq::empty(),
    }
}

/// The text a number widget shows: the number, or nothing for another value.
pub open spec fn shown_number(v: JsonData) -> Seq<char> {
    match v {
        JsonData::Number(t) => t,
        _ => Seq::empty(),
    }
}

/// The `id` and `name` attributes of a form control.
pub open spec fn control_names(id: Seq<char>) -> Seq<char> {
    " id=\""@ + escape(id) + "\" name=\""@ + escape(id) + "\""@
}

/// The form control of a field of `kind` that holds `v`.
pub open spec fn control(kind: FieldKind, id: Seq<char>, v: JsonData) -> Seq<char> {
    match kind {
        FieldKind::Text => "<textarea"@ + control_names(id) + ">"@ + escape(shown_text(v))
            + "</textarea>"@,
        FieldKind::Boolean => {
            let checked = if v == JsonData::Bool(true) {
                " checked"@
            } else {
                Seq::empty()
            };
            "<input type=\"checkbox\""@ + control_names(id) + checked + ">"@
        },
        FieldKind::Number => "<input type=\"number\""@ + control_names(id) + " value=\""@
            + escape(shown_number(v)) + "\">"@,
    }
}

/// The widget of a field: its label, then its control.
#[verifier::opaque]
pub open spec fn widget(kind: FieldKind, id: Seq<char>, name: Seq<char>, v: JsonData) -> Seq<char> {
    "<div class=\"field\"><label for=\""@ + escape(id) + "\">"@ + escape(name) + "</label>"@
        + control(kind, id, v) + "</div>"@
}

fn control_names_html(id: &str) -> (r: String)
    ensures
        r@ == control_names(id@),
{
    let e = escape_html(id);
    let mut out = String::from_str(" id=\"");
    out.append(e.as_str());
    out.append("\" name=\"");
    out.append(e.as_str());
    out.append("\"");
    out
}

fn control_html(kind: FieldKind, id: &str, value: &JsonValue) -> (r: String)
    ensures
        r@ == control(kind, id@, value@),
{
    let names = control_names_html(id);
    match kind {
        FieldKind::Text => {
            let mut out = String::from_str("<textarea");
            out.append(names.as_str());
            out.append(">");
            match value {
                JsonValue::Str(s) => {
                    let e = escape_html(s.as_str());
                    out.append(e.as_str());
                },
                _ => {
                    assert(escape(Seq::<char>::empty()) =~= Seq::<char>::empty());
                },
            }
            out.append("</textarea>");
            out
        },
        FieldKind::Boolean => {
            let mut out = String::from_str("<input type=\"checkbox\"");
            out.append(names.as_str());
            let checked = match value {
                JsonValue::Bool(b) => *b,
                _ => false,
            };
            if checked {
                out.append(" checked");
            }
            out.append(">");
            assert(out@ =~= control(kind, id@, value@));
            out
        },
        FieldKind::Number => {
            let mut out = String::from_str("<input type=\"number\"");
            out.append(names.as_str());
            out.append(" value=\"");
            match value {
                JsonValue::Number(t) => {
                    let e = escape_html(t.as_str());
                    out.append(e.as_str());
                },
                _ => {
                    assert(escape(Seq::<char>::empty()) =~= Seq::<char>::empty());
                },
            }
            out.append("\">");
            out
        },
    }
}

/// Describes one field of a resource: how it is shown and, when it takes
/// part in creation, how it is read from a form.
#[derive(Debug, Clone, PartialEq)]
pub struct FieldConfig {
    pub field_id: String,
    pub display_name: String,
    pub description: Option<String>,
    pub help_text: Option<String>,
    pub kind: FieldKind,
    pub create_config: Option<CreateConfig>,
}

/// The mathematical content of a `FieldConfig`: what it is called, how it is
/// shown, and the kind it is read as on creation (`None`: read only).
pub struct FieldView {
    pub field_id: Seq<char>,
    pub display_name: Seq<char>,
    pub kind: FieldKind,
    pub create: Option<FieldKind>,
}

impl View for FieldConfig {
    type V = FieldView;

    open spec fn view(&self) -> FieldView {
        FieldView {
            field_id: self.field_id@,
            display_name: self.display_name@,
            kind: self.kind,
            create: match self.create_config {
                Some(c) => Some(c.kind),
                None => None,
            },
        }
    }
}

/// The views of a list of field configs.
pub open spec fn fields_view(c: Seq<FieldConfig>) -> Seq<FieldView> {
    c.map_values(|f: FieldConfig| f@)
}

impl FieldConfig {
    /// A field of `kind`, read only or read from the create form.
    pub open spec fn made(&self, kind: FieldKind, field_id: Seq<char>, display_name: Seq<char>, read_only: bool) -> bool {
        &&& self.field_id@ == field_id
        &&& self.display_name@ == display_name
        &&& self.description is None
        &&& self.help_text is None
        &&& self.kind == kind
        &&& self.create_config == (if read_only {
            None
        } else {
            Some(CreateConfig { kind })
        })
    }

    fn of_kind(kind: FieldKind, field_id: String, display_name: String, read_only: bool) -> (r: Self)
        ensures
            r.made(kind, field_id@, display_name@, read_only),
    {
        FieldConfig {
            field_id,
            display_name,
            description: None,
            help_text: None,
            kind,
            create_config: if read_only {
                None
            } else {
                Some(CreateConfig { kind })
            },
        }
    }

    /// A text field.
    pub fn create_text_config(field_id: String, display_name: String, read_only: bool) -> (r: Self)
        ensures
            r.made(FieldKind::Text, field_id@, display_name@, read_only),
    {
        Self::of_kind(FieldKind::Text, field_id, display_name, read_only)
    }

    /// A boolean field, shown as a checkbox.
    pub fn create_boolean_config(field_id: String, display_name: String, read_only: bool) -> (r: Self)
        ensures
            r.made(FieldKind::Boolean, field_id@, display_name@, read_only),
    {
        Self::of_kind(FieldKind::Boolean, field_id, display_name, read_only)
    }

    /// A number field.
    pub fn create_number_config(field_id: String, display_name: String, read_only: bool) -> (r: Self)
        ensures
            r.made(FieldKind::Number, field_id@, display_name@, read_only),
    {
        Self::of_kind(FieldKind::Number, field_id, display_name, read_only)
    }

    /// Renders the field's widget showing `value`; it never fails.
    pub fn render(&self, value: &JsonValue) -> (r: Result<String, AdminError>)
        ensures
            match r {
                Ok(s) => s@ == widget(self.kind, self.field_id@, self.display_name@, value@),
                Err(_) => false,
            },
    {
        let id = escape_html(self.field_id.as_str());
        let name = escape_html(self.display_name.as_str());
        let mut out = String::from_str("<div class=\"field\"><label for=\"");
        out.append(id.as_str());
        out.append("\">");
        out.append(name.as_str());
        out.append("</label>");
        let c = control_html(self.kind, self.field_id.as_str(), value);
        out.append(c.as_str());
        out.append("</div>");
        proof {
            reveal(widget);
        }
        Ok(out)
    }
}

} // verus!
