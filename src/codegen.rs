use vstd::prelude::*;
use crate::field::{FieldConfig, FieldKind};

verus! {

/// The uppercase mapping of one character, as std's `char::to_uppercase`
/// gives it (one to three characters).
pub uninterp spec fn upper_of(c: char) -> Seq<char>;

/// Relies on `char::to_uppercase`, collected into a string.
#[verifier::external_body]
fn uppercase(c: char) -> (r: String)
    ensures
        r@ == upper_of(c),
{
    c.to_uppercase().collect()
}

/// `s` with every underscore read as a space.
pub open spec fn spaced(s: Seq<char>) -> Seq<char> {
    s.map_values(|c: char| if c == '_' { ' ' } else { c })
}

/// The label derived from a field id: underscores become spaces and the
/// first character is uppercased.
pub open spec fn display_name_of(id: Seq<char>) -> Seq<char> {
    let t = spaced(id);
    if t.len() == 0 {
        Seq::empty()
    } else {
        upper_of(t[0]) + t.drop_first()
    }
}

/// Derives a field's display name from its id (`"attr_name"` gives `"Attr name"`).
pub fn field_id_to_display_name(name: &str) -> (r: String)
    ensures
        r@ == display_name_of(name@),
{
    let n = name.unicode_len();
    let mut t = String::new();
    let mut i: usize = 0;
    while i < n
        invariant
            n == name@.len(),
            i <= n,
            t@ == spaced(name@.take(i as int)),
        decreases n - i,
    {
        let c = name.get_char(i);
        if c == '_' {
            t.append(" ");
            proof {
                reveal_strlit(" ");
            }
        } else {
            t.append(name.substring_char(i, i + 1));
        }
        assert(t@ =~= spaced(name@.take(i + 1)));
        i = i + 1;
    }
    assert(name@.take(n as int) =~= name@);
    if n == 0 {
        assert(t@ =~= Seq::<char>::empty());
        return t;
    }
    let first = t.as_str().get_char(0);
    let mut out = uppercase(first);
    out.append(t.as_str().substring_char(1, n));
    assert(t@.subrange(1, n as int) =~= t@.drop_first());
    out
}

/// The field kind for a struct field of the named type: `String` is text,
/// `u32` and `i32` are numbers, `bool` is a boolean; other types have none.
pub open spec fn kind_of_type(ty: Seq<char>) -> Option<FieldKind> {
    if ty == "String"@ {
        Some(FieldKind::Text)
    } else if ty == "u32"@ || ty == "i32"@ {
        Some(FieldKind::Number)
    } else if ty == "bool"@ {
        Some(FieldKind::Boolean)
    } else {
        None
    }
}

/// The field kind for a struct field of the named type.
pub fn field_kind_of_type(ty: &str) -> (r: Option<FieldKind>)
    ensures
        r == kind_of_type(ty@),
{
    let t = String::from_str(ty);
    if t == String::from_str("String") {
        Some(FieldKind::Text)
    } else if t == String::from_str("u32") || t == String::from_str("i32") {
        Some(FieldKind::Number)
    } else if t == String::from_str("bool") {
        Some(FieldKind::Boolean)
    } else {
        None
    }
}

/// The config generated for a struct field: its kind follows its type, its
/// display name is derived from its id, and `read_only` keeps it out of the
/// creation form. A field of an unsupported type has none.
pub fn default_field_config(field_id: &str, ty: &str, read_only: bool) -> (r: Option<FieldConfig>)
    ensures
        match kind_of_type(ty@) {
            None => r is None,
            Some(kind) => r matches Some(c) && c.made(kind, field_id@, display_name_of(field_id@), read_only),
        },
{
    let kind = field_kind_of_type(ty)?;
    let id = String::from_str(field_id);
    let name = field_id_to_display_name(field_id);
    match kind {
        FieldKind::Text => Some(FieldConfig::create_text_config(id, name, read_only)),
        FieldKind::Number => Some(FieldConfig::create_number_config(id, name, read_only)),
        FieldKind::Boolean => Some(FieldConfig::create_boolean_config(id, name, read_only)),
    }
}

} // verus!
