use razer_core::add;
use razer_core::admin::{Admin, Theme};
use razer_core::codegen::{default_field_config, field_id_to_display_name, field_kind_of_type};
use razer_core::error::{AdminError, ValidationResult};
use razer_core::field::{CreateConfig, FieldConfig, FieldKind};
use razer_core::form::FormData;
use razer_core::json::{Encoded, JsonObject, JsonValue};
use razer_core::markup::{
    escape_html, render_create_resource_view, render_list_resource_view, render_not_found_view,
    render_view_resource_view, AdminListTemplateRow,
};
use razer_core::resource::{objects_from_list, object_from_get, render_item, JsonResource};

fn s(t: &str) -> String {
    t.to_string()
}

fn object(members: Vec<(&str, JsonValue)>) -> JsonObject {
    JsonObject { entries: members.into_iter().map(|(k, v)| (s(k), v)).collect() }
}

fn resource(path: &str, field_configs: Vec<FieldConfig>) -> JsonResource<()> {
    JsonResource {
        id_field_id: s("id"),
        name: s("People"),
        path: s(path),
        field_configs,
        operations: (),
    }
}

fn person_fields() -> Vec<FieldConfig> {
    vec![
        FieldConfig::create_text_config(s("name"), s("Name"), false),
        FieldConfig::create_boolean_config(s("is_adult"), s("Is adult"), false),
    ]
}

#[test]
fn lib_it_works() {
    let result = add(2, 2);
    assert_eq!(result, 4);
}

#[test]
fn create_payload_reads_text_and_checked_box() {
    let r = resource("people", person_fields());
    let payload = r.create_payload(b"name=Susan&is_adult=on").unwrap();
    assert_eq!(
        payload,
        object(vec![("name", JsonValue::Str(s("Susan"))), ("is_adult", JsonValue::Bool(true))])
    );
}

#[test]
fn create_payload_reads_missing_box_as_false() {
    let r = resource("people", person_fields());
    let payload = r.create_payload(b"name=Susan").unwrap();
    assert_eq!(
        payload,
        object(vec![("name", JsonValue::Str(s("Susan"))), ("is_adult", JsonValue::Bool(false))])
    );
}

#[test]
fn create_payload_missing_text_is_internal_error() {
    let r = resource("people", person_fields());
    assert_eq!(r.create_payload(b"is_adult=on"), Err(AdminError::InternalError));
}

#[test]
fn create_payload_malformed_number_is_internal_error() {
    let r = resource("things", vec![FieldConfig::create_number_config(s("number"), s("Number"), false)]);
    assert_eq!(r.create_payload(b"number=abc"), Err(AdminError::InternalError));
    assert_eq!(r.create_payload(b""), Err(AdminError::InternalError));
}

#[test]
fn create_payload_parses_numbers() {
    let r = resource("things", vec![FieldConfig::create_number_config(s("number"), s("Number"), false)]);
    assert_eq!(
        r.create_payload(b"number=42").unwrap(),
        object(vec![("number", JsonValue::Number(s("42")))])
    );
    assert_eq!(
        r.create_payload(b"number=-7").unwrap(),
        object(vec![("number", JsonValue::Number(s("-7")))])
    );
    assert_eq!(
        r.create_payload(b"number=1.5").unwrap(),
        object(vec![("number", JsonValue::Number(s("1.5")))])
    );
    assert_eq!(
        r.create_payload(b"number=1.50").unwrap(),
        object(vec![("number", JsonValue::Number(s("1.5")))])
    );
    assert_eq!(r.create_payload(b"number=12abc"), Err(AdminError::InternalError));
}

#[test]
fn create_payload_skips_read_only_fields() {
    let fields = vec![
        FieldConfig::create_text_config(s("id"), s("Id"), true),
        FieldConfig::create_text_config(s("title"), s("Title"), false),
    ];
    let r = resource("posts", fields);
    let payload = r.create_payload(b"id=forged&title=Hello&extra=1").unwrap();
    assert_eq!(payload, object(vec![("title", JsonValue::Str(s("Hello")))]));
}

#[test]
fn create_payload_last_value_wins_and_decodes() {
    let r = resource("posts", vec![FieldConfig::create_text_config(s("title"), s("Title"), false)]);
    let payload = r.create_payload(b"title=first&title=a+b%26c").unwrap();
    assert_eq!(payload, object(vec![("title", JsonValue::Str(s("a b&c")))]));
}

#[test]
fn form_data_get_takes_last_value() {
    let form = FormData::parse(b"a=1&b=2&a=3");
    assert_eq!(form.get(&s("a")), Some(&s("3")));
    assert_eq!(form.get(&s("b")), Some(&s("2")));
    assert_eq!(form.get(&s("c")), None);
}

#[test]
fn get_unparsed_id_is_internal_error() {
    assert_eq!(object_from_get(None), Err(AdminError::InternalError));
}

#[test]
fn get_missing_item_is_not_found() {
    assert_eq!(object_from_get(Some(Err(AdminError::NotFound))), Err(AdminError::NotFound));
}

#[test]
fn get_non_object_is_internal_error() {
    let answer = Some(Ok(Encoded::Value(JsonValue::Str(s("x")))));
    assert_eq!(object_from_get(answer), Err(AdminError::InternalError));
}

#[test]
fn list_then_get_agree() {
    let a = object(vec![("id", JsonValue::Number(s("1"))), ("name", JsonValue::Str(s("Ann")))]);
    let b = object(vec![("id", JsonValue::Number(s("2"))), ("name", JsonValue::Str(s("Bob")))]);
    let listed = objects_from_list(Ok(vec![Encoded::Object(a.clone()), Encoded::Object(b.clone())])).unwrap();
    assert_eq!(listed, vec![a.clone(), b.clone()]);
    let got = object_from_get(Some(Ok(Encoded::Object(b.clone())))).unwrap();
    assert_eq!(got, listed[1]);
}

#[test]
fn list_rejects_non_objects_and_passes_errors() {
    let a = object(vec![("id", JsonValue::Number(s("1")))]);
    let listed = objects_from_list(Ok(vec![Encoded::Object(a), Encoded::Value(JsonValue::Null)]));
    assert_eq!(listed, Err(AdminError::InternalError));
    assert_eq!(objects_from_list(Err(AdminError::NotFound)), Err(AdminError::NotFound));
    assert_eq!(objects_from_list(Ok(vec![])), Ok(vec![]));
}

#[test]
fn render_item_gives_one_widget_per_field() {
    let item = object(vec![("name", JsonValue::Str(s("Sue <3"))), ("is_adult", JsonValue::Bool(true))]);
    let widgets = render_item(&person_fields(), &item).unwrap();
    assert_eq!(
        widgets,
        vec![
            s("<div class=\"field\"><label for=\"name\">Name</label><textarea id=\"name\" name=\"name\">Sue &lt;3</textarea></div>"),
            s("<div class=\"field\"><label for=\"is_adult\">Is adult</label><input type=\"checkbox\" id=\"is_adult\" name=\"is_adult\" checked></div>"),
        ]
    );
}

#[test]
fn render_item_missing_key_is_internal_error() {
    let item = object(vec![("name", JsonValue::Str(s("Sue")))]);
    assert_eq!(render_item(&person_fields(), &item), Err(AdminError::InternalError));
}

#[test]
fn render_number_widget() {
    let f = FieldConfig::create_number_config(s("age"), s("Age"), true);
    assert_eq!(
        f.render(&JsonValue::Number(s("12"))),
        Ok(s("<div class=\"field\"><label for=\"age\">Age</label><input type=\"number\" id=\"age\" name=\"age\" value=\"12\"></div>"))
    );
    assert_eq!(
        f.render(&JsonValue::Null),
        Ok(s("<div class=\"field\"><label for=\"age\">Age</label><input type=\"number\" id=\"age\" name=\"age\" value=\"\"></div>"))
    );
}

#[test]
fn field_constructors_set_create_config() {
    let ro = FieldConfig::create_text_config(s("id"), s("Id"), true);
    assert_eq!(ro.create_config, None);
    assert_eq!(ro.kind, FieldKind::Text);
    let rw = FieldConfig::create_boolean_config(s("ok"), s("Ok"), false);
    assert_eq!(rw.create_config, Some(CreateConfig { kind: FieldKind::Boolean }));
    assert_eq!(rw.field_id, s("ok"));
    assert_eq!(rw.display_name, s("Ok"));
    assert_eq!(rw.description, None);
    assert_eq!(rw.help_text, None);
}

#[test]
fn create_config_converts_form_values() {
    let text = CreateConfig { kind: FieldKind::Text };
    let boolean = CreateConfig { kind: FieldKind::Boolean };
    let number = CreateConfig { kind: FieldKind::Number };
    assert_eq!(text.value_from_form_value(Some(&s("hi"))), Ok(JsonValue::Str(s("hi"))));
    assert_eq!(text.value_from_form_value(None), Err(AdminError::InternalError));
    assert_eq!(boolean.value_from_form_value(Some(&s(""))), Ok(JsonValue::Bool(true)));
    assert_eq!(boolean.value_from_form_value(None), Ok(JsonValue::Bool(false)));
    assert_eq!(number.value_from_form_value(Some(&s("3"))), Ok(JsonValue::Number(s("3"))));
    assert_eq!(number.value_from_form_value(Some(&s("3x"))), Err(AdminError::InternalError));
    assert_eq!(number.value_from_form_value(None), Err(AdminError::InternalError));
    assert_eq!(text.validate(&JsonValue::Null), ValidationResult::Valid);
}

#[test]
fn register_refuses_taken_path() {
    let mut admin: Admin<u32, ()> = Admin::new(7);
    assert_eq!(admin.title, s("Razer admin"));
    assert_eq!(admin.theme, Theme::default());
    assert_eq!(admin.register(resource("people", person_fields())), Ok(()));
    assert_eq!(admin.register(resource("posts", vec![])), Ok(()));
    assert_eq!(admin.register(resource("people", vec![])), Err(AdminError::InternalError));
    assert_eq!(admin.resources.len(), 2);
    assert_eq!(admin.resources[0].path, s("people"));
    assert_eq!(admin.resources[1].path, s("posts"));
    assert!(admin.has_path(&s("posts")));
    assert!(!admin.has_path(&s("other")));
    assert_eq!(admin.context, 7);
}

#[test]
fn display_names_from_field_ids() {
    assert_eq!(field_id_to_display_name("attr_name"), "Attr name");
    assert_eq!(field_id_to_display_name("hello"), "Hello");
    assert_eq!(field_id_to_display_name("abc_def_hi"), "Abc def hi");
    assert_eq!(field_id_to_display_name(""), "");
    assert_eq!(field_id_to_display_name("_x"), " x");
    assert_eq!(field_id_to_display_name("ßa"), "SSa");
}

#[test]
fn escape_html_escapes_markup() {
    assert_eq!(escape_html("a<b>&\"c'"), "a&lt;b&gt;&amp;&quot;c&#x27;");
    assert_eq!(escape_html(""), "");
}

#[test]
fn pages_render() {
    assert_eq!(
        render_not_found_view(),
        "<!DOCTYPE html><html><head><meta charset=\"utf-8\"><title>Not found</title><link rel=\"stylesheet\" href=\"/assets/admin.css\"></head><body><h1>Not found</h1></body></html>"
    );
    assert_eq!(
        render_view_resource_view(s("A&B"), vec![s("<p>1</p>"), s("<p>2</p>")]),
        "<!DOCTYPE html><html><head><meta charset=\"utf-8\"><title>A&amp;B</title><link rel=\"stylesheet\" href=\"/assets/admin.css\"></head><body><h1>A&amp;B</h1><div class=\"fields\"><p>1</p><p>2</p></div></body></html>"
    );
}

#[test]
fn list_and_create_pages_render() {
    let rows = vec![AdminListTemplateRow { data: vec![s("1"), s("<b>")], item_link: s("/admin/p/1") }];
    assert_eq!(
        render_list_resource_view(s("P"), s("/admin/p/create"), vec![s("Id"), s("Name")], rows),
        "<!DOCTYPE html><html><head><meta charset=\"utf-8\"><title>P</title><link rel=\"stylesheet\" href=\"/assets/admin.css\"></head><body><h1>P</h1><a href=\"/admin/p/create\">Create</a><table><thead><tr><th></th><th>Id</th><th>Name</th></tr></thead><tbody><tr><td><a href=\"/admin/p/1\">View</a></td><td>1</td><td>&lt;b&gt;</td></tr></tbody></table></body></html>"
    );
    assert_eq!(
        render_create_resource_view(s("P"), s("/admin/p/create"), vec![s("<i>w</i>")]),
        "<!DOCTYPE html><html><head><meta charset=\"utf-8\"><title>P</title><link rel=\"stylesheet\" href=\"/assets/admin.css\"></head><body><h1>P</h1><form method=\"post\" action=\"/admin/p/create\"><i>w</i><button type=\"submit\">Create</button></form></body></html>"
    );
}

#[test]
fn status_codes() {
    assert_eq!(AdminError::NotFound.status_code(), 404);
    assert_eq!(AdminError::InternalError.status_code(), 500);
}

#[test]
fn field_kinds_from_types() {
    assert_eq!(field_kind_of_type("String"), Some(FieldKind::Text));
    assert_eq!(field_kind_of_type("u32"), Some(FieldKind::Number));
    assert_eq!(field_kind_of_type("i32"), Some(FieldKind::Number));
    assert_eq!(field_kind_of_type("bool"), Some(FieldKind::Boolean));
    assert_eq!(field_kind_of_type("f64"), None);
    assert_eq!(
        default_field_config("is_adult", "bool", false),
        Some(FieldConfig::create_boolean_config(s("is_adult"), s("Is adult"), false))
    );
    assert_eq!(
        default_field_config("id", "u32", true),
        Some(FieldConfig::create_number_config(s("id"), s("Id"), true))
    );
    assert_eq!(default_field_config("tags", "Vec", false), None);
}

#[test]
fn resource_urls_and_headers() {
    let r = resource("people", person_fields());
    assert_eq!(r.list_url(), "/admin/people");
    assert_eq!(r.create_url(), "/admin/people/create");
    assert_eq!(r.headers(), vec![s("Name"), s("Is adult")]);
}

#[test]
fn list_row_links_by_identifier() {
    let r = resource("people", person_fields());
    let item = object(vec![
        ("id", JsonValue::Number(s("3"))),
        ("name", JsonValue::Str(s("Sue"))),
        ("is_adult", JsonValue::Bool(false)),
    ]);
    assert_eq!(
        r.list_row(&item),
        Ok(AdminListTemplateRow { data: vec![s("Sue"), s("false")], item_link: s("/admin/people/3") })
    );
    let no_id = object(vec![("name", JsonValue::Str(s("Sue"))), ("is_adult", JsonValue::Bool(false))]);
    assert_eq!(r.list_row(&no_id), Err(AdminError::InternalError));
    let no_field = object(vec![("id", JsonValue::Number(s("3")))]);
    assert_eq!(r.list_row(&no_field), Err(AdminError::InternalError));
}

#[test]
fn list_view_renders_rows() {
    let r = resource("p", vec![FieldConfig::create_text_config(s("name"), s("Name"), false)]);
    let item = object(vec![("id", JsonValue::Str(s("a"))), ("name", JsonValue::Null)]);
    assert_eq!(
        r.list_view(&vec![item]).unwrap(),
        "<!DOCTYPE html><html><head><meta charset=\"utf-8\"><title>People</title><link rel=\"stylesheet\" href=\"/assets/admin.css\"></head><body><h1>People</h1><a href=\"/admin/p/create\">Create</a><table><thead><tr><th></th><th>Name</th></tr></thead><tbody><tr><td><a href=\"/admin/p/a\">View</a></td><td></td></tr></tbody></table></body></html>"
    );
    assert_eq!(r.list_view(&vec![object(vec![])]), Err(AdminError::InternalError));
}

#[test]
fn item_and_create_views() {
    let fields = vec![
        FieldConfig::create_text_config(s("id"), s("Id"), true),
        FieldConfig::create_boolean_config(s("ok"), s("Ok"), false),
    ];
    let r = resource("p", fields);
    let item = object(vec![("id", JsonValue::Str(s("x"))), ("ok", JsonValue::Bool(true))]);
    assert_eq!(
        r.item_view(&item).unwrap(),
        "<!DOCTYPE html><html><head><meta charset=\"utf-8\"><title>People</title><link rel=\"stylesheet\" href=\"/assets/admin.css\"></head><body><h1>People</h1><div class=\"fields\"><div class=\"field\"><label for=\"id\">Id</label><textarea id=\"id\" name=\"id\">x</textarea></div><div class=\"field\"><label for=\"ok\">Ok</label><input type=\"checkbox\" id=\"ok\" name=\"ok\" checked></div></div></body></html>"
    );
    assert_eq!(r.item_view(&object(vec![])), Err(AdminError::InternalError));
    assert_eq!(
        r.create_view(),
        "<!DOCTYPE html><html><head><meta charset=\"utf-8\"><title>People</title><link rel=\"stylesheet\" href=\"/assets/admin.css\"></head><body><h1>People</h1><form method=\"post\" action=\"/admin/p/create\"><div class=\"field\"><label for=\"ok\">Ok</label><input type=\"checkbox\" id=\"ok\" name=\"ok\"></div><button type=\"submit\">Create</button></form></body></html>"
    );
}
