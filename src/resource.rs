use vstd::prelude::*;
use crate::error::AdminError;
use crate::field::{form_value, raw_view, widget, FieldConfig, FieldView, fields_view};
use crate::form::{form_map, form_pairs, FormData};
use crate::markup::strings_view;
use crate::json::{Encoded, EncodedData, JsonObject, Members, lookup, upsert};

verus! {

/// What a form holds under `k`, if anything.
pub open spec fn form_entry(form: Map<Seq<char>, Seq<char>>, k: Seq<char>) -> Option<Seq<char>> {
    if form.contains_key(k) {
        Some(form[k])
    } else {
        None
    }
}

/// The object assembled for creation: the fields are taken in order, each
/// field that takes part in creation converts what the form holds under its
/// id, read-only fields are skipped, and the first failing conversion fails
/// the whole.
pub open spec fn assemble(fields: Seq<FieldView>, form: Map<Seq<char>, Seq<char>>) -> Result<Members, AdminError>
    decreases fields.len(),
{
    if fields.len() == 0 {
        Ok(Seq::empty())
    } else {
        match assemble(fields.drop_last(), form) {
            Err(e) => Err(e),
            Ok(m) => {
                let f = fields.last();
                match f.create {
                    None => Ok(m),
                    Some(kind) => match form_value(kind, form_entry(form, f.field_id)) {
                        Ok(v) => Ok(upsert(m, f.field_id, v)),
                        Err(e) => Err(e),
                    },
                }
            },
        }
    }
}

/// A failure on a prefix of the fields is the failure of all of them.
pub proof fn lemma_assemble_failure_stays(fields: Seq<FieldView>, form: Map<Seq<char>, Seq<char>>, n: int)
    requires
        0 <= n <= fields.len(),
        assemble(fields.take(n), form) is Err,
    ensures
        assemble(fields, form) == assemble(fields.take(n), form),
    decreases fields.len(),
{
    if n < fields.len() {
        assert(fields.drop_last().take(n) =~= fields.take(n));
        lemma_assemble_failure_stays(fields.drop_last(), form, n);
    } else {
        assert(fields.take(n) =~= fields);
    }
}

/// Assembles the creation object from the submitted form.
pub fn assemble_create_object(field_configs: &Vec<FieldConfig>, form: &FormData) -> (r: Result<JsonObject, AdminError>)
    ensures
        match r {
            Ok(o) => o.wf() && assemble(fields_view(field_configs@), form@) == Ok::<Members, AdminError>(o@),
            Err(e) => assemble(fields_view(field_configs@), form@) == Err::<Members, AdminError>(e),
        },
{
    let ghost fv = fields_view(field_configs@);
    let mut obj = JsonObject::new();
    let mut i: usize = 0;
    assert(fv.take(0) =~= Seq::<FieldView>::empty());
    while i < field_configs.len()
        invariant
            i <= field_configs@.len(),
            fv == fields_view(field_configs@),
            obj.wf(),
            assemble(fv.take(i as int), form@) == Ok::<Members, AdminError>(obj@),
        decreases field_configs@.len() - i,
    {
        let f = &field_configs[i];
        assert(fv.take(i + 1).drop_last() =~= fv.take(i as int));
        assert(fv.take(i + 1).last() == f@);
        match &f.create_config {
            None => {},
            Some(c) => {
                let raw = form.get(&f.field_id);
                assert(raw_view(raw) == form_entry(form@, f.field_id@));
                let converted = c.value_from_form_value(raw);
                match converted {
                    Ok(v) => {
                        obj.insert(f.field_id.clone(), v);
                    },
                    Err(e) => {
                        proof {
                            lemma_assemble_failure_stays(fv, form@, i + 1);
                        }
                        return Err(e);
                    },
                }
            },
        }
        i = i + 1;
    }
    assert(fv.take(field_configs@.len() as int) =~= fv);
    Ok(obj)
}

/// A resource as the generic layer sees it: its names, its field configs,
/// and a handle `Ops` on the operations, which run outside this library and
/// hand their answers to the functions below.
pub struct JsonResource<Ops> {
    pub id_field_id: String,
    pub name: String,
    pub path: String,
    pub field_configs: Vec<FieldConfig>,
    pub operations: Ops,
}

impl<Ops> JsonResource<Ops> {
    /// Decodes a form body and assembles the object that creation deserialises.
    pub fn create_payload(&self, body: &[u8]) -> (r: Result<JsonObject, AdminError>)
        ensures
            match r {
                Ok(o) => o.wf() && assemble(fields_view(self.field_configs@), form_map(form_pairs(body@)))
                    == Ok::<Members, AdminError>(o@),
                Err(e) => assemble(fields_view(self.field_configs@), form_map(form_pairs(body@)))
                    == Err::<Members, AdminError>(e),
            },
    {
        let form = FormData::parse(body);
        assemble_create_object(&self.field_configs, &form)
    }
}

/// An encoded item as an object; anything else is an internal error.
pub open spec fn as_object(e: EncodedData) -> Result<Members, AdminError> {
    match e {
        EncodedData::Object(m) => Ok(m),
        EncodedData::Value(_) => Err(AdminError::InternalError),
    }
}

/// The views of a list of encoded items.
pub open spec fn encoded_view(v: Seq<Encoded>) -> Seq<EncodedData> {
    v.map_values(|e: Encoded| e@)
}

/// The views of a list of objects.
pub open spec fn objects_view(v: Seq<JsonObject>) -> Seq<Members> {
    v.map_values(|o: JsonObject| o@)
}

/// The objects of a listing, in order, when every item encoded to an object.
pub open spec fn list_objects(items: Seq<EncodedData>) -> Result<Seq<Members>, AdminError> {
    if forall|i: int| 0 <= i < items.len() ==> #[trigger] items[i] is Object {
        Ok(items.map_values(|e: EncodedData| e->Object_0))
    } else {
        Err(AdminError::InternalError)
    }
}

/// The outcome of `list` from what the typed listing answered, each item
/// already encoded: its error unchanged, or the objects in the same order.
pub fn objects_from_list(listed: Result<Vec<Encoded>, AdminError>) -> (r: Result<Vec<JsonObject>, AdminError>)
    ensures
        listed is Err ==> r is Err && r->Err_0 == listed->Err_0,
        listed is Ok ==> match r {
            Ok(objs) => list_objects(encoded_view(listed->Ok_0@)) == Ok::<Seq<Members>, AdminError>(
                objects_view(objs@),
            ),
            Err(e) => list_objects(encoded_view(listed->Ok_0@)) == Err::<Seq<Members>, AdminError>(e),
        },
{
    match listed {
        Err(e) => Err(e),
        Ok(items) => {
            let ghost ev = encoded_view(items@);
            let mut objs: Vec<JsonObject> = Vec::new();
            let mut i: usize = 0;
            while i < items.len()
                invariant
                    i <= items@.len(),
                    listed is Ok && listed->Ok_0@ == items@,
                    ev == encoded_view(items@),
                    objs@.len() == i,
                    forall|j: int| 0 <= j < i ==> #[trigger] ev[j] is Object,
                    forall|j: int| 0 <= j < i ==> ev[j]->Object_0 == #[trigger] objs@[j]@,
                decreases items@.len() - i,
            {
                match &items[i] {
                    Encoded::Object(o) => {
                        objs.push(o.duplicate());
                    },
                    Encoded::Value(_) => {
                        assert(!(ev[i as int] is Object));
                        return Err(AdminError::InternalError);
                    },
                }
                i = i + 1;
            }
            assert(ev.map_values(|e: EncodedData| e->Object_0) =~= objects_view(objs@));
            Ok(objs)
        },
    }
}

/// The outcome of `get`: `None` when the identifier did not parse (nothing
/// was looked up), else what the typed lookup answered, already encoded.
pub open spec fn get_result(answer: Option<Result<EncodedData, AdminError>>) -> Result<Members, AdminError> {
    match answer {
        None => Err(AdminError::InternalError),
        Some(Err(e)) => Err(e),
        Some(Ok(e)) => as_object(e),
    }
}

/// The view of an answer of the typed lookup.
pub open spec fn answer_view(answer: Option<Result<Encoded, AdminError>>) -> Option<Result<EncodedData, AdminError>> {
    match answer {
        None => None,
        Some(Err(e)) => Some(Err(e)),
        Some(Ok(e)) => Some(Ok(e@)),
    }
}

/// The outcome of `get` from whether the identifier parsed and, when it did,
/// what the typed lookup answered.
pub fn object_from_get(answer: Option<Result<Encoded, AdminError>>) -> (r: Result<JsonObject, AdminError>)
    ensures
        match r {
            Ok(o) => get_result(answer_view(answer)) == Ok::<Members, AdminError>(o@),
            Err(e) => get_result(answer_view(answer)) == Err::<Members, AdminError>(e),
        },
{
    match answer {
        None => Err(AdminError::InternalError),
        Some(Err(e)) => Err(e),
        Some(Ok(Encoded::Object(o))) => Ok(o),
        Some(Ok(Encoded::Value(_))) => Err(AdminError::InternalError),
    }
}

/// The widgets of an item, one per field in order; a field whose id is not
/// a key of the item fails the whole with an internal error.
pub open spec fn render_all(fields: Seq<FieldView>, item: Members) -> Result<Seq<Seq<char>>, AdminError>
    decreases fields.len(),
{
    if fields.len() == 0 {
        Ok(Seq::empty())
    } else {
        match render_all(fields.drop_last(), item) {
            Err(e) => Err(e),
            Ok(s) => {
                let f = fields.last();
                match lookup(item, f.field_id) {
                    None => Err(AdminError::InternalError),
                    Some(v) => Ok(s.push(widget(f.kind, f.field_id, f.display_name, v))),
                }
            },
        }
    }
}

/// A failure on a prefix of the fields is the failure of all of them.
pub proof fn lemma_render_failure_stays(fields: Seq<FieldView>, item: Members, n: int)
    requires
        0 <= n <= fields.len(),
        render_all(fields.take(n), item) is Err,
    ensures
        render_all(fields, item) == render_all(fields.take(n), item),
    decreases fields.len(),
{
    if n < fields.len() {
        assert(fields.drop_last().take(n) =~= fields.take(n));
        lemma_render_failure_stays(fields.drop_last(), item, n);
    } else {
        assert(fields.take(n) =~= fields);
    }
}

/// One more field: how the outcome on a prefix extends.
proof fn lemma_render_step(fields: Seq<FieldView>, item: Members, i: int)
    requires
        0 <= i < fields.len(),
    ensures
        render_all(fields.take(i + 1), item) == (match render_all(fields.take(i), item) {
            Err(e) => Err(e),
            Ok(s) => match lookup(item, fields[i].field_id) {
                None => Err(AdminError::InternalError),
                Some(v) => Ok(s.push(widget(fields[i].kind, fields[i].field_id, fields[i].display_name, v))),
            },
        }),
{
    assert(fields.take(i + 1).drop_last() =~= fields.take(i));
    assert(fields.take(i + 1).last() == fields[i]);
}

/// Renders every field of an item through its config.
pub fn render_item(field_configs: &Vec<FieldConfig>, item: &JsonObject) -> (r: Result<Vec<String>, AdminError>)
    ensures
        match r {
            Ok(s) => render_all(fields_view(field_configs@), item@) == Ok::<Seq<Seq<char>>, AdminError>(
                strings_view(s@),
            ),
            Err(e) => render_all(fields_view(field_configs@), item@) == Err::<Seq<Seq<char>>, AdminError>(e),
        },
{
    let ghost fv = fields_view(field_configs@);
    let ghost m = item@;
    let mut out: Vec<String> = Vec::new();
    let mut i: usize = 0;
    assert(fv.take(0) =~= Seq::<FieldView>::empty());
    assert(strings_view(out@) =~= Seq::<Seq<char>>::empty());
    while i < field_configs.len()
        invariant
            i <= field_configs@.len(),
            fv == fields_view(field_configs@),
            m == item@,
            render_all(fv.take(i as int), m) == Ok::<Seq<Seq<char>>, AdminError>(strings_view(out@)),
        decreases field_configs@.len() - i,
    {
        let f = &field_configs[i];
        proof {
            lemma_render_step(fv, m, i as int);
        }
        match item.get(&f.field_id) {
            None => {
                proof {
                    lemma_render_failure_stays(fv, m, i + 1);
                }
                return Err(AdminError::InternalError);
            },
            Some(v) => {
                let w = f.render(v).unwrap();
                let ghost before = out@;
                out.push(w);
                assert(strings_view(out@) =~= strings_view(before).push(w@));
            },
        }
        i = i + 1;
    }
    assert(fv.take(field_configs@.len() as int) =~= fv);
    Ok(out)
}

} // verus!
