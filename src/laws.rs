use vstd::prelude::*;
use crate::admin::{paths_of, Admin};
use crate::error::AdminError;
use crate::field::{form_value, json_number_text, widget, FieldKind, FieldView};
use crate::json::{has_key, lookup, upsert, EncodedData, Members};
use crate::resource::{assemble, form_entry, get_result, lemma_assemble_failure_stays, list_objects, render_all};

verus! {

/// In a well-formed registry no two resources share a path.
pub proof fn law_paths_unique<TContext, Ops>(admin: Admin<TContext, Ops>, i: int, j: int)
    requires
        admin.wf(),
        0 <= i < j < admin.resources@.len(),
    ensures
        admin.resources@[i].path@ != admin.resources@[j].path@,
{
    assert(paths_of(admin.resources@)[i] != paths_of(admin.resources@)[j]);
}

/// Listing and then getting one of the listed items (which the typed lookup
/// answers with the same item) gives the object that the listing gave.
pub proof fn law_list_then_get(items: Seq<EncodedData>, objs: Seq<Members>, i: int)
    requires
        list_objects(items) == Ok::<Seq<Members>, AdminError>(objs),
        0 <= i < items.len(),
    ensures
        get_result(Some(Ok(items[i]))) == Ok::<Members, AdminError>(objs[i]),
{
    assert(items[i] is Object);
}

/// Every failure of assembly is an internal error.
pub proof fn lemma_assemble_fails_internally(fields: Seq<FieldView>, form: Map<Seq<char>, Seq<char>>)
    ensures
        assemble(fields, form) is Err ==> assemble(fields, form) == Err::<Members, AdminError>(
            AdminError::InternalError,
        ),
    decreases fields.len(),
{
    if fields.len() > 0 {
        lemma_assemble_fails_internally(fields.drop_last(), form);
    }
}

/// A number field that takes part in creation, whose submitted value is
/// missing or is not a JSON number, fails the whole creation with an
/// internal error: no default number is put in its place.
pub proof fn law_malformed_number_fails(fields: Seq<FieldView>, form: Map<Seq<char>, Seq<char>>, i: int)
    requires
        0 <= i < fields.len(),
        fields[i].create == Some(FieldKind::Number),
        !form.contains_key(fields[i].field_id) || json_number_text(form[fields[i].field_id]) is None,
    ensures
        assemble(fields, form) == Err::<Members, AdminError>(AdminError::InternalError),
{
    let pre = fields.take(i + 1);
    assert(pre.drop_last() =~= fields.take(i));
    assert(pre.last() == fields[i]);
    assert(form_value(FieldKind::Number, form_entry(form, fields[i].field_id)) is Err);
    assert(assemble(pre, form) is Err);
    lemma_assemble_failure_stays(fields, form, i + 1);
    lemma_assemble_fails_internally(fields, form);
}

/// Every key of an assembled object is the id of a field that takes part in
/// creation: a read-only field never shows up, whatever the form holds.
pub proof fn law_read_only_never_assembled(fields: Seq<FieldView>, form: Map<Seq<char>, Seq<char>>, m: Members, k: Seq<char>)
    requires
        assemble(fields, form) == Ok::<Members, AdminError>(m),
        has_key(m, k),
    ensures
        exists|i: int| 0 <= i < fields.len() && #[trigger] fields[i].field_id == k && fields[i].create is Some,
    decreases fields.len(),
{
    let init = fields.drop_last();
    let f = fields.last();
    let prev = assemble(init, form)->Ok_0;
    assert(assemble(init, form) is Ok);
    let w = choose|j: int| 0 <= j < m.len() && #[trigger] m[j].0 == k;
    if f.create is Some && f.field_id == k {
        assert(fields[fields.len() - 1].field_id == k);
    } else {
        if f.create is None {
            assert(m == prev);
        }
        if f.create is Some {
            assert(f.field_id != k);
            let v = form_value(f.create->0, form_entry(form, f.field_id))->Ok_0;
            assert(m == upsert(prev, f.field_id, v));
            if has_key(prev, f.field_id) {
                crate::json::lemma_key_index(prev, f.field_id);
                assert(prev.update(crate::json::key_index(prev, f.field_id), (f.field_id, v))[w].0 == k);
                assert(prev[w].0 == k);
            } else {
                assert(prev.push((f.field_id, v))[w].0 == k);
                assert(prev[w].0 == k);
            }
        }
        assert(has_key(prev, k));
        law_read_only_never_assembled(init, form, prev, k);
        let i = choose|i: int| 0 <= i < init.len() && #[trigger] init[i].field_id == k && init[i].create is Some;
        assert(fields[i] == init[i]);
    }
}

/// When every field's id is a key of the item, rendering gives one widget
/// per field, in order, each showing the value under its id.
pub proof fn law_render_present_fields(fields: Seq<FieldView>, item: Members)
    requires
        forall|i: int| 0 <= i < fields.len() ==> has_key(item, #[trigger] fields[i].field_id),
    ensures
        render_all(fields, item) is Ok,
        render_all(fields, item)->Ok_0.len() == fields.len(),
        forall|i: int| 0 <= i < fields.len() ==> #[trigger] render_all(fields, item)->Ok_0[i] == widget(
            fields[i].kind,
            fields[i].field_id,
            fields[i].display_name,
            lookup(item, fields[i].field_id)->0,
        ),
    decreases fields.len(),
{
    reveal(lookup);
    if fields.len() > 0 {
        let init = fields.drop_last();
        assert forall|i: int| 0 <= i < init.len() implies has_key(item, #[trigger] init[i].field_id) by {
            assert(init[i] == fields[i]);
        }
        law_render_present_fields(init, item);
        assert(has_key(item, fields[fields.len() - 1].field_id));
        let s = render_all(init, item)->Ok_0;
        assert forall|i: int| 0 <= i < fields.len() implies #[trigger] render_all(fields, item)->Ok_0[i]
            == widget(
            fields[i].kind,
            fields[i].field_id,
            fields[i].display_name,
            lookup(item, fields[i].field_id)->0,
        ) by {
            if i < init.len() {
                assert(init[i] == fields[i]);
            }
        }
    }
}

/// Every failure of rendering is an internal error.
pub proof fn lemma_render_fails_internally(fields: Seq<FieldView>, item: Members)
    ensures
        render_all(fields, item) is Err ==> render_all(fields, item) == Err::<Seq<Seq<char>>, AdminError>(
            AdminError::InternalError,
        ),
    decreases fields.len(),
{
    if fields.len() > 0 {
        lemma_render_fails_internally(fields.drop_last(), item);
    }
}

/// When some field's id is not a key of the item, rendering fails with an
/// internal error.
pub proof fn law_render_missing_field(fields: Seq<FieldView>, item: Members, i: int)
    requires
        0 <= i < fields.len(),
        !has_key(item, fields[i].field_id),
    ensures
        render_all(fields, item) == Err::<Seq<Seq<char>>, AdminError>(AdminError::InternalError),
    decreases fields.len(),
{
    reveal(lookup);
    let init = fields.drop_last();
    lemma_render_fails_internally(init, item);
    if i < fields.len() - 1 {
        assert(init[i] == fields[i]);
        law_render_missing_field(init, item, i);
    }
}

} // verus!
