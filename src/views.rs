use vstd::prelude::*;
use crate::error::AdminError;
use crate::field::{widget, fields_view, FieldConfig, FieldView};
use crate::json::{JsonData, JsonObject, JsonValue, Members, lookup};
use crate::markup::{
    create_page, list_page, strings_view, view_page, render_create_resource_view,
    render_list_resource_view, render_view_resource_view, row_view, AdminListTemplateRow,
};
use crate::resource::{render_all, render_item, JsonResource};

verus! {

/// The text a list cell shows for a value.
pub open spec fn cell_text(v: JsonData) -> Seq<char> {
    match v {
        JsonData::Null => Seq::empty(),
        JsonData::Bool(b) => if b {
            "true"@
        } else {
            "false"@
        },
        JsonData::Number(t) => t,
        JsonData::Str(s) => s,
        JsonData::Array(t) => t,
        JsonData::Object(t) => t,
    }
}

/// The text a list cell shows for `v`.
pub fn cell_string(v: &JsonValue) -> (r: String)
    ensures
        r@ == cell_text(v@),
{
    match v {
        JsonValue::Null => String::new(),
        JsonValue::Bool(b) => if *b {
            String::from_str("true")
        } else {
            String::from_str("false")
        },
        JsonValue::Number(t) => t.clone(),
        JsonValue::Str(s) => s.clone(),
        JsonValue::Array(t) => t.clone(),
        JsonValue::Object(t) => t.clone(),
    }
}

/// The cells of an item, one per field in order; a field whose id is not a
/// key of the item gives none.
pub open spec fn cells_of(fields: Seq<FieldView>, item: Members) -> Option<Seq<Seq<char>>>
    decreases fields.len(),
{
    if fields.len() == 0 {
        Some(Seq::empty())
    } else {
        match cells_of(fields.drop_last(), item) {
            None => None,
            Some(s) => match lookup(item, fields.last().field_id) {
                None => None,
                Some(v) => Some(s.push(cell_text(v))),
            },
        }
    }
}

/// Where the list page of the resource at `path` is served.
pub open spec fn list_url(path: Seq<char>) -> Seq<char> {
    "/admin/"@ + path
}

/// Where the creation form of the resource at `path` is served and posted.
pub open spec fn create_url(path: Seq<char>) -> Seq<char> {
    "/admin/"@ + path + "/create"@
}

/// Where the page of the item with identifier text `id` is served.
pub open spec fn item_url(path: Seq<char>, id: Seq<char>) -> Seq<char> {
    "/admin/"@ + path + "/"@ + id
}

/// The list row of an item: its cells, and the link built from the value of
/// its identifier field. A missing key gives none.
pub open spec fn row_of(path: Seq<char>, id_field: Seq<char>, fields: Seq<FieldView>, item: Members) -> Option<(Seq<Seq<char>>, Seq<char>)> {
    match (cells_of(fields, item), lookup(item, id_field)) {
        (Some(cells), Some(id)) => Some((cells, item_url(path, cell_text(id)))),
        _ => None,
    }
}

/// The rows of a list of items, when every item gives one.
pub open spec fn rows_of(path: Seq<char>, id_field: Seq<char>, fields: Seq<FieldView>, items: Seq<Members>) -> Option<Seq<(Seq<Seq<char>>, Seq<char>)>>
    decreases items.len(),
{
    if items.len() == 0 {
        Some(Seq::empty())
    } else {
        match (rows_of(path, id_field, fields, items.drop_last()), row_of(path, id_field, fields, items.last())) {
            (Some(rows), Some(row)) => Some(rows.push(row)),
            _ => None,
        }
    }
}

/// The display names of the fields, in order.
pub open spec fn headers_of(fields: Seq<FieldView>) -> Seq<Seq<char>> {
    fields.map_values(|f: FieldView| f.display_name)
}

/// The widgets of the creation form: each field that takes part in creation,
/// showing no value.
pub open spec fn create_widgets(fields: Seq<FieldView>) -> Seq<Seq<char>>
    decreases fields.len(),
{
    if fields.len() == 0 {
        Seq::empty()
    } else {
        let f = fields.last();
        let before = create_widgets(fields.drop_last());
        if f.create is Some {
            before.push(widget(f.kind, f.field_id, f.display_name, JsonData::Null))
        } else {
            before
        }
    }
}

impl<Ops> JsonResource<Ops> {
    /// Where the resource's list page is served.
    pub fn list_url(&self) -> (r: String)
        ensures
            r@ == list_url(self.path@),
    {
        let mut out = String::from_str("/admin/");
        out.append(self.path.as_str());
        out
    }

    /// Where the resource's creation form is served and posted.
    pub fn create_url(&self) -> (r: String)
        ensures
            r@ == create_url(self.path@),
    {
        let mut out = self.list_url();
        out.append("/create");
        out
    }

    /// The column headers of the list page.
    pub fn headers(&self) -> (r: Vec<String>)
        ensures
            strings_view(r@) == headers_of(fields_view(self.field_configs@)),
    {
        let ghost fv = fields_view(self.field_configs@);
        let mut out: Vec<String> = Vec::new();
        let mut i: usize = 0;
        while i < self.field_configs.len()
            invariant
                i <= self.field_configs@.len(),
                fv == fields_view(self.field_configs@),
                strings_view(out@) == headers_of(fv.take(i as int)),
            decreases self.field_configs@.len() - i,
        {
            let ghost before = out@;
            out.push(self.field_configs[i].display_name.clone());
            assert(strings_view(out@) =~= strings_view(before).push(fv[i as int].display_name));
            assert(headers_of(fv.take(i + 1)) =~= headers_of(fv.take(i as int)).push(fv[i as int].display_name));
            i = i + 1;
        }
        assert(fv.take(self.field_configs@.len() as int) =~= fv);
        out
    }

    /// The list row of one item.
    pub fn list_row(&self, item: &JsonObject) -> (r: Result<AdminListTemplateRow, AdminError>)
        ensures
            match r {
                Ok(row) => row_of(self.path@, self.id_field_id@, fields_view(self.field_configs@), item@)
                    == Some(row_view(row)),
                Err(e) => e == AdminError::InternalError && row_of(
                    self.path@,
                    self.id_field_id@,
                    fields_view(self.field_configs@),
                    item@,
                ) is None,
            },
    {
        let ghost fv = fields_view(self.field_configs@);
        let mut data: Vec<String> = Vec::new();
        let mut i: usize = 0;
        assert(fv.take(0) =~= Seq::<FieldView>::empty());
        while i < self.field_configs.len()
            invariant
                i <= self.field_configs@.len(),
                fv == fields_view(self.field_configs@),
                cells_of(fv.take(i as int), item@) == Some(strings_view(data@)),
            decreases self.field_configs@.len() - i,
        {
            assert(fv.take(i + 1).drop_last() =~= fv.take(i as int));
            assert(fv.take(i + 1).last() == fv[i as int]);
            match item.get(&self.field_configs[i].field_id) {
                None => {
                    proof {
                        lemma_cells_missing_stays(fv, item@, i + 1);
                    }
                    return Err(AdminError::InternalError);
                },
                Some(v) => {
                    let ghost before = data@;
                    data.push(cell_string(v));
                    assert(strings_view(data@) =~= strings_view(before).push(cell_text(v@)));
                },
            }
            i = i + 1;
        }
        assert(fv.take(self.field_configs@.len() as int) =~= fv);
        match item.get(&self.id_field_id) {
            None => Err(AdminError::InternalError),
            Some(id) => {
                let mut link = self.list_url();
                link.append("/");
                let t = cell_string(id);
                link.append(t.as_str());
                Ok(AdminListTemplateRow { data, item_link: link })
            },
        }
    }

    /// The list page of the resource over the listed items.
    pub fn list_view(&self, items: &Vec<JsonObject>) -> (r: Result<String, AdminError>)
        ensures
            match r {
                Ok(page) => rows_of(
                    self.path@,
                    self.id_field_id@,
                    fields_view(self.field_configs@),
                    items@.map_values(|o: JsonObject| o@),
                ) matches Some(rows) && page@ == list_page(
                    self.name@,
                    create_url(self.path@),
                    headers_of(fields_view(self.field_configs@)),
                    rows,
                ),
                Err(e) => e == AdminError::InternalError && rows_of(
                    self.path@,
                    self.id_field_id@,
                    fields_view(self.field_configs@),
                    items@.map_values(|o: JsonObject| o@),
                ) is None,
            },
    {
        let ghost fv = fields_view(self.field_configs@);
        let ghost iv = items@.map_values(|o: JsonObject| o@);
        let mut rows: Vec<AdminListTemplateRow> = Vec::new();
        let mut i: usize = 0;
        assert(iv.take(0) =~= Seq::<Members>::empty());
        while i < items.len()
            invariant
                i <= items@.len(),
                fv == fields_view(self.field_configs@),
                iv == items@.map_values(|o: JsonObject| o@),
                rows_of(self.path@, self.id_field_id@, fv, iv.take(i as int)) == Some(
                    rows@.map_values(|x: AdminListTemplateRow| row_view(x)),
                ),
            decreases items@.len() - i,
        {
            assert(iv.take(i + 1).drop_last() =~= iv.take(i as int));
            assert(iv.take(i + 1).last() == items@[i as int]@);
            match self.list_row(&items[i]) {
                Err(e) => {
                    proof {
                        lemma_rows_missing_stays(self.path@, self.id_field_id@, fv, iv, i + 1);
                    }
                    return Err(e);
                },
                Ok(row) => {
                    let ghost before = rows@;
                    rows.push(row);
                    assert(rows@.map_values(|x: AdminListTemplateRow| row_view(x)) =~= before.map_values(
                        |x: AdminListTemplateRow| row_view(x),
                    ).push(row_view(row)));
                },
            }
            i = i + 1;
        }
        assert(iv.take(items@.len() as int) =~= iv);
        let page = render_list_resource_view(self.name.clone(), self.create_url(), self.headers(), rows);
        Ok(page)
    }

    /// The page that shows one item.
    pub fn item_view(&self, item: &JsonObject) -> (r: Result<String, AdminError>)
        ensures
            match r {
                Ok(page) => render_all(fields_view(self.field_configs@), item@) matches Ok(ws) && page@
                    == view_page(self.name@, ws),
                Err(e) => render_all(fields_view(self.field_configs@), item@) == Err::<
                    Seq<Seq<char>>,
                    AdminError,
                >(e),
            },
    {
        let widgets = render_item(&self.field_configs, item)?;
        Ok(render_view_resource_view(self.name.clone(), widgets))
    }

    /// The creation form of the resource.
    pub fn create_view(&self) -> (r: String)
        ensures
            r@ == create_page(self.name@, create_url(self.path@), create_widgets(fields_view(self.field_configs@))),
    {
        let ghost fv = fields_view(self.field_configs@);
        let mut widgets: Vec<String> = Vec::new();
        let mut i: usize = 0;
        let empty = JsonValue::Null;
        assert(fv.take(0) =~= Seq::<FieldView>::empty());
        assert(strings_view(widgets@) =~= Seq::<Seq<char>>::empty());
        while i < self.field_configs.len()
            invariant
                i <= self.field_configs@.len(),
                fv == fields_view(self.field_configs@),
                empty@ == JsonData::Null,
                strings_view(widgets@) == create_widgets(fv.take(i as int)),
            decreases self.field_configs@.len() - i,
        {
            assert(fv.take(i + 1).drop_last() =~= fv.take(i as int));
            assert(fv.take(i + 1).last() == fv[i as int]);
            let f = &self.field_configs[i];
            if f.create_config.is_some() {
                let w = f.render(&empty).unwrap();
                let ghost before = widgets@;
                widgets.push(w);
                assert(strings_view(widgets@) =~= strings_view(before).push(w@));
            }
            i = i + 1;
        }
        assert(fv.take(self.field_configs@.len() as int) =~= fv);
        render_create_resource_view(self.name.clone(), self.create_url(), widgets)
    }
}

/// A missing key on a prefix of the fields leaves all of them without cells.
proof fn lemma_cells_missing_stays(fields: Seq<FieldView>, item: Members, n: int)
    requires
        0 <= n <= fields.len(),
        cells_of(fields.take(n), item) is None,
    ensures
        cells_of(fields, item) is None,
    decreases fields.len(),
{
    if n < fields.len() {
        assert(fields.drop_last().take(n) =~= fields.take(n));
        lemma_cells_missing_stays(fields.drop_last(), item, n);
    } else {
        assert(fields.take(n) =~= fields);
    }
}

/// An item without a row on a prefix leaves the whole list without rows.
proof fn lemma_rows_missing_stays(path: Seq<char>, id_field: Seq<char>, fields: Seq<FieldView>, items: Seq<Members>, n: int)
    requires
        0 <= n <= items.len(),
        rows_of(path, id_field, fields, items.take(n)) is None,
    ensures
        rows_of(path, id_field, fields, items) is None,
    decreases items.len(),
{
    if n < items.len() {
        assert(items.drop_last().take(n) =~= items.take(n));
        lemma_rows_missing_stays(path, id_field, fields, items.drop_last(), n);
    } else {
        assert(items.take(n) =~= items);
    }
}

} // verus!
