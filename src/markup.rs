use vstd::prelude::*;

verus! {

/// How one character is written in HTML text or an attribute value.
pub open spec fn escape_char(c: char) -> Seq<char> {
    if c == '&' {
        "&amp;"@
    } else if c == '<' {
        "&lt;"@
    } else if c == '>' {
        "&gt;"@
    } else if c == '"' {
        "&quot;"@
    } else if c == '\'' {
        "&#x27;"@
    } else {
        seq![c]
    }
}

/// `s` with every markup-significant character escaped.
pub open spec fn escape(s: Seq<char>) -> Seq<char>
    decreases s.len(),
{
    if s.len() == 0 {
        Seq::empty()
    } else {
        escape(s.drop_last()) + escape_char(s.last())
    }
}

/// The parts, one after another.
pub open spec fn concat_all(parts: Seq<Seq<char>>) -> Seq<char>
    decreases parts.len(),
{
    if parts.len() == 0 {
        Seq::empty()
    } else {
        concat_all(parts.drop_last()) + parts.last()
    }
}

/// Each part escaped and put between `open` and `close`, one after another.
pub open spec fn wrap_each(parts: Seq<Seq<char>>, open: Seq<char>, close: Seq<char>) -> Seq<char>
    decreases parts.len(),
{
    if parts.len() == 0 {
        Seq::empty()
    } else {
        wrap_each(parts.drop_last(), open, close) + open + escape(parts.last()) + close
    }
}

/// The views of a list of strings.
pub open spec fn strings_view(v: Seq<String>) -> Seq<Seq<char>> {
    v.map_values(|s: String| s@)
}

/// The escape sequence of `c`, when it needs one.
fn escape_sequence(c: char) -> (r: Option<&'static str>)
    ensures
        match r {
            Some(t) => t@ == escape_char(c),
            None => escape_char(c) == seq![c],
        },
{
    if c == '&' {
        Some("&amp;")
    } else if c == '<' {
        Some("&lt;")
    } else if c == '>' {
        Some("&gt;")
    } else if c == '"' {
        Some("&quot;")
    } else if c == '\'' {
        Some("&#x27;")
    } else {
        None
    }
}

/// Escapes `s` for use in HTML text or a quoted attribute value.
pub fn escape_html(s: &str) -> (r: String)
    ensures
        r@ == escape(s@),
{
    let n = s.unicode_len();
    let mut out = String::new();
    let mut i: usize = 0;
    while i < n
        invariant
            n == s@.len(),
            i <= n,
            out@ == escape(s@.take(i as int)),
        decreases n - i,
    {
        let c = s.get_char(i);
        match escape_sequence(c) {
            Some(t) => out.append(t),
            None => out.append(s.substring_char(i, i + 1)),
        }
        assert(s@.subrange(i as int, i + 1) =~= seq![c]);
        assert(s@.take(i + 1).drop_last() =~= s@.take(i as int));
        i = i + 1;
    }
    assert(s@.take(n as int) =~= s@);
    out
}

/// The strings, one after another.
fn join_all(parts: &Vec<String>) -> (r: String)
    ensures
        r@ == concat_all(strings_view(parts@)),
{
    let ghost v = strings_view(parts@);
    let mut out = String::new();
    let mut i: usize = 0;
    while i < parts.len()
        invariant
            i <= parts@.len(),
            v == strings_view(parts@),
            out@ == concat_all(v.take(i as int)),
        decreases parts@.len() - i,
    {
        out.append(parts[i].as_str());
        assert(v.take(i + 1).drop_last() =~= v.take(i as int));
        i = i + 1;
    }
    assert(v.take(parts@.len() as int) =~= v);
    out
}

/// Each string escaped and put between `open` and `close`.
fn wrap_all(parts: &Vec<String>, open: &str, close: &str) -> (r: String)
    ensures
        r@ == wrap_each(strings_view(parts@), open@, close@),
{
    let ghost v = strings_view(parts@);
    let mut out = String::new();
    let mut i: usize = 0;
    while i < parts.len()
        invariant
            i <= parts@.len(),
            v == strings_view(parts@),
            out@ == wrap_each(v.take(i as int), open@, close@),
        decreases parts@.len() - i,
    {
        out.append(open);
        let e = escape_html(parts[i].as_str());
        out.append(e.as_str());
        out.append(close);
        assert(v.take(i + 1).drop_last() =~= v.take(i as int));
        i = i + 1;
    }
    assert(v.take(parts@.len() as int) =~= v);
    out
}

/// A whole page around `body`, titled `title`.
pub open spec fn page(title: Seq<char>, body: Seq<char>) -> Seq<char> {
    "<!DOCTYPE html><html><head><meta charset=\"utf-8\"><title>"@ + escape(title)
        + "</title><link rel=\"stylesheet\" href=\"/assets/admin.css\"></head><body>"@ + body
        + "</body></html>"@
}

/// A level-one heading.
pub open spec fn heading(text: Seq<char>) -> Seq<char> {
    "<h1>"@ + escape(text) + "</h1>"@
}

fn page_html(title: &str, body: &str) -> (r: String)
    ensures
        r@ == page(title@, body@),
{
    let mut out = String::from_str("<!DOCTYPE html><html><head><meta charset=\"utf-8\"><title>");
    let t = escape_html(title);
    out.append(t.as_str());
    out.append("</title><link rel=\"stylesheet\" href=\"/assets/admin.css\"></head><body>");
    out.append(body);
    out.append("</body></html>");
    out
}

fn heading_html(text: &str) -> (r: String)
    ensures
        r@ == heading(text@),
{
    let mut out = String::from_str("<h1>");
    let t = escape_html(text);
    out.append(t.as_str());
    out.append("</h1>");
    out
}

/// The page that shows one item: its rendered field widgets in order.
pub open spec fn view_page(name: Seq<char>, widgets: Seq<Seq<char>>) -> Seq<char> {
    page(name, heading(name) + "<div class=\"fields\">"@ + concat_all(widgets) + "</div>"@)
}

/// Renders the page that shows one item of the resource named `resource_name`.
pub fn render_view_resource_view(resource_name: String, field_widgets: Vec<String>) -> (r: String)
    ensures
        r@ == view_page(resource_name@, strings_view(field_widgets@)),
{
    let mut body = heading_html(resource_name.as_str());
    body.append("<div class=\"fields\">");
    let w = join_all(&field_widgets);
    body.append(w.as_str());
    body.append("</div>");
    page_html(resource_name.as_str(), body.as_str())
}

/// The page with the creation form: the rendered input widgets, posted to
/// `endpoint`.
pub open spec fn create_page(name: Seq<char>, endpoint: Seq<char>, widgets: Seq<Seq<char>>) -> Seq<char> {
    page(
        name,
        heading(name) + "<form method=\"post\" action=\""@ + escape(endpoint) + "\">"@
            + concat_all(widgets) + "<button type=\"submit\">Create</button></form>"@,
    )
}

/// Renders the creation form of the resource named `resource_name`.
pub fn render_create_resource_view(
    resource_name: String,
    create_endpoint: String,
    field_widgets: Vec<String>,
) -> (r: String)
    ensures
        r@ == create_page(resource_name@, create_endpoint@, strings_view(field_widgets@)),
{
    let mut body = heading_html(resource_name.as_str());
    body.append("<form method=\"post\" action=\"");
    let e = escape_html(create_endpoint.as_str());
    body.append(e.as_str());
    body.append("\">");
    let w = join_all(&field_widgets);
    body.append(w.as_str());
    body.append("<button type=\"submit\">Create</button></form>");
    page_html(resource_name.as_str(), body.as_str())
}

/// The page shown when an item or resource does not exist.
pub open spec fn not_found_page() -> Seq<char> {
    page("Not found"@, heading("Not found"@))
}

/// Renders the page shown when an item or resource does not exist.
pub fn render_not_found_view() -> (r: String)
    ensures
        r@ == not_found_page(),
{
    let body = heading_html("Not found");
    page_html("Not found", body.as_str())
}

/// One row of the list page: the cells of one item and the link to its page.
#[derive(Debug, Clone, PartialEq)]
pub struct AdminListTemplateRow {
    pub data: Vec<String>,
    pub item_link: String,
}

/// The cells and the link of a row.
pub open spec fn row_view(r: AdminListTemplateRow) -> (Seq<Seq<char>>, Seq<char>) {
    (strings_view(r.data@), r.item_link@)
}

/// One table row: a link to the item, then its cells.
pub open spec fn row_markup(row: (Seq<Seq<char>>, Seq<char>)) -> Seq<char> {
    "<tr><td><a href=\""@ + escape(row.1) + "\">View</a></td>"@ + wrap_each(row.0, "<td>"@, "</td>"@)
        + "</tr>"@
}

/// The table rows, one after another.
pub open spec fn rows_markup(rows: Seq<(Seq<Seq<char>>, Seq<char>)>) -> Seq<char>
    decreases rows.len(),
{
    if rows.len() == 0 {
        Seq::empty()
    } else {
        rows_markup(rows.drop_last()) + row_markup(rows.last())
    }
}

/// The page that lists a resource's items under a row of headers.
pub open spec fn list_page(
    name: Seq<char>,
    endpoint: Seq<char>,
    headers: Seq<Seq<char>>,
    rows: Seq<(Seq<Seq<char>>, Seq<char>)>,
) -> Seq<char> {
    page(
        name,
        heading(name) + "<a href=\""@ + escape(endpoint) + "\">Create</a>"@
            + "<table><thead><tr><th></th>"@ + wrap_each(headers, "<th>"@, "</th>"@)
            + "</tr></thead><tbody>"@ + rows_markup(rows) + "</tbody></table>"@,
    )
}

fn row_html(row: &AdminListTemplateRow) -> (r: String)
    ensures
        r@ == row_markup(row_view(*row)),
{
    let mut out = String::from_str("<tr><td><a href=\"");
    let l = escape_html(row.item_link.as_str());
    out.append(l.as_str());
    out.append("\">View</a></td>");
    let cells = wrap_all(&row.data, "<td>", "</td>");
    out.append(cells.as_str());
    out.append("</tr>");
    out
}

/// Renders the list page of the resource named `resource_name`.
pub fn render_list_resource_view(
    resource_name: String,
    create_view_endpoint: String,
    headers: Vec<String>,
    rows: Vec<AdminListTemplateRow>,
) -> (r: String)
    ensures
        r@ == list_page(
            resource_name@,
            create_view_endpoint@,
            strings_view(headers@),
            rows@.map_values(|x: AdminListTemplateRow| row_view(x)),
        ),
{
    let ghost rv = rows@.map_values(|x: AdminListTemplateRow| row_view(x));
    let mut body_rows = String::new();
    let mut i: usize = 0;
    while i < rows.len()
        invariant
            i <= rows@.len(),
            rv == rows@.map_values(|x: AdminListTemplateRow| row_view(x)),
            body_rows@ == rows_markup(rv.take(i as int)),
        decreases rows@.len() - i,
    {
        let r = row_html(&rows[i]);
        body_rows.append(r.as_str());
        assert(rv.take(i + 1).drop_last() =~= rv.take(i as int));
        i = i + 1;
    }
    assert(rv.take(rows@.len() as int) =~= rv);
    let mut body = heading_html(resource_name.as_str());
    body.append("<a href=\"");
    let e = escape_html(create_view_endpoint.as_str());
    body.append(e.as_str());
    body.append("\">Create</a>");
    body.append("<table><thead><tr><th></th>");
    let h = wrap_all(&headers, "<th>", "</th>");
    body.append(h.as_str());
    body.append("</tr></thead><tbody>");
    body.append(body_rows.as_str());
    body.append("</tbody></table>");
    page_html(resource_name.as_str(), body.as_str())
}

} // verus!
