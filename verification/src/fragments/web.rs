//! The Razor and MVC index page, modal forms and their scripts, built from
//! an entity's fields.
use crate::fragments::backend::{is_stringy, raw_nav_short, strip_suffix_all};
use crate::fragments::classes::{ClassSources, class_text, first_string_prop, first_string_prop_exec};
use crate::models::{Field, FieldV, fields_view};
use crate::naming::{kebab, last_segment, lower_camel, plural, pluralize, to_kebab, to_lower_camel};
use crate::text::{
    chars_of, copy_str, ends_with_exec, eq_ignore_case, push_str, str_eq, string_of_range, trim,
    trim_end, trim_end_exec, trim_exec,
};
use vstd::prelude::*;

verus! {

broadcast use vstd::string::group_string_axioms;

pub open spec fn text_filter_field_spec(n: Seq<char>, e: Seq<char>) -> Seq<char> {
    "<abp-column size=\"_3\">\n  <abp-input asp-for=\""@ + n + "Filter\" label=\"@L[\""@ + e + ":"@ + n + "\"].Value\" />\n</abp-column>\n"@
}

fn text_filter_field(n: &str, e: &str) -> (r: String)
    ensures
        r@ == text_filter_field_spec(n@, e@),
{
    let mut r = String::new();
    push_str(&mut r, "<abp-column size=\"_3\">\n  <abp-input asp-for=\"");
    push_str(&mut r, n);
    push_str(&mut r, "Filter\" label=\"@L[\"");
    push_str(&mut r, e);
    push_str(&mut r, ":");
    push_str(&mut r, n);
    push_str(&mut r, "\"].Value\" />\n</abp-column>\n");
    r
}

pub open spec fn nav_filter_props_spec(n: Seq<char>) -> Seq<char> {
    "\n        [SelectItems(nameof("@ + n + "LookupList))]\n        public Guid "@ + n + "IdFilter { get; set; }\n        public List<SelectListItem> "@ + n + "LookupList { get; set; } = new List<SelectListItem> { new SelectListItem(string.Empty, \"\") };\n"@
}

fn nav_filter_props(n: &str) -> (r: String)
    ensures
        r@ == nav_filter_props_spec(n@),
{
    let mut r = String::new();
    push_str(&mut r, "\n        [SelectItems(nameof(");
    push_str(&mut r, n);
    push_str(&mut r, "LookupList))]\n        public Guid ");
    push_str(&mut r, n);
    push_str(&mut r, "IdFilter { get; set; }\n        public List<SelectListItem> ");
    push_str(&mut r, n);
    push_str(&mut r, "LookupList { get; set; } = new List<SelectListItem> { new SelectListItem(string.Empty, \"\") };\n");
    r
}

pub open spec fn onget_fill_spec(n: Seq<char>, el: Seq<char>) -> Seq<char> {
    "            "@ + n + "LookupList.AddRange((\n                await _"@ + el + "AppService.Get"@ + n + "LookupAsync(\n                    new LookupRequestDto { MaxResultCount = LimitedResultRequestDto.MaxMaxResultCount }\n                )).Items\n                .Select(t => new SelectListItem(t.DisplayName, t.Id.ToString()))\n                .ToList()\n            );\n"@
}

fn onget_fill(n: &str, el: &str) -> (r: String)
    ensures
        r@ == onget_fill_spec(n@, el@),
{
    let mut r = String::new();
    push_str(&mut r, "            ");
    push_str(&mut r, n);
    push_str(&mut r, "LookupList.AddRange((\n                await _");
    push_str(&mut r, el);
    push_str(&mut r, "AppService.Get");
    push_str(&mut r, n);
    push_str(&mut r, "LookupAsync(\n                    new LookupRequestDto { MaxResultCount = LimitedResultRequestDto.MaxMaxResultCount }\n                )).Items\n                .Select(t => new SelectListItem(t.DisplayName, t.Id.ToString()))\n                .ToList()\n            );\n");
    r
}

pub open spec fn select_filter_field_spec(e: Seq<char>, f: Seq<char>, n: Seq<char>) -> Seq<char> {
    "<abp-column size=\"_3\">\n  <div class=\"mb-3\">\n    <label class=\"form-label\">@L[\""@ + e + ":"@ + f + "\"].Value</label>\n    <select id=\""@ + n + "IdFilter\" name=\""@ + n + "IdFilter\" class=\"form-control select2\">\n    </select>\n  </div>\n</abp-column>\n"@
}

fn select_filter_field(e: &str, f: &str, n: &str) -> (r: String)
    ensures
        r@ == select_filter_field_spec(e@, f@, n@),
{
    let mut r = String::new();
    push_str(&mut r, "<abp-column size=\"_3\">\n  <div class=\"mb-3\">\n    <label class=\"form-label\">@L[\"");
    push_str(&mut r, e);
    push_str(&mut r, ":");
    push_str(&mut r, f);
    push_str(&mut r, "\"].Value</label>\n    <select id=\"");
    push_str(&mut r, n);
    push_str(&mut r, "IdFilter\" name=\"");
    push_str(&mut r, n);
    push_str(&mut r, "IdFilter\" class=\"form-control select2\">\n    </select>\n  </div>\n</abp-column>\n");
    r
}

pub open spec fn select2_nav_filter_spec(n: Seq<char>, endpoint: Seq<char>) -> Seq<char> {
    "  $('#"@ + n + "IdFilter').select2({\n    ajax: {\n      url: abp.appPath + '"@ + endpoint + "',\n      type: 'GET',\n      data: function (params) { return { filter: params.term, maxResultCount: 10 }; },\n      processResults: function (data) {\n        var mapped = _.map(data.items, function (item) { return { id: item.id, text: item.displayName }; });\n        return { results: [{ id: '', text: '' }].concat(mapped) };\n      }\n    }\n  });\n"@
}

fn select2_nav_filter(n: &str, endpoint: &str) -> (r: String)
    ensures
        r@ == select2_nav_filter_spec(n@, endpoint@),
{
    let mut r = String::new();
    push_str(&mut r, "  $('#");
    push_str(&mut r, n);
    push_str(&mut r, "IdFilter').select2({\n    ajax: {\n      url: abp.appPath + '");
    push_str(&mut r, endpoint);
    push_str(&mut r, "',\n      type: 'GET',\n      data: function (params) { return { filter: params.term, maxResultCount: 10 }; },\n      processResults: function (data) {\n        var mapped = _.map(data.items, function (item) { return { id: item.id, text: item.displayName }; });\n        return { results: [{ id: '', text: '' }].concat(mapped) };\n      }\n    }\n  });\n");
    r
}

pub open spec fn nav_create_spec(e: Seq<char>, n: Seq<char>, star: Seq<char>, req: Seq<char>) -> Seq<char> {
    "<div class=\"mb-3\">\n  <label for=\""@ + e + "_"@ + n + "\" class=\"form-label\">@L[\""@ + e + ":"@ + n + "\"].Value "@ + star + "</label>\n  <div class=\"form-group\">\n    <select id=\""@ + e + "_"@ + n + "\"\n            class=\"custom-select form-control\"\n            name=\""@ + e + "."@ + n + "\"\n            data-value=\"@Model."@ + e + "."@ + n + "\" "@ + req + ">\n    </select>\n    <span asp-validation-for=\""@ + e + "."@ + n + "\" class=\"text-danger\"></span>\n  </div>\n</div>\n"@
}

fn nav_create(e: &str, n: &str, star: &str, req: &str) -> (r: String)
    ensures
        r@ == nav_create_spec(e@, n@, star@, req@),
{
    let mut r = String::new();
    push_str(&mut r, "<div class=\"mb-3\">\n  <label for=\"");
    push_str(&mut r, e);
    push_str(&mut r, "_");
    push_str(&mut r, n);
    push_str(&mut r, "\" class=\"form-label\">@L[\"");
    push_str(&mut r, e);
    push_str(&mut r, ":");
    push_str(&mut r, n);
    push_str(&mut r, "\"].Value ");
    push_str(&mut r, star);
    push_str(&mut r, "</label>\n  <div class=\"form-group\">\n    <select id=\"");
    push_str(&mut r, e);
    push_str(&mut r, "_");
    push_str(&mut r, n);
    push_str(&mut r, "\"\n            class=\"custom-select form-control\"\n            name=\"");
    push_str(&mut r, e);
    push_str(&mut r, ".");
    push_str(&mut r, n);
    push_str(&mut r, "\"\n            data-value=\"@Model.");
    push_str(&mut r, e);
    push_str(&mut r, ".");
    push_str(&mut r, n);
    push_str(&mut r, "\" ");
    push_str(&mut r, req);
    push_str(&mut r, ">\n    </select>\n    <span asp-validation-for=\"");
    push_str(&mut r, e);
    push_str(&mut r, ".");
    push_str(&mut r, n);
    push_str(&mut r, "\" class=\"text-danger\"></span>\n  </div>\n</div>\n");
    r
}

pub open spec fn nav_edit_spec(e: Seq<char>, n: Seq<char>, star: Seq<char>, req: Seq<char>, ns: Seq<char>) -> Seq<char> {
    "<div class=\"mb-3\">\n  <div class=\"form-group\">\n    <label class=\"form-label\" for=\""@ + e + "_"@ + n + "\">@L[\""@ + e + ":"@ + n + "\"].Value "@ + star + "</label>\n    <select id=\""@ + e + "_"@ + n + "\"\n            name=\""@ + e + "."@ + n + "\"\n            class=\"custom-select form-control\"\n            data-value=\"@Model."@ + e + "."@ + n + "\" "@ + req + ">\n      @if (Model."@ + ns + " != null)\n      {\n        <option value=\"@Model."@ + e + "."@ + n + "\">@Model."@ + ns + ".Name</option>\n      }\n    </select>\n    <span asp-validation-for=\""@ + e + "."@ + n + "\" class=\"text-danger\"></span>\n  </div>\n</div>\n"@
}

fn nav_edit(e: &str, n: &str, star: &str, req: &str, ns: &str) -> (r: String)
    ensures
        r@ == nav_edit_spec(e@, n@, star@, req@, ns@),
{
    let mut r = String::new();
    push_str(&mut r, "<div class=\"mb-3\">\n  <div class=\"form-group\">\n    <label class=\"form-label\" for=\"");
    push_str(&mut r, e);
    push_str(&mut r, "_");
    push_str(&mut r, n);
    push_str(&mut r, "\">@L[\"");
    push_str(&mut r, e);
    push_str(&mut r, ":");
    push_str(&mut r, n);
    push_str(&mut r, "\"].Value ");
    push_str(&mut r, star);
    push_str(&mut r, "</label>\n    <select id=\"");
    push_str(&mut r, e);
    push_str(&mut r, "_");
    push_str(&mut r, n);
    push_str(&mut r, "\"\n            name=\"");
    push_str(&mut r, e);
    push_str(&mut r, ".");
    push_str(&mut r, n);
    push_str(&mut r, "\"\n            class=\"custom-select form-control\"\n            data-value=\"@Model.");
    push_str(&mut r, e);
    push_str(&mut r, ".");
    push_str(&mut r, n);
    push_str(&mut r, "\" ");
    push_str(&mut r, req);
    push_str(&mut r, ">\n      @if (Model.");
    push_str(&mut r, ns);
    push_str(&mut r, " != null)\n      {\n        <option value=\"@Model.");
    push_str(&mut r, e);
    push_str(&mut r, ".");
    push_str(&mut r, n);
    push_str(&mut r, "\">@Model.");
    push_str(&mut r, ns);
    push_str(&mut r, ".Name</option>\n      }\n    </select>\n    <span asp-validation-for=\"");
    push_str(&mut r, e);
    push_str(&mut r, ".");
    push_str(&mut r, n);
    push_str(&mut r, "\" class=\"text-danger\"></span>\n  </div>\n</div>\n");
    r
}

pub open spec fn nav_detail_spec(e: Seq<char>, n: Seq<char>, star: Seq<char>, ns: Seq<char>) -> Seq<char> {
    "<div class=\"mb-3\">\n  <div class=\"form-group\">\n    <label class=\"form-label\" for=\""@ + e + "_"@ + n + "\">@L[\""@ + e + ":"@ + n + "\"].Value "@ + star + "</label>\n    <select id=\""@ + e + "_"@ + n + "\"\n            name=\""@ + e + "."@ + n + "\"\n            class=\"custom-select form-control\"\n            data-value=\"@Model."@ + e + "."@ + n + "\"\n            disabled=\"true\">\n      @if (Model."@ + ns + " != null)\n      {\n        <option value=\"@Model."@ + e + "."@ + n + "\">@Model."@ + ns + ".Name</option>\n      }\n    </select>\n  </div>\n</div>\n"@
}

fn nav_detail(e: &str, n: &str, star: &str, ns: &str) -> (r: String)
    ensures
        r@ == nav_detail_spec(e@, n@, star@, ns@),
{
    let mut r = String::new();
    push_str(&mut r, "<div class=\"mb-3\">\n  <div class=\"form-group\">\n    <label class=\"form-label\" for=\"");
    push_str(&mut r, e);
    push_str(&mut r, "_");
    push_str(&mut r, n);
    push_str(&mut r, "\">@L[\"");
    push_str(&mut r, e);
    push_str(&mut r, ":");
    push_str(&mut r, n);
    push_str(&mut r, "\"].Value ");
    push_str(&mut r, star);
    push_str(&mut r, "</label>\n    <select id=\"");
    push_str(&mut r, e);
    push_str(&mut r, "_");
    push_str(&mut r, n);
    push_str(&mut r, "\"\n            name=\"");
    push_str(&mut r, e);
    push_str(&mut r, ".");
    push_str(&mut r, n);
    push_str(&mut r, "\"\n            class=\"custom-select form-control\"\n            data-value=\"@Model.");
    push_str(&mut r, e);
    push_str(&mut r, ".");
    push_str(&mut r, n);
    push_str(&mut r, "\"\n            disabled=\"true\">\n      @if (Model.");
    push_str(&mut r, ns);
    push_str(&mut r, " != null)\n      {\n        <option value=\"@Model.");
    push_str(&mut r, e);
    push_str(&mut r, ".");
    push_str(&mut r, n);
    push_str(&mut r, "\">@Model.");
    push_str(&mut r, ns);
    push_str(&mut r, ".Name</option>\n      }\n    </select>\n  </div>\n</div>\n");
    r
}

pub open spec fn select2_create_spec(e: Seq<char>, n: Seq<char>, endpoint: Seq<char>) -> Seq<char> {
    "$('#"@ + e + "_"@ + n + "').select2({\n  dropdownParent: $('#"@ + e + "CreateModal'),\n  ajax: {\n    url: abp.appPath + '"@ + endpoint + "',\n    type: 'GET',\n    data: function (params) { return { filter: params.term, maxResultCount: 10 }; },\n    processResults: function (data) {\n      var mapped = _.map(data.items, function (item) { return { id: item.id, text: item.displayName }; });\n      return { results: mapped };\n    }\n  }\n});\n"@
}

fn select2_create(e: &str, n: &str, endpoint: &str) -> (r: String)
    ensures
        r@ == select2_create_spec(e@, n@, endpoint@),
{
    let mut r = String::new();
    push_str(&mut r, "$('#");
    push_str(&mut r, e);
    push_str(&mut r, "_");
    push_str(&mut r, n);
    push_str(&mut r, "').select2({\n  dropdownParent: $('#");
    push_str(&mut r, e);
    push_str(&mut r, "CreateModal'),\n  ajax: {\n    url: abp.appPath + '");
    push_str(&mut r, endpoint);
    push_str(&mut r, "',\n    type: 'GET',\n    data: function (params) { return { filter: params.term, maxResultCount: 10 }; },\n    processResults: function (data) {\n      var mapped = _.map(data.items, function (item) { return { id: item.id, text: item.displayName }; });\n      return { results: mapped };\n    }\n  }\n});\n");
    r
}

pub open spec fn select2_edit_spec(e: Seq<char>, n: Seq<char>, endpoint: Seq<char>) -> Seq<char> {
    "$('#"@ + e + "_"@ + n + "').select2({\n  dropdownParent: $('#"@ + e + "EditModal'),\n  ajax: {\n    url: abp.appPath + '"@ + endpoint + "',\n    type: 'GET',\n    data: function (params) { return { filter: params.term, maxResultCount: 10 }; },\n    processResults: function (data) {\n      var mapped = _.map(data.items, function (item) { return { id: item.id, text: item.displayName }; });\n      return { results: mapped };\n    }\n  }\n});\n"@
}

fn select2_edit(e: &str, n: &str, endpoint: &str) -> (r: String)
    ensures
        r@ == select2_edit_spec(e@, n@, endpoint@),
{
    let mut r = String::new();
    push_str(&mut r, "$('#");
    push_str(&mut r, e);
    push_str(&mut r, "_");
    push_str(&mut r, n);
    push_str(&mut r, "').select2({\n  dropdownParent: $('#");
    push_str(&mut r, e);
    push_str(&mut r, "EditModal'),\n  ajax: {\n    url: abp.appPath + '");
    push_str(&mut r, endpoint);
    push_str(&mut r, "',\n    type: 'GET',\n    data: function (params) { return { filter: params.term, maxResultCount: 10 }; },\n    processResults: function (data) {\n      var mapped = _.map(data.items, function (item) { return { id: item.id, text: item.displayName }; });\n      return { results: mapped };\n    }\n  }\n});\n");
    r
}

pub open spec fn select2_detail_spec(e: Seq<char>, n: Seq<char>, endpoint: Seq<char>) -> Seq<char> {
    "$('#"@ + e + "_"@ + n + "').select2({\n  dropdownParent: $('#"@ + e + "DetailModal'),\n  ajax: {\n    url: abp.appPath + '"@ + endpoint + "',\n    type: 'GET',\n    data: function (params) { return { filter: params.term, maxResultCount: 10 }; },\n    processResults: function (data) {\n      var mapped = _.map(data.items, function (item) { return { id: item.id, text: item.displayName }; });\n      return { results: mapped };\n    }\n  }\n}).prop('disabled', true);\n"@
}

fn select2_detail(e: &str, n: &str, endpoint: &str) -> (r: String)
    ensures
        r@ == select2_detail_spec(e@, n@, endpoint@),
{
    let mut r = String::new();
    push_str(&mut r, "$('#");
    push_str(&mut r, e);
    push_str(&mut r, "_");
    push_str(&mut r, n);
    push_str(&mut r, "').select2({\n  dropdownParent: $('#");
    push_str(&mut r, e);
    push_str(&mut r, "DetailModal'),\n  ajax: {\n    url: abp.appPath + '");
    push_str(&mut r, endpoint);
    push_str(&mut r, "',\n    type: 'GET',\n    data: function (params) { return { filter: params.term, maxResultCount: 10 }; },\n    processResults: function (data) {\n      var mapped = _.map(data.items, function (item) { return { id: item.id, text: item.displayName }; });\n      return { results: mapped };\n    }\n  }\n}).prop('disabled', true);\n");
    r
}

pub open spec fn string_filter_prop_spec(n: Seq<char>) -> Seq<char> {
    "        public string? "@ + n + "Filter { get; set; }\n\n"@
}

fn string_filter_prop(n: &str) -> (r: String)
    ensures
        r@ == string_filter_prop_spec(n@),
{
    let mut r = String::new();
    push_str(&mut r, "        public string? ");
    push_str(&mut r, n);
    push_str(&mut r, "Filter { get; set; }\n\n");
    r
}

pub open spec fn nav_filter_js_spec(nl: Seq<char>, n: Seq<char>) -> Seq<char> {
    "      "@ + nl + "Id: $('#"@ + n + "IdFilter').val(),\n"@
}

fn nav_filter_js(nl: &str, n: &str) -> (r: String)
    ensures
        r@ == nav_filter_js_spec(nl@, n@),
{
    let mut r = String::new();
    push_str(&mut r, "      ");
    push_str(&mut r, nl);
    push_str(&mut r, "Id: $('#");
    push_str(&mut r, n);
    push_str(&mut r, "IdFilter').val(),\n");
    r
}

pub open spec fn nav_query_pair_spec(nl: Seq<char>) -> Seq<char> {
    "          { name: '"@ + nl + "Id', value: input."@ + nl + "Id },\n"@
}

fn nav_query_pair(nl: &str) -> (r: String)
    ensures
        r@ == nav_query_pair_spec(nl@),
{
    let mut r = String::new();
    push_str(&mut r, "          { name: '");
    push_str(&mut r, nl);
    push_str(&mut r, "Id', value: input.");
    push_str(&mut r, nl);
    push_str(&mut r, "Id },\n");
    r
}

pub open spec fn nav_clear_spec(n: Seq<char>) -> Seq<char> {
    "    (function(){ const $el=$('#"@ + n + "IdFilter'); if($el.length) $el.val('').trigger('change'); })();\n"@
}

fn nav_clear(n: &str) -> (r: String)
    ensures
        r@ == nav_clear_spec(n@),
{
    let mut r = String::new();
    push_str(&mut r, "    (function(){ const $el=$('#");
    push_str(&mut r, n);
    push_str(&mut r, "IdFilter'); if($el.length) $el.val('').trigger('change'); })();\n");
    r
}

pub open spec fn string_filter_js_spec(k: Seq<char>, id: Seq<char>) -> Seq<char> {
    "      "@ + k + ": $(\"#"@ + id + "\").val(),\n"@
}

fn string_filter_js(k: &str, id: &str) -> (r: String)
    ensures
        r@ == string_filter_js_spec(k@, id@),
{
    let mut r = String::new();
    push_str(&mut r, "      ");
    push_str(&mut r, k);
    push_str(&mut r, ": $(\"#");
    push_str(&mut r, id);
    push_str(&mut r, "\").val(),\n");
    r
}

pub open spec fn string_query_pair_spec(k: Seq<char>) -> Seq<char> {
    "          { name: '"@ + k + "', value: input."@ + k + " },\n"@
}

fn string_query_pair(k: &str) -> (r: String)
    ensures
        r@ == string_query_pair_spec(k@),
{
    let mut r = String::new();
    push_str(&mut r, "          { name: '");
    push_str(&mut r, k);
    push_str(&mut r, "', value: input.");
    push_str(&mut r, k);
    push_str(&mut r, " },\n");
    r
}

pub open spec fn string_clear_spec(id: Seq<char>) -> Seq<char> {
    "    $(\"#"@ + id + "\").val(\"\");\n"@
}

fn string_clear(id: &str) -> (r: String)
    ensures
        r@ == string_clear_spec(id@),
{
    let mut r = String::new();
    push_str(&mut r, "    $(\"#");
    push_str(&mut r, id);
    push_str(&mut r, "\").val(\"\");\n");
    r
}

pub open spec fn column_th_spec(e: Seq<char>, f: Seq<char>) -> Seq<char> {
    "          <th>@L[\""@ + e + ":"@ + f + "\"].Value</th>\n"@
}

fn column_th(e: &str, f: &str) -> (r: String)
    ensures
        r@ == column_th_spec(e@, f@),
{
    let mut r = String::new();
    push_str(&mut r, "          <th>@L[\"");
    push_str(&mut r, e);
    push_str(&mut r, ":");
    push_str(&mut r, f);
    push_str(&mut r, "\"].Value</th>\n");
    r
}

pub open spec fn column_nav_spec(nav: Seq<char>, disp: Seq<char>) -> Seq<char> {
    "    { data: \""@ + nav + "."@ + disp + "\", defaultContent: \"\", render: DataTable.render.text() },\n"@
}

fn column_nav(nav: &str, disp: &str) -> (r: String)
    ensures
        r@ == column_nav_spec(nav@, disp@),
{
    let mut r = String::new();
    push_str(&mut r, "    { data: \"");
    push_str(&mut r, nav);
    push_str(&mut r, ".");
    push_str(&mut r, disp);
    push_str(&mut r, "\", defaultContent: \"\", render: DataTable.render.text() },\n");
    r
}

pub open spec fn column_plain_spec(el: Seq<char>, fl: Seq<char>) -> Seq<char> {
    "    { data: \""@ + el + "."@ + fl + "\", defaultContent: \"\", render: DataTable.render.text() },\n"@
}

fn column_plain(el: &str, fl: &str) -> (r: String)
    ensures
        r@ == column_plain_spec(el@, fl@),
{
    let mut r = String::new();
    push_str(&mut r, "    { data: \"");
    push_str(&mut r, el);
    push_str(&mut r, ".");
    push_str(&mut r, fl);
    push_str(&mut r, "\", defaultContent: \"\", render: DataTable.render.text() },\n");
    r
}

pub open spec fn input_textarea_spec(e: Seq<char>, n: Seq<char>, label: Seq<char>) -> Seq<char> {
    "<abp-input asp-for=\""@ + e + "."@ + n + "\" text-area label=\""@ + label + "\" />"@
}

fn input_textarea(e: &str, n: &str, label: &str) -> (r: String)
    ensures
        r@ == input_textarea_spec(e@, n@, label@),
{
    let mut r = String::new();
    push_str(&mut r, "<abp-input asp-for=\"");
    push_str(&mut r, e);
    push_str(&mut r, ".");
    push_str(&mut r, n);
    push_str(&mut r, "\" text-area label=\"");
    push_str(&mut r, label);
    push_str(&mut r, "\" />");
    r
}

pub open spec fn input_textarea_detail_spec(e: Seq<char>, n: Seq<char>, label: Seq<char>) -> Seq<char> {
    "<abp-input asp-for=\""@ + e + "."@ + n + "\" text-area label=\""@ + label + "\" disabled=\"true\" />"@
}

fn input_textarea_detail(e: &str, n: &str, label: &str) -> (r: String)
    ensures
        r@ == input_textarea_detail_spec(e@, n@, label@),
{
    let mut r = String::new();
    push_str(&mut r, "<abp-input asp-for=\"");
    push_str(&mut r, e);
    push_str(&mut r, ".");
    push_str(&mut r, n);
    push_str(&mut r, "\" text-area label=\"");
    push_str(&mut r, label);
    push_str(&mut r, "\" disabled=\"true\" />");
    r
}

pub open spec fn input_date_spec(e: Seq<char>, n: Seq<char>, label: Seq<char>) -> Seq<char> {
    "<abp-date-picker asp-for=\""@ + e + "."@ + n + "\" label=\""@ + label + "\" single-open-and-clear-button=\"false\" week-numbers=\"Iso\" time-picker=\"true\" />\n"@
}

fn input_date(e: &str, n: &str, label: &str) -> (r: String)
    ensures
        r@ == input_date_spec(e@, n@, label@),
{
    let mut r = String::new();
    push_str(&mut r, "<abp-date-picker asp-for=\"");
    push_str(&mut r, e);
    push_str(&mut r, ".");
    push_str(&mut r, n);
    push_str(&mut r, "\" label=\"");
    push_str(&mut r, label);
    push_str(&mut r, "\" single-open-and-clear-button=\"false\" week-numbers=\"Iso\" time-picker=\"true\" />\n");
    r
}

pub open spec fn input_date_detail_spec(e: Seq<char>, n: Seq<char>, label: Seq<char>) -> Seq<char> {
    "<abp-date-picker asp-for=\""@ + e + "."@ + n + "\" label=\""@ + label + "\" single-open-and-clear-button=\"false\" week-numbers=\"Iso\" time-picker=\"true\" disabled=\"true\" />\n"@
}

fn input_date_detail(e: &str, n: &str, label: &str) -> (r: String)
    ensures
        r@ == input_date_detail_spec(e@, n@, label@),
{
    let mut r = String::new();
    push_str(&mut r, "<abp-date-picker asp-for=\"");
    push_str(&mut r, e);
    push_str(&mut r, ".");
    push_str(&mut r, n);
    push_str(&mut r, "\" label=\"");
    push_str(&mut r, label);
    push_str(&mut r, "\" single-open-and-clear-button=\"false\" week-numbers=\"Iso\" time-picker=\"true\" disabled=\"true\" />\n");
    r
}

pub open spec fn input_plain_spec(e: Seq<char>, n: Seq<char>, label: Seq<char>) -> Seq<char> {
    "<abp-input asp-for=\""@ + e + "."@ + n + "\" label=\""@ + label + "\" />\n"@
}

fn input_plain(e: &str, n: &str, label: &str) -> (r: String)
    ensures
        r@ == input_plain_spec(e@, n@, label@),
{
    let mut r = String::new();
    push_str(&mut r, "<abp-input asp-for=\"");
    push_str(&mut r, e);
    push_str(&mut r, ".");
    push_str(&mut r, n);
    push_str(&mut r, "\" label=\"");
    push_str(&mut r, label);
    push_str(&mut r, "\" />\n");
    r
}

pub open spec fn input_plain_detail_spec(e: Seq<char>, n: Seq<char>, label: Seq<char>) -> Seq<char> {
    "<abp-input asp-for=\""@ + e + "."@ + n + "\" label=\""@ + label + "\" disabled=\"true\" />\n"@
}

fn input_plain_detail(e: &str, n: &str, label: &str) -> (r: String)
    ensures
        r@ == input_plain_detail_spec(e@, n@, label@),
{
    let mut r = String::new();
    push_str(&mut r, "<abp-input asp-for=\"");
    push_str(&mut r, e);
    push_str(&mut r, ".");
    push_str(&mut r, n);
    push_str(&mut r, "\" label=\"");
    push_str(&mut r, label);
    push_str(&mut r, "\" disabled=\"true\" />\n");
    r
}

pub open spec fn nav_dto_spec(ns: Seq<char>) -> Seq<char> {
    "public "@ + ns + "Dto "@ + ns + " { get; set; }\n"@
}

fn nav_dto(ns: &str) -> (r: String)
    ensures
        r@ == nav_dto_spec(ns@),
{
    let mut r = String::new();
    push_str(&mut r, "public ");
    push_str(&mut r, ns);
    push_str(&mut r, "Dto ");
    push_str(&mut r, ns);
    push_str(&mut r, " { get; set; }\n");
    r
}

pub open spec fn nav_dto_mapping_spec(ns: Seq<char>, el: Seq<char>) -> Seq<char> {
    ns + " = "@ + el + "WithNavigationPropertiesDto."@ + ns + ";\n"@
}

fn nav_dto_mapping(ns: &str, el: &str) -> (r: String)
    ensures
        r@ == nav_dto_mapping_spec(ns@, el@),
{
    let mut r = String::new();
    push_str(&mut r, ns);
    push_str(&mut r, " = ");
    push_str(&mut r, el);
    push_str(&mut r, "WithNavigationPropertiesDto.");
    push_str(&mut r, ns);
    push_str(&mut r, ";\n");
    r
}

/* ------------------------------ SPECIFICATION ------------------------------ */

/// A `Guid` field with a navigation target.
pub open spec fn web_nav(f: FieldV) -> bool {
    f.navigation is Some && f.ftype == "Guid"@
}

pub open spec fn lookup_endpoint(entity: Seq<char>, ns: Seq<char>) -> Seq<char> {
    "api/app/"@ + kebab(plural(entity)) + "/"@ + kebab(ns) + "-lookup"@
}

pub open spec fn form_label(entity: Seq<char>, f: FieldV) -> Seq<char> {
    "@L[\""@ + entity + ":"@ + f.name + "\"].Value"@ + if f.required {
        " *"@
    } else {
        Seq::empty()
    }
}

pub enum WebPart {
    IndexCsNavProps,
    OnGetFill,
    IndexFilterFields,
    Select2NavFilters,
    NavFiltersJs,
    NavQueryPairs,
    NavClear,
    StringFiltersJs,
    StringQueryPairs,
    StringClear,
    ColumnFields,
    DatatableColumns,
    FormCreate,
    FormEdit,
    FormDetail,
    Select2Create,
    Select2Edit,
    Select2Detail,
    NavDtos,
    NavDtoMappings,
}

/// A plain form control: a text area, a date picker or an input.
pub open spec fn plain_control(entity: Seq<char>, f: FieldV, detail: bool) -> Seq<char> {
    let label = form_label(entity, f);
    let t = f.ftype;
    if t == "textarea"@ || t == "Textarea"@ {
        (if detail {
            input_textarea_detail_spec(entity, f.name, label)
        } else {
            input_textarea_spec(entity, f.name, label)
        }) + "\n"@
    } else if t == "DateTime"@ || t == "datetime"@ {
        if detail {
            input_date_detail_spec(entity, f.name, label)
        } else {
            input_date_spec(entity, f.name, label)
        }
    } else if detail {
        input_plain_detail_spec(entity, f.name, label)
    } else {
        input_plain_spec(entity, f.name, label)
    }
}

pub open spec fn web_part(entity: Seq<char>, srcs: Seq<(Seq<char>, Seq<char>)>, f: FieldV, p: WebPart) -> Seq<char> {
    let ns = raw_nav_short(f);
    let text_filter = is_stringy(f) && f.filterable;
    let nav_filter = web_nav(f) && f.filterable;
    let star = if f.required {
        "*"@
    } else {
        Seq::empty()
    };
    let req = if f.required {
        "required"@
    } else {
        Seq::empty()
    };
    let endpoint = lookup_endpoint(entity, ns);
    match p {
        WebPart::IndexCsNavProps => (if text_filter {
            string_filter_prop_spec(f.name)
        } else {
            Seq::empty()
        }) + if nav_filter {
            nav_filter_props_spec(ns)
        } else {
            Seq::empty()
        },
        WebPart::OnGetFill => if nav_filter {
            onget_fill_spec(ns, lower_camel(entity))
        } else {
            Seq::empty()
        },
        WebPart::IndexFilterFields => (if text_filter {
            text_filter_field_spec(f.name, entity)
        } else {
            Seq::empty()
        }) + if nav_filter {
            select_filter_field_spec(entity, f.name, ns)
        } else {
            Seq::empty()
        },
        WebPart::Select2NavFilters => if nav_filter {
            select2_nav_filter_spec(ns, endpoint)
        } else {
            Seq::empty()
        },
        WebPart::NavFiltersJs => if nav_filter {
            nav_filter_js_spec(lower_camel(ns), ns)
        } else {
            Seq::empty()
        },
        WebPart::NavQueryPairs => if nav_filter {
            nav_query_pair_spec(lower_camel(ns))
        } else {
            Seq::empty()
        },
        WebPart::NavClear => if nav_filter {
            nav_clear_spec(ns)
        } else {
            Seq::empty()
        },
        WebPart::StringFiltersJs => if text_filter {
            string_filter_js_spec(lower_camel(f.name), f.name + "Filter"@)
        } else {
            Seq::empty()
        },
        WebPart::StringQueryPairs => if text_filter {
            string_query_pair_spec(lower_camel(f.name))
        } else {
            Seq::empty()
        },
        WebPart::StringClear => if text_filter {
            string_clear_spec(f.name + "Filter"@)
        } else {
            Seq::empty()
        },
        WebPart::ColumnFields => if f.show_in_ui {
            column_th_spec(entity, f.name)
        } else {
            Seq::empty()
        },
        WebPart::DatatableColumns => if !f.show_in_ui {
            Seq::empty()
        } else if web_nav(f) {
            column_nav_spec(
                lower_camel(ns),
                lower_camel(first_string_prop(class_text(srcs, f.navigation->Some_0))),
            )
        } else {
            column_plain_spec(lower_camel(entity), lower_camel(f.name))
        },
        WebPart::FormCreate => if web_nav(f) {
            nav_create_spec(entity, f.name, star, req)
        } else {
            plain_control(entity, f, false)
        },
        WebPart::FormEdit => if web_nav(f) {
            nav_edit_spec(entity, f.name, star, req, ns)
        } else {
            plain_control(entity, f, false)
        },
        WebPart::FormDetail => if web_nav(f) {
            nav_detail_spec(entity, f.name, star, ns)
        } else {
            plain_control(entity, f, true)
        },
        WebPart::Select2Create => if web_nav(f) {
            select2_create_spec(entity, f.name, endpoint)
        } else {
            Seq::empty()
        },
        WebPart::Select2Edit => if web_nav(f) {
            select2_edit_spec(entity, f.name, endpoint)
        } else {
            Seq::empty()
        },
        WebPart::Select2Detail => if web_nav(f) {
            select2_detail_spec(entity, f.name, endpoint)
        } else {
            Seq::empty()
        },
        WebPart::NavDtos => if web_nav(f) {
            nav_dto_spec(ns)
        } else {
            Seq::empty()
        },
        WebPart::NavDtoMappings => if web_nav(f) {
            nav_dto_mapping_spec(ns, lower_camel(entity))
        } else {
            Seq::empty()
        },
    }
}

/// The contributions of all fields to a part, in field order.
#[verifier::opaque]
pub open spec fn web_gather(entity: Seq<char>, srcs: Seq<(Seq<char>, Seq<char>)>, fs: Seq<FieldV>, p: WebPart) -> Seq<char>
    decreases fs.len(),
{
    if fs.len() == 0 {
        Seq::empty()
    } else {
        web_gather(entity, srcs, fs.drop_last(), p) + web_part(entity, srcs, fs.last(), p)
    }
}

/* ------------------------------ COMPUTATION ------------------------------ */

fn raw_ns_of(f: &Field) -> (r: String)
    ensures
        r@ == raw_nav_short(f@),
{
    match &f.navigation {
        Some(n) => last_segment(n.as_str()),
        None => String::new(),
    }
}

fn endpoint_of(entity: &str, ns: &str) -> (r: String)
    ensures
        r@ == lookup_endpoint(entity@, ns@),
{
    let mut r = copy_str("api/app/");
    push_str(&mut r, to_kebab(pluralize(entity).as_str()).as_str());
    push_str(&mut r, "/");
    push_str(&mut r, to_kebab(ns).as_str());
    push_str(&mut r, "-lookup");
    r
}

fn label_of(entity: &str, f: &Field) -> (r: String)
    ensures
        r@ == form_label(entity@, f@),
{
    let mut r = copy_str("@L[\"");
    push_str(&mut r, entity);
    push_str(&mut r, ":");
    push_str(&mut r, f.name.as_str());
    push_str(&mut r, "\"].Value");
    if f.required {
        push_str(&mut r, " *");
    }
    proof {
        reveal_strlit("");
    }
    r
}

fn plain_control_exec(entity: &str, f: &Field, detail: bool) -> (r: String)
    ensures
        r@ == plain_control(entity@, f@, detail),
{
    let label = label_of(entity, f);
    let t = f.ftype.as_str();
    if str_eq(t, "textarea") || str_eq(t, "Textarea") {
        let mut r = if detail {
            input_textarea_detail(entity, f.name.as_str(), label.as_str())
        } else {
            input_textarea(entity, f.name.as_str(), label.as_str())
        };
        push_str(&mut r, "\n");
        r
    } else if str_eq(t, "DateTime") || str_eq(t, "datetime") {
        if detail {
            input_date_detail(entity, f.name.as_str(), label.as_str())
        } else {
            input_date(entity, f.name.as_str(), label.as_str())
        }
    } else if detail {
        input_plain_detail(entity, f.name.as_str(), label.as_str())
    } else {
        input_plain(entity, f.name.as_str(), label.as_str())
    }
}

fn is_stringy_exec(f: &Field) -> (r: bool)
    ensures
        r == is_stringy(f@),
{
    str_eq(f.ftype.as_str(), "string") || eq_ignore_case(f.ftype.as_str(), "textarea")
}

/// The contributions of the fields seen so far.
struct WebAcc {
    cs_nav_props: String,
    onget: String,
    filter_fields: String,
    select2_filters: String,
    nav_js: String,
    nav_pairs: String,
    nav_clear: String,
    string_js: String,
    string_pairs: String,
    string_clear: String,
    columns: String,
    datatable: String,
    create: String,
    edit: String,
    detail: String,
    select2_create: String,
    select2_edit: String,
    select2_detail: String,
    nav_dtos: String,
    nav_mappings: String,
}

spec fn web_acc_holds(a: WebAcc, e: Seq<char>, s: Seq<(Seq<char>, Seq<char>)>, fs: Seq<FieldV>) -> bool {
    &&& a.cs_nav_props@ == web_gather(e, s, fs, WebPart::IndexCsNavProps)
    &&& a.onget@ == web_gather(e, s, fs, WebPart::OnGetFill)
    &&& a.filter_fields@ == web_gather(e, s, fs, WebPart::IndexFilterFields)
    &&& a.select2_filters@ == web_gather(e, s, fs, WebPart::Select2NavFilters)
    &&& a.nav_js@ == web_gather(e, s, fs, WebPart::NavFiltersJs)
    &&& a.nav_pairs@ == web_gather(e, s, fs, WebPart::NavQueryPairs)
    &&& a.nav_clear@ == web_gather(e, s, fs, WebPart::NavClear)
    &&& a.string_js@ == web_gather(e, s, fs, WebPart::StringFiltersJs)
    &&& a.string_pairs@ == web_gather(e, s, fs, WebPart::StringQueryPairs)
    &&& a.string_clear@ == web_gather(e, s, fs, WebPart::StringClear)
    &&& a.columns@ == web_gather(e, s, fs, WebPart::ColumnFields)
    &&& a.datatable@ == web_gather(e, s, fs, WebPart::DatatableColumns)
    &&& a.create@ == web_gather(e, s, fs, WebPart::FormCreate)
    &&& a.edit@ == web_gather(e, s, fs, WebPart::FormEdit)
    &&& a.detail@ == web_gather(e, s, fs, WebPart::FormDetail)
    &&& a.select2_create@ == web_gather(e, s, fs, WebPart::Select2Create)
    &&& a.select2_edit@ == web_gather(e, s, fs, WebPart::Select2Edit)
    &&& a.select2_detail@ == web_gather(e, s, fs, WebPart::Select2Detail)
    &&& a.nav_dtos@ == web_gather(e, s, fs, WebPart::NavDtos)
    &&& a.nav_mappings@ == web_gather(e, s, fs, WebPart::NavDtoMappings)
}

fn filter_parts(entity: &str, f: &Field) -> (r: (String, String, String, String, String, String, String, String, String, String))
    ensures
        r.0@ == web_part(entity@, seq![], f@, WebPart::IndexCsNavProps),
        r.1@ == web_part(entity@, seq![], f@, WebPart::OnGetFill),
        r.2@ == web_part(entity@, seq![], f@, WebPart::IndexFilterFields),
        r.3@ == web_part(entity@, seq![], f@, WebPart::Select2NavFilters),
        r.4@ == web_part(entity@, seq![], f@, WebPart::NavFiltersJs),
        r.5@ == web_part(entity@, seq![], f@, WebPart::NavQueryPairs),
        r.6@ == web_part(entity@, seq![], f@, WebPart::NavClear),
        r.7@ == web_part(entity@, seq![], f@, WebPart::StringFiltersJs),
        r.8@ == web_part(entity@, seq![], f@, WebPart::StringQueryPairs),
        r.9@ == web_part(entity@, seq![], f@, WebPart::StringClear),
{
    let mut props = String::new();
    let mut onget = String::new();
    let mut fields = String::new();
    let mut select2 = String::new();
    let mut nav_js = String::new();
    let mut nav_pairs = String::new();
    let mut nav_clear_text = String::new();
    let mut string_js = String::new();
    let mut string_pairs = String::new();
    let mut string_clear_text = String::new();
    if is_stringy_exec(f) && f.filterable {
        let k = to_lower_camel(f.name.as_str());
        let mut id = copy_str(f.name.as_str());
        push_str(&mut id, "Filter");
        props = string_filter_prop(f.name.as_str());
        fields = text_filter_field(f.name.as_str(), entity);
        string_js = string_filter_js(k.as_str(), id.as_str());
        string_pairs = string_query_pair(k.as_str());
        string_clear_text = string_clear(id.as_str());
    }
    if f.navigation.is_some() && str_eq(f.ftype.as_str(), "Guid") && f.filterable {
        let ns = raw_ns_of(f);
        let nl = to_lower_camel(ns.as_str());
        let el = to_lower_camel(entity);
        push_str(&mut props, nav_filter_props(ns.as_str()).as_str());
        onget = onget_fill(ns.as_str(), el.as_str());
        push_str(&mut fields, select_filter_field(entity, f.name.as_str(), ns.as_str()).as_str());
        let endpoint = endpoint_of(entity, ns.as_str());
        select2 = select2_nav_filter(ns.as_str(), endpoint.as_str());
        nav_js = nav_filter_js(nl.as_str(), ns.as_str());
        nav_pairs = nav_query_pair(nl.as_str());
        nav_clear_text = nav_clear(ns.as_str());
    }
    proof {
        reveal_strlit("");
    }
    (props, onget, fields, select2, nav_js, nav_pairs, nav_clear_text, string_js, string_pairs, string_clear_text)
}

fn datatable_exec(entity: &str, srcs: &ClassSources, f: &Field) -> (r: String)
    ensures
        r@ == web_part(entity@, srcs@, f@, WebPart::DatatableColumns),
{
    if !f.show_in_ui {
        return String::new();
    }
    match &f.navigation {
        Some(nav) => if str_eq(f.ftype.as_str(), "Guid") {
            let ns = raw_ns_of(f);
            let text = srcs.text_of(nav.as_str());
            let disp = first_string_prop_exec(text.as_str());
            column_nav(to_lower_camel(ns.as_str()).as_str(), to_lower_camel(disp.as_str()).as_str())
        } else {
            column_plain(to_lower_camel(entity).as_str(), to_lower_camel(f.name.as_str()).as_str())
        },
        None => column_plain(to_lower_camel(entity).as_str(), to_lower_camel(f.name.as_str()).as_str()),
    }
}

fn form_parts(entity: &str, f: &Field) -> (r: (String, String, String, String, String, String, String, String))
    ensures
        r.0@ == web_part(entity@, seq![], f@, WebPart::FormCreate),
        r.1@ == web_part(entity@, seq![], f@, WebPart::FormEdit),
        r.2@ == web_part(entity@, seq![], f@, WebPart::FormDetail),
        r.3@ == web_part(entity@, seq![], f@, WebPart::Select2Create),
        r.4@ == web_part(entity@, seq![], f@, WebPart::Select2Edit),
        r.5@ == web_part(entity@, seq![], f@, WebPart::Select2Detail),
        r.6@ == web_part(entity@, seq![], f@, WebPart::NavDtos),
        r.7@ == web_part(entity@, seq![], f@, WebPart::NavDtoMappings),
{
    proof {
        reveal_strlit("");
    }
    if str_eq(f.ftype.as_str(), "Guid") && f.navigation.is_some() {
        let ns = raw_ns_of(f);
        let star = if f.required {
            "*"
        } else {
            ""
        };
        let req = if f.required {
            "required"
        } else {
            ""
        };
        let endpoint = endpoint_of(entity, ns.as_str());
        let el = to_lower_camel(entity);
        (
            nav_create(entity, f.name.as_str(), star, req),
            nav_edit(entity, f.name.as_str(), star, req, ns.as_str()),
            nav_detail(entity, f.name.as_str(), star, ns.as_str()),
            select2_create(entity, f.name.as_str(), endpoint.as_str()),
            select2_edit(entity, f.name.as_str(), endpoint.as_str()),
            select2_detail(entity, f.name.as_str(), endpoint.as_str()),
            nav_dto(ns.as_str()),
            nav_dto_mapping(ns.as_str(), el.as_str()),
        )
    } else {
        (
            plain_control_exec(entity, f, false),
            plain_control_exec(entity, f, false),
            plain_control_exec(entity, f, true),
            String::new(),
            String::new(),
            String::new(),
            String::new(),
            String::new(),
        )
    }
}

#[verifier::rlimit(60)]
#[verifier::spinoff_prover]
fn add_web_field(a: &mut WebAcc, entity: &str, srcs: &ClassSources, f: &Field, Ghost(fs): Ghost<Seq<FieldV>>)
    requires
        web_acc_holds(*old(a), entity@, srcs@, fs.drop_last()),
        fs.len() > 0,
        fs.last() == f@,
    ensures
        web_acc_holds(*final(a), entity@, srcs@, fs),
{
    reveal(web_gather);
    let p = filter_parts(entity, f);
    push_str(&mut a.cs_nav_props, p.0.as_str());
    push_str(&mut a.onget, p.1.as_str());
    push_str(&mut a.filter_fields, p.2.as_str());
    push_str(&mut a.select2_filters, p.3.as_str());
    push_str(&mut a.nav_js, p.4.as_str());
    push_str(&mut a.nav_pairs, p.5.as_str());
    push_str(&mut a.nav_clear, p.6.as_str());
    push_str(&mut a.string_js, p.7.as_str());
    push_str(&mut a.string_pairs, p.8.as_str());
    push_str(&mut a.string_clear, p.9.as_str());
    if f.show_in_ui {
        push_str(&mut a.columns, column_th(entity, f.name.as_str()).as_str());
    }
    push_str(&mut a.datatable, datatable_exec(entity, srcs, f).as_str());
    let q = form_parts(entity, f);
    push_str(&mut a.create, q.0.as_str());
    push_str(&mut a.edit, q.1.as_str());
    push_str(&mut a.detail, q.2.as_str());
    push_str(&mut a.select2_create, q.3.as_str());
    push_str(&mut a.select2_edit, q.4.as_str());
    push_str(&mut a.select2_detail, q.5.as_str());
    push_str(&mut a.nav_dtos, q.6.as_str());
    push_str(&mut a.nav_mappings, q.7.as_str());
}

fn strip_commas(s: &str) -> (r: String)
    ensures
        r@ == strip_suffix_all(s@, ","@),
{
    proof {
        reveal_strlit(",");
    }
    assert(","@ =~= seq![',']);
    let cs = chars_of(s);
    let mut end: usize = cs.len();
    assert(cs@.take(end as int) =~= s@);
    while end > 0 && cs[end - 1] == ','
        invariant
            end <= cs.len(),
            cs@ == s@,
            strip_suffix_all(s@, ","@) == strip_suffix_all(cs@.take(end as int), ","@),
            ","@ == seq![','],
        decreases end,
    {
        assert(cs@.take(end as int).take(end - 1) =~= cs@.take(end - 1));
        assert(cs@.take(end as int).skip(end - 1) =~= seq![',']);
        end = end - 1;
    }
    proof {
        let t = cs@.take(end as int);
        if end > 0 {
            assert(t.skip(t.len() - 1) =~= seq![t.last()]);
            assert(t.skip(t.len() - 1)[0] != ',');
        }
    }
    string_of_range(&cs, 0, end)
}

/// The index page and modal fragments of an entity.
pub struct WebFragments {
    pub web_index_filter_fields: String,
    pub web_index_column_fields: String,
    pub index_cs_nav_props: String,
    pub index_cs_onget_nav_fill: String,
    pub index_js_nav_filters: String,
    pub web_datatable_columns: String,
    pub index_js_nav_query_pairs: String,
    pub index_js_nav_clear_filters: String,
    pub index_js_select2_nav_filters: String,
    pub index_js_string_filters: String,
    pub index_js_string_query_pairs: String,
    pub index_js_string_clear_filters: String,
    pub web_form_fields_create: String,
    pub web_form_fields_edit: String,
    pub web_form_fields_detail: String,
    pub web_js_select2_create: String,
    pub web_js_select2_edit: String,
    pub web_js_select2_detail: String,
    pub nav_dtos: String,
    pub nav_dto_mappings: String,
}

pub open spec fn web_holds(r: WebFragments, entity: Seq<char>, fields: Seq<FieldV>, srcs: Seq<(Seq<char>, Seq<char>)>) -> bool {
    let e = entity;
    let s = srcs;
    let fs = fields;
    &&& r.web_index_filter_fields@ == trim(web_gather(e, s, fs, WebPart::IndexFilterFields))
    &&& r.web_index_column_fields@ == trim(web_gather(e, s, fs, WebPart::ColumnFields))
    &&& r.index_cs_nav_props@ == trim(web_gather(e, s, fs, WebPart::IndexCsNavProps))
    &&& r.index_cs_onget_nav_fill@ == trim(web_gather(e, s, fs, WebPart::OnGetFill))
    &&& r.index_js_nav_filters@ == trim_end(web_gather(e, s, fs, WebPart::NavFiltersJs))
    &&& r.web_datatable_columns@ == strip_suffix_all(
        trim_end(web_gather(e, s, fs, WebPart::DatatableColumns)),
        ","@,
    )
    &&& r.index_js_nav_query_pairs@ == trim_end(web_gather(e, s, fs, WebPart::NavQueryPairs))
    &&& r.index_js_nav_clear_filters@ == trim_end(web_gather(e, s, fs, WebPart::NavClear))
    &&& r.index_js_select2_nav_filters@ == web_gather(e, s, fs, WebPart::Select2NavFilters)
    &&& r.index_js_string_filters@ == trim(web_gather(e, s, fs, WebPart::StringFiltersJs))
    &&& r.index_js_string_query_pairs@ == trim(web_gather(e, s, fs, WebPart::StringQueryPairs))
    &&& r.index_js_string_clear_filters@ == trim(web_gather(e, s, fs, WebPart::StringClear))
    &&& r.web_form_fields_create@ == trim(web_gather(e, s, fs, WebPart::FormCreate))
    &&& r.web_form_fields_edit@ == trim(web_gather(e, s, fs, WebPart::FormEdit))
    &&& r.web_form_fields_detail@ == trim(web_gather(e, s, fs, WebPart::FormDetail))
    &&& r.web_js_select2_create@ == trim(web_gather(e, s, fs, WebPart::Select2Create))
    &&& r.web_js_select2_edit@ == trim(web_gather(e, s, fs, WebPart::Select2Edit))
    &&& r.web_js_select2_detail@ == trim(web_gather(e, s, fs, WebPart::Select2Detail))
    &&& r.nav_dtos@ == trim(web_gather(e, s, fs, WebPart::NavDtos))
    &&& r.nav_dto_mappings@ == trim(web_gather(e, s, fs, WebPart::NavDtoMappings))
}

/// The index page and modal fragments of `entity` with `fields`; each part
/// is the fields' contributions in order, trimmed as the templates expect.
pub fn web_fragments(entity: &str, fields: &[Field], srcs: &ClassSources) -> (r: WebFragments)
    ensures
        web_holds(r, entity@, fields_view(fields@), srcs@),
{
    let ghost fs = fields_view(fields@);
    let mut a = WebAcc {
        cs_nav_props: String::new(),
        onget: String::new(),
        filter_fields: String::new(),
        select2_filters: String::new(),
        nav_js: String::new(),
        nav_pairs: String::new(),
        nav_clear: String::new(),
        string_js: String::new(),
        string_pairs: String::new(),
        string_clear: String::new(),
        columns: String::new(),
        datatable: String::new(),
        create: String::new(),
        edit: String::new(),
        detail: String::new(),
        select2_create: String::new(),
        select2_edit: String::new(),
        select2_detail: String::new(),
        nav_dtos: String::new(),
        nav_mappings: String::new(),
    };
    proof {
        reveal(web_gather);
    }
    assert(fs.take(0) =~= Seq::<FieldV>::empty());
    let mut i: usize = 0;
    while i < fields.len()
        invariant
            i <= fields.len(),
            fs == fields_view(fields@),
            web_acc_holds(a, entity@, srcs@, fs.take(i as int)),
        decreases fields.len() - i,
    {
        let ghost next = fs.take(i + 1);
        assert(next.drop_last() =~= fs.take(i as int));
        add_web_field(&mut a, entity, srcs, &fields[i], Ghost(next));
        i = i + 1;
    }
    assert(fs.take(fields.len() as int) =~= fs);
    let datatable = trim_end_exec(a.datatable.as_str());
    WebFragments {
        web_index_filter_fields: trim_exec(a.filter_fields.as_str()),
        web_index_column_fields: trim_exec(a.columns.as_str()),
        index_cs_nav_props: trim_exec(a.cs_nav_props.as_str()),
        index_cs_onget_nav_fill: trim_exec(a.onget.as_str()),
        index_js_nav_filters: trim_end_exec(a.nav_js.as_str()),
        web_datatable_columns: strip_commas(datatable.as_str()),
        index_js_nav_query_pairs: trim_end_exec(a.nav_pairs.as_str()),
        index_js_nav_clear_filters: trim_end_exec(a.nav_clear.as_str()),
        index_js_select2_nav_filters: a.select2_filters,
        index_js_string_filters: trim_exec(a.string_js.as_str()),
        index_js_string_query_pairs: trim_exec(a.string_pairs.as_str()),
        index_js_string_clear_filters: trim_exec(a.string_clear.as_str()),
        web_form_fields_create: trim_exec(a.create.as_str()),
        web_form_fields_edit: trim_exec(a.edit.as_str()),
        web_form_fields_detail: trim_exec(a.detail.as_str()),
        web_js_select2_create: trim_exec(a.select2_create.as_str()),
        web_js_select2_edit: trim_exec(a.select2_edit.as_str()),
        web_js_select2_detail: trim_exec(a.select2_detail.as_str()),
        nav_dtos: trim_exec(a.nav_dtos.as_str()),
        nav_dto_mappings: trim_exec(a.nav_mappings.as_str()),
    }
}

} // verus!
