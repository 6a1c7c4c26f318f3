//! The Vue pages' code fragments for an entity's fields, keyed by the
//! placeholder that each fills in the Vue templates.
use crate::fragments::compile::add_pair;
use crate::mapping::{entry_views, last_value, Mapping};
use crate::models::{Field, FieldV, fields_view};
use crate::naming::{last_segment, last_segment_spec, lower_camel, plural, pluralize, to_lower_camel};
use crate::text::{
    contains, copy_str, join, join_exec, push_str, replace_all, replace_exec, str_contains, str_eq,
    trim_end, trim_end_exec, views,
};
use vstd::prelude::*;

verus! {

broadcast use vstd::string::group_string_axioms;

/* ------------------------------ FRAGMENTS ------------------------------ */

pub open spec fn form_text_spec(label: Seq<char>, nm: Seq<char>) -> Seq<char> {
    "<div class=\"mb-3\">\n  <label class=\"form-label\">"@ + label + "</label>\n  <input v-model=\"model."@ + nm + "\" type=\"text\" class=\"form-control\" />\n</div>\n"@
}

fn form_text(label: &str, nm: &str) -> (r: String)
    ensures
        r@ == form_text_spec(label@, nm@),
{
    let mut r = String::new();
    push_str(&mut r, "<div class=\"mb-3\">\n  <label class=\"form-label\">");
    push_str(&mut r, label);
    push_str(&mut r, "</label>\n  <input v-model=\"model.");
    push_str(&mut r, nm);
    push_str(&mut r, "\" type=\"text\" class=\"form-control\" />\n</div>\n");
    r
}

pub open spec fn form_textarea_spec(label: Seq<char>, nm: Seq<char>) -> Seq<char> {
    "<div class=\"mb-3\">\n  <label class=\"form-label\">"@ + label + "</label>\n  <textarea v-model=\"model."@ + nm + "\" class=\"form-control\" rows=\"3\"></textarea>\n</div>\n"@
}

fn form_textarea(label: &str, nm: &str) -> (r: String)
    ensures
        r@ == form_textarea_spec(label@, nm@),
{
    let mut r = String::new();
    push_str(&mut r, "<div class=\"mb-3\">\n  <label class=\"form-label\">");
    push_str(&mut r, label);
    push_str(&mut r, "</label>\n  <textarea v-model=\"model.");
    push_str(&mut r, nm);
    push_str(&mut r, "\" class=\"form-control\" rows=\"3\"></textarea>\n</div>\n");
    r
}

pub open spec fn detail_plaintext_spec(label: Seq<char>, nm: Seq<char>) -> Seq<char> {
    "<div class=\"mb-3\">\n  <label class=\"form-label\">"@ + label + "</label>\n  <div class=\"form-control-plaintext\">{{ model."@ + nm + " }}</div>\n</div>\n"@
}

fn detail_plaintext(label: &str, nm: &str) -> (r: String)
    ensures
        r@ == detail_plaintext_spec(label@, nm@),
{
    let mut r = String::new();
    push_str(&mut r, "<div class=\"mb-3\">\n  <label class=\"form-label\">");
    push_str(&mut r, label);
    push_str(&mut r, "</label>\n  <div class=\"form-control-plaintext\">{{ model.");
    push_str(&mut r, nm);
    push_str(&mut r, " }}</div>\n</div>\n");
    r
}

pub open spec fn form_decimal_spec(label: Seq<char>, nm: Seq<char>) -> Seq<char> {
    "<div class=\"mb-3\">\n  <label class=\"form-label\">"@ + label + "</label>\n  <input v-model.number=\"model."@ + nm + "\" type=\"number\" step=\"0.01\" class=\"form-control\" />\n</div>\n"@
}

fn form_decimal(label: &str, nm: &str) -> (r: String)
    ensures
        r@ == form_decimal_spec(label@, nm@),
{
    let mut r = String::new();
    push_str(&mut r, "<div class=\"mb-3\">\n  <label class=\"form-label\">");
    push_str(&mut r, label);
    push_str(&mut r, "</label>\n  <input v-model.number=\"model.");
    push_str(&mut r, nm);
    push_str(&mut r, "\" type=\"number\" step=\"0.01\" class=\"form-control\" />\n</div>\n");
    r
}

pub open spec fn fetch_fn_spec(list: Seq<char>, cls: Seq<char>, svc: Seq<char>) -> Seq<char> {
    "let "@ + list + "RequestId = 0;\nasync function fetch"@ + cls + "Lookup(term) {\n  const requestId = ++"@ + list + "RequestId;\n  const res = await "@ + svc + "Service.get"@ + cls + "Lookup({ filter: term || \"\", maxResultCount: 10 });\n  if (requestId === "@ + list + "RequestId) {\n    "@ + list + ".value = res?.items ?? [];\n  }\n}\n"@
}

fn fetch_fn(list: &str, cls: &str, svc: &str) -> (r: String)
    ensures
        r@ == fetch_fn_spec(list@, cls@, svc@),
{
    let mut r = String::new();
    push_str(&mut r, "let ");
    push_str(&mut r, list);
    push_str(&mut r, "RequestId = 0;\nasync function fetch");
    push_str(&mut r, cls);
    push_str(&mut r, "Lookup(term) {\n  const requestId = ++");
    push_str(&mut r, list);
    push_str(&mut r, "RequestId;\n  const res = await ");
    push_str(&mut r, svc);
    push_str(&mut r, "Service.get");
    push_str(&mut r, cls);
    push_str(&mut r, "Lookup({ filter: term || \"\", maxResultCount: 10 });\n  if (requestId === ");
    push_str(&mut r, list);
    push_str(&mut r, "RequestId) {\n    ");
    push_str(&mut r, list);
    push_str(&mut r, ".value = res?.items ?? [];\n  }\n}\n");
    r
}

pub open spec fn form_nav_select_spec(label: Seq<char>, nm: Seq<char>, list: Seq<char>, cls: Seq<char>, clr: Seq<char>) -> Seq<char> {
    "<div class=\"mb-3\">\n  <label class=\"form-label\">"@ + label + "</label>\n  <v-select\n    v-model=\"model."@ + nm + "\"\n    :options=\""@ + list + "\"\n    label=\"displayName\"\n    :reduce=\"a => a.id\"\n    @@search=\"async (term, loading) => { loading?.(true); try { await fetch"@ + cls + "Lookup(term); } finally { loading?.(false); } }\"\n    :filterable=\"false\"\n    :clearable=\""@ + clr + "\"\n    :placeholder=\"'@L[\"Search\"].Value'\"\n  />\n</div>\n"@
}

fn form_nav_select(label: &str, nm: &str, list: &str, cls: &str, clr: &str) -> (r: String)
    ensures
        r@ == form_nav_select_spec(label@, nm@, list@, cls@, clr@),
{
    let mut r = String::new();
    push_str(&mut r, "<div class=\"mb-3\">\n  <label class=\"form-label\">");
    push_str(&mut r, label);
    push_str(&mut r, "</label>\n  <v-select\n    v-model=\"model.");
    push_str(&mut r, nm);
    push_str(&mut r, "\"\n    :options=\"");
    push_str(&mut r, list);
    push_str(&mut r, "\"\n    label=\"displayName\"\n    :reduce=\"a => a.id\"\n    @@search=\"async (term, loading) => { loading?.(true); try { await fetch");
    push_str(&mut r, cls);
    push_str(&mut r, "Lookup(term); } finally { loading?.(false); } }\"\n    :filterable=\"false\"\n    :clearable=\"");
    push_str(&mut r, clr);
    push_str(&mut r, "\"\n    :placeholder=\"'@L[\"Search\"].Value'\"\n  />\n</div>\n");
    r
}

pub open spec fn form_number_spec(label: Seq<char>, nm: Seq<char>) -> Seq<char> {
    "<div class=\"mb-3\">\n  <label class=\"form-label\">"@ + label + "</label>\n  <input v-model.number=\"model."@ + nm + "\" type=\"number\" class=\"form-control\" />\n</div>\n"@
}

fn form_number(label: &str, nm: &str) -> (r: String)
    ensures
        r@ == form_number_spec(label@, nm@),
{
    let mut r = String::new();
    push_str(&mut r, "<div class=\"mb-3\">\n  <label class=\"form-label\">");
    push_str(&mut r, label);
    push_str(&mut r, "</label>\n  <input v-model.number=\"model.");
    push_str(&mut r, nm);
    push_str(&mut r, "\" type=\"number\" class=\"form-control\" />\n</div>\n");
    r
}

pub open spec fn form_checkbox_spec(nm: Seq<char>, label: Seq<char>) -> Seq<char> {
    "<div class=\"form-check mb-3\">\n  <input class=\"form-check-input\" type=\"checkbox\" v-model=\"model."@ + nm + "\" id=\""@ + nm + "_chk\" />\n  <label class=\"form-check-label\" for=\""@ + nm + "_chk\">"@ + label + "</label>\n</div>\n"@
}

fn form_checkbox(nm: &str, label: &str) -> (r: String)
    ensures
        r@ == form_checkbox_spec(nm@, label@),
{
    let mut r = String::new();
    push_str(&mut r, "<div class=\"form-check mb-3\">\n  <input class=\"form-check-input\" type=\"checkbox\" v-model=\"model.");
    push_str(&mut r, nm);
    push_str(&mut r, "\" id=\"");
    push_str(&mut r, nm);
    push_str(&mut r, "_chk\" />\n  <label class=\"form-check-label\" for=\"");
    push_str(&mut r, nm);
    push_str(&mut r, "_chk\">");
    push_str(&mut r, label);
    push_str(&mut r, "</label>\n</div>\n");
    r
}

pub open spec fn form_datetime_spec(label: Seq<char>, nm: Seq<char>) -> Seq<char> {
    "<div class=\"mb-3\">\n  <label class=\"form-label\">"@ + label + "</label>\n  <input v-model=\"model."@ + nm + "\" type=\"datetime-local\" class=\"form-control\" />\n</div>\n"@
}

fn form_datetime(label: &str, nm: &str) -> (r: String)
    ensures
        r@ == form_datetime_spec(label@, nm@),
{
    let mut r = String::new();
    push_str(&mut r, "<div class=\"mb-3\">\n  <label class=\"form-label\">");
    push_str(&mut r, label);
    push_str(&mut r, "</label>\n  <input v-model=\"model.");
    push_str(&mut r, nm);
    push_str(&mut r, "\" type=\"datetime-local\" class=\"form-control\" />\n</div>\n");
    r
}

pub open spec fn bulk_delete_spec(plural: Seq<char>) -> Seq<char> {
    "\n      dataTable.value.on(\"xhr\", function() {\n        const table = document.getElementById(\""@ + plural + "Table\");\n        const selectAll = document.getElementById(\"select_all\");\n        if (selectAll) { selectAll.indeterminate = false; selectAll.checked = false; }\n      });"@
}

fn bulk_delete(plural: &str) -> (r: String)
    ensures
        r@ == bulk_delete_spec(plural@),
{
    let mut r = String::new();
    push_str(&mut r, "\n      dataTable.value.on(\"xhr\", function() {\n        const table = document.getElementById(\"");
    push_str(&mut r, plural);
    push_str(&mut r, "Table\");\n        const selectAll = document.getElementById(\"select_all\");\n        if (selectAll) { selectAll.indeterminate = false; selectAll.checked = false; }\n      });");
    r
}

pub open spec fn adv_nav_spec(label: Seq<char>, nm: Seq<char>, list: Seq<char>, cls: Seq<char>) -> Seq<char> {
    "\n          <div class=\"col-3\">\n            <div class=\"mb-3\">\n              <label class=\"form-label\">"@ + label + ".Value</label>\n              <v-select\n                v-model=\"filter."@ + nm + "\"\n                :options=\""@ + list + "\"\n                :reduce=\"it => it.id\"\n                label=\"displayName\"\n                id=\""@ + nm + "\"\n                @@search=\"async (term, loading) => { loading?.(true); try { await fetch"@ + cls + "Lookup(term); } finally { loading?.(false); } }\"\n                :filterable=\"false\"\n              />\n            </div>\n          </div>\n"@
}

fn adv_nav(label: &str, nm: &str, list: &str, cls: &str) -> (r: String)
    ensures
        r@ == adv_nav_spec(label@, nm@, list@, cls@),
{
    let mut r = String::new();
    push_str(&mut r, "\n          <div class=\"col-3\">\n            <div class=\"mb-3\">\n              <label class=\"form-label\">");
    push_str(&mut r, label);
    push_str(&mut r, ".Value</label>\n              <v-select\n                v-model=\"filter.");
    push_str(&mut r, nm);
    push_str(&mut r, "\"\n                :options=\"");
    push_str(&mut r, list);
    push_str(&mut r, "\"\n                :reduce=\"it => it.id\"\n                label=\"displayName\"\n                id=\"");
    push_str(&mut r, nm);
    push_str(&mut r, "\"\n                @@search=\"async (term, loading) => { loading?.(true); try { await fetch");
    push_str(&mut r, cls);
    push_str(&mut r, "Lookup(term); } finally { loading?.(false); } }\"\n                :filterable=\"false\"\n              />\n            </div>\n          </div>\n");
    r
}

pub open spec fn adv_decimal_spec(label: Seq<char>, nm: Seq<char>) -> Seq<char> {
    "\n          <div class=\"col-3\">\n            <div class=\"mb-3\">\n              <label class=\"form-label\">"@ + label + ".Value</label>\n              <input id=\""@ + nm + "\" type=\"number\" step=\"0.01\" class=\"form-control\" v-model.number=\"filter."@ + nm + "\" @@keyup.enter=\"onGetFilteredData\" />\n            </div>\n          </div>\n"@
}

fn adv_decimal(label: &str, nm: &str) -> (r: String)
    ensures
        r@ == adv_decimal_spec(label@, nm@),
{
    let mut r = String::new();
    push_str(&mut r, "\n          <div class=\"col-3\">\n            <div class=\"mb-3\">\n              <label class=\"form-label\">");
    push_str(&mut r, label);
    push_str(&mut r, ".Value</label>\n              <input id=\"");
    push_str(&mut r, nm);
    push_str(&mut r, "\" type=\"number\" step=\"0.01\" class=\"form-control\" v-model.number=\"filter.");
    push_str(&mut r, nm);
    push_str(&mut r, "\" @@keyup.enter=\"onGetFilteredData\" />\n            </div>\n          </div>\n");
    r
}

pub open spec fn adv_text_spec(label: Seq<char>, nm: Seq<char>) -> Seq<char> {
    "\n          <div class=\"col-3\">\n            <div class=\"mb-3\">\n              <label class=\"form-label\">"@ + label + ".Value</label>\n              <input id=\""@ + nm + "\" type=\"text\" class=\"form-control\" v-model=\"filter."@ + nm + "\" @@keyup.enter=\"onGetFilteredData\" />\n            </div>\n          </div>\n"@
}

fn adv_text(label: &str, nm: &str) -> (r: String)
    ensures
        r@ == adv_text_spec(label@, nm@),
{
    let mut r = String::new();
    push_str(&mut r, "\n          <div class=\"col-3\">\n            <div class=\"mb-3\">\n              <label class=\"form-label\">");
    push_str(&mut r, label);
    push_str(&mut r, ".Value</label>\n              <input id=\"");
    push_str(&mut r, nm);
    push_str(&mut r, "\" type=\"text\" class=\"form-control\" v-model=\"filter.");
    push_str(&mut r, nm);
    push_str(&mut r, "\" @@keyup.enter=\"onGetFilteredData\" />\n            </div>\n          </div>\n");
    r
}

pub open spec fn model_line_spec(nm: Seq<char>, def: Seq<char>) -> Seq<char> {
    nm + ": "@ + def
}

fn model_line(nm: &str, def: &str) -> (r: String)
    ensures
        r@ == model_line_spec(nm@, def@),
{
    let mut r = String::new();
    push_str(&mut r, nm);
    push_str(&mut r, ": ");
    push_str(&mut r, def);
    r
}

pub open spec fn can_truthy_spec(nm: Seq<char>) -> Seq<char> {
    "!!model."@ + nm
}

fn can_truthy(nm: &str) -> (r: String)
    ensures
        r@ == can_truthy_spec(nm@),
{
    let mut r = String::new();
    push_str(&mut r, "!!model.");
    push_str(&mut r, nm);
    r
}

pub open spec fn can_number_spec(nm: Seq<char>) -> Seq<char> {
    "model."@ + nm + " !== null && model."@ + nm + " !== undefined"@
}

fn can_number(nm: &str) -> (r: String)
    ensures
        r@ == can_number_spec(nm@),
{
    let mut r = String::new();
    push_str(&mut r, "model.");
    push_str(&mut r, nm);
    push_str(&mut r, " !== null && model.");
    push_str(&mut r, nm);
    push_str(&mut r, " !== undefined");
    r
}

pub open spec fn payload_pair_spec(nm: Seq<char>) -> Seq<char> {
    nm + ": model."@ + nm
}

fn payload_pair(nm: &str) -> (r: String)
    ensures
        r@ == payload_pair_spec(nm@),
{
    let mut r = String::new();
    push_str(&mut r, nm);
    push_str(&mut r, ": model.");
    push_str(&mut r, nm);
    r
}

pub open spec fn load_text_spec(nm: Seq<char>, el: Seq<char>) -> Seq<char> {
    "model."@ + nm + " = dto."@ + el + "."@ + nm + " ?? \"\";\n"@
}

fn load_text(nm: &str, el: &str) -> (r: String)
    ensures
        r@ == load_text_spec(nm@, el@),
{
    let mut r = String::new();
    push_str(&mut r, "model.");
    push_str(&mut r, nm);
    push_str(&mut r, " = dto.");
    push_str(&mut r, el);
    push_str(&mut r, ".");
    push_str(&mut r, nm);
    push_str(&mut r, " ?? \"\";\n");
    r
}

pub open spec fn load_plain_spec(nm: Seq<char>, el: Seq<char>) -> Seq<char> {
    "model."@ + nm + " = dto."@ + el + "."@ + nm + ";\n"@
}

fn load_plain(nm: &str, el: &str) -> (r: String)
    ensures
        r@ == load_plain_spec(nm@, el@),
{
    let mut r = String::new();
    push_str(&mut r, "model.");
    push_str(&mut r, nm);
    push_str(&mut r, " = dto.");
    push_str(&mut r, el);
    push_str(&mut r, ".");
    push_str(&mut r, nm);
    push_str(&mut r, ";\n");
    r
}

pub open spec fn load_null_spec(nm: Seq<char>, el: Seq<char>) -> Seq<char> {
    "model."@ + nm + " = dto."@ + el + "."@ + nm + " ?? null;\n"@
}

fn load_null(nm: &str, el: &str) -> (r: String)
    ensures
        r@ == load_null_spec(nm@, el@),
{
    let mut r = String::new();
    push_str(&mut r, "model.");
    push_str(&mut r, nm);
    push_str(&mut r, " = dto.");
    push_str(&mut r, el);
    push_str(&mut r, ".");
    push_str(&mut r, nm);
    push_str(&mut r, " ?? null;\n");
    r
}

pub open spec fn load_bool_spec(nm: Seq<char>, el: Seq<char>) -> Seq<char> {
    "model."@ + nm + " = !!dto."@ + el + "."@ + nm + ";\n"@
}

fn load_bool(nm: &str, el: &str) -> (r: String)
    ensures
        r@ == load_bool_spec(nm@, el@),
{
    let mut r = String::new();
    push_str(&mut r, "model.");
    push_str(&mut r, nm);
    push_str(&mut r, " = !!dto.");
    push_str(&mut r, el);
    push_str(&mut r, ".");
    push_str(&mut r, nm);
    push_str(&mut r, ";\n");
    r
}

pub open spec fn prime_line_spec(nav: Seq<char>, list: Seq<char>, display: Seq<char>, cls: Seq<char>) -> Seq<char> {
    "if (dto."@ + nav + ") { "@ + list + ".value = [{ id: dto."@ + nav + ".id, displayName: dto."@ + nav + "."@ + display + " }]; } else { await fetch"@ + cls + "Lookup(\"\"); }\n"@
}

fn prime_line(nav: &str, list: &str, display: &str, cls: &str) -> (r: String)
    ensures
        r@ == prime_line_spec(nav@, list@, display@, cls@),
{
    let mut r = String::new();
    push_str(&mut r, "if (dto.");
    push_str(&mut r, nav);
    push_str(&mut r, ") { ");
    push_str(&mut r, list);
    push_str(&mut r, ".value = [{ id: dto.");
    push_str(&mut r, nav);
    push_str(&mut r, ".id, displayName: dto.");
    push_str(&mut r, nav);
    push_str(&mut r, ".");
    push_str(&mut r, display);
    push_str(&mut r, " }]; } else { await fetch");
    push_str(&mut r, cls);
    push_str(&mut r, "Lookup(\"\"); }\n");
    r
}

pub open spec fn detail_nav_load_spec(nm: Seq<char>, el: Seq<char>, list: Seq<char>, nav: Seq<char>, display: Seq<char>) -> Seq<char> {
    "model."@ + nm + " = dto."@ + el + "."@ + nm + " ?? null;\n"@ + list + ".value = dto."@ + nav + " ? [{ id: dto."@ + nav + ".id, displayName: dto."@ + nav + "."@ + display + " }] : [];\n"@
}

fn detail_nav_load(nm: &str, el: &str, list: &str, nav: &str, display: &str) -> (r: String)
    ensures
        r@ == detail_nav_load_spec(nm@, el@, list@, nav@, display@),
{
    let mut r = String::new();
    push_str(&mut r, "model.");
    push_str(&mut r, nm);
    push_str(&mut r, " = dto.");
    push_str(&mut r, el);
    push_str(&mut r, ".");
    push_str(&mut r, nm);
    push_str(&mut r, " ?? null;\n");
    push_str(&mut r, list);
    push_str(&mut r, ".value = dto.");
    push_str(&mut r, nav);
    push_str(&mut r, " ? [{ id: dto.");
    push_str(&mut r, nav);
    push_str(&mut r, ".id, displayName: dto.");
    push_str(&mut r, nav);
    push_str(&mut r, ".");
    push_str(&mut r, display);
    push_str(&mut r, " }] : [];\n");
    r
}

pub open spec fn stamp_load_spec(el: Seq<char>) -> Seq<char> {
    "model.concurrencyStamp = dto."@ + el + ".concurrencyStamp ?? null;\n"@
}

fn stamp_load(el: &str) -> (r: String)
    ensures
        r@ == stamp_load_spec(el@),
{
    let mut r = String::new();
    push_str(&mut r, "model.concurrencyStamp = dto.");
    push_str(&mut r, el);
    push_str(&mut r, ".concurrencyStamp ?? null;\n");
    r
}

pub open spec fn col_nav_spec(nav: Seq<char>, display: Seq<char>) -> Seq<char> {
    "        { data: \""@ + nav + "."@ + display + "\", defaultContent: \"\", render: DataTable.render.text() },\n"@
}

fn col_nav(nav: &str, display: &str) -> (r: String)
    ensures
        r@ == col_nav_spec(nav@, display@),
{
    let mut r = String::new();
    push_str(&mut r, "        { data: \"");
    push_str(&mut r, nav);
    push_str(&mut r, ".");
    push_str(&mut r, display);
    push_str(&mut r, "\", defaultContent: \"\", render: DataTable.render.text() },\n");
    r
}

pub open spec fn col_plain_spec(el: Seq<char>, nm: Seq<char>) -> Seq<char> {
    "        { data: \""@ + el + "."@ + nm + "\", defaultContent: \"\", render: DataTable.render.text() },\n"@
}

fn col_plain(el: &str, nm: &str) -> (r: String)
    ensures
        r@ == col_plain_spec(el@, nm@),
{
    let mut r = String::new();
    push_str(&mut r, "        { data: \"");
    push_str(&mut r, el);
    push_str(&mut r, ".");
    push_str(&mut r, nm);
    push_str(&mut r, "\", defaultContent: \"\", render: DataTable.render.text() },\n");
    r
}

pub open spec fn filter_line_spec(nm: Seq<char>) -> Seq<char> {
    nm + ": null"@
}

fn filter_line(nm: &str) -> (r: String)
    ensures
        r@ == filter_line_spec(nm@),
{
    let mut r = String::new();
    push_str(&mut r, nm);
    push_str(&mut r, ": null");
    r
}

pub open spec fn watch_line_spec(nm: Seq<char>) -> Seq<char> {
    "    watch(() => filter.value."@ + nm + ", scheduleFilterReload);\n"@
}

fn watch_line(nm: &str) -> (r: String)
    ensures
        r@ == watch_line_spec(nm@),
{
    let mut r = String::new();
    push_str(&mut r, "    watch(() => filter.value.");
    push_str(&mut r, nm);
    push_str(&mut r, ", scheduleFilterReload);\n");
    r
}

pub open spec fn query_pair_spec(nm: Seq<char>) -> Seq<char> {
    "            { name: \""@ + nm + "\", value: filter.value."@ + nm + " },\n"@
}

fn query_pair(nm: &str) -> (r: String)
    ensures
        r@ == query_pair_spec(nm@),
{
    let mut r = String::new();
    push_str(&mut r, "            { name: \"");
    push_str(&mut r, nm);
    push_str(&mut r, "\", value: filter.value.");
    push_str(&mut r, nm);
    push_str(&mut r, " },\n");
    r
}

/* ------------------------------ FIELD FACTS ------------------------------ */

pub open spec fn vue_nm(f: FieldV) -> Seq<char> {
    lower_camel(f.name)
}

/// The localization key of a field.
pub open spec fn vue_key(entity: Seq<char>, f: FieldV) -> Seq<char> {
    entity + ":"@ + f.name
}

/// A form label, marked when the field is required.
pub open spec fn vue_label(entity: Seq<char>, f: FieldV) -> Seq<char> {
    if f.required {
        "@L[\""@ + vue_key(entity, f) + "\"].Value *"@
    } else {
        "@L[\""@ + vue_key(entity, f) + "\"].Value"@
    }
}

/// A filter label, without `.Value`.
pub open spec fn vue_filter_label(entity: Seq<char>, f: FieldV) -> Seq<char> {
    "@L[\""@ + vue_key(entity, f) + "\"]"@
}

pub open spec fn is_stringish(t: Seq<char>) -> bool {
    t == "string"@ || t == "String"@
}

pub open spec fn is_intish(t: Seq<char>) -> bool {
    t == "int"@ || t == "Int32"@ || t == "long"@ || t == "Int64"@
}

pub open spec fn is_boolish(t: Seq<char>) -> bool {
    t == "bool"@ || t == "Boolean"@
}

/// A foreign key with a navigation target.
pub open spec fn vue_is_nav(f: FieldV) -> bool {
    f.ftype == "Guid"@ && f.navigation is Some
}

pub open spec fn vue_nav_class(f: FieldV) -> Seq<char> {
    match f.navigation {
        Some(n) => last_segment_spec(n),
        None => Seq::empty(),
    }
}

pub open spec fn vue_display(f: FieldV) -> Seq<char> {
    match f.navigation_display {
        Some(d) => d,
        None => "Name"@,
    }
}

/// The reactive list that holds a navigation target's lookup results.
pub open spec fn vue_list_ref(f: FieldV) -> Seq<char> {
    lower_camel(vue_nav_class(f)) + "s"@
}

pub open spec fn vue_fetch_name(f: FieldV) -> Seq<char> {
    "fetch"@ + vue_nav_class(f) + "Lookup"@
}

pub open spec fn vue_prime(f: FieldV) -> Seq<char> {
    "await fetch"@ + vue_nav_class(f) + "Lookup(\"\");\n"@
}

pub open spec fn vue_ref_line(f: FieldV) -> Seq<char> {
    "const "@ + vue_list_ref(f) + " = ref([]);"@
}

pub open spec fn vue_default(f: FieldV) -> Seq<char> {
    let t = f.ftype;
    if is_stringish(t) || t == "textarea"@ {
        "\"\""@
    } else if is_boolish(t) {
        "false"@
    } else {
        "null"@
    }
}

pub open spec fn vue_can(f: FieldV) -> Seq<char> {
    let t = f.ftype;
    if is_intish(t) || t == "decimal"@ {
        can_number_spec(vue_nm(f))
    } else if is_boolish(t) {
        "true"@
    } else {
        can_truthy_spec(vue_nm(f))
    }
}

/// The create and edit form control of a field.
pub open spec fn vue_block(entity: Seq<char>, f: FieldV) -> Seq<char> {
    let t = f.ftype;
    let label = vue_label(entity, f);
    let nm = vue_nm(f);
    if is_stringish(t) {
        form_text_spec(label, nm)
    } else if t == "textarea"@ {
        form_textarea_spec(label, nm)
    } else if t == "decimal"@ {
        form_decimal_spec(label, nm)
    } else if t == "Guid"@ {
        if f.navigation is Some {
            form_nav_select_spec(
                label,
                nm,
                vue_list_ref(f),
                vue_nav_class(f),
                if f.required {
                    "false"@
                } else {
                    "true"@
                },
            )
        } else {
            form_text_spec(label, nm)
        }
    } else if is_intish(t) {
        form_number_spec(label, nm)
    } else if is_boolish(t) {
        form_checkbox_spec(nm, label)
    } else if t == "DateTime"@ {
        form_datetime_spec(label, nm)
    } else {
        form_text_spec(label, nm)
    }
}

pub open spec fn disable_input(block: Seq<char>, binding: Seq<char>, type_attr: Seq<char>) -> Seq<char> {
    replace_all(
        replace_all(replace_all(block, binding, ":value=\"model."@), type_attr, Seq::empty()),
        " />"@,
        " disabled />"@,
    )
}

/// The detail view's read-only control of a field: the form control with
/// its binding, type and editability replaced.
pub open spec fn vue_detail(entity: Seq<char>, f: FieldV) -> Seq<char> {
    let t = f.ftype;
    let b = vue_block(entity, f);
    if is_stringish(t) {
        disable_input(b, "v-model=\"model."@, " type=\"text\""@)
    } else if t == "textarea"@ {
        detail_plaintext_spec(vue_label(entity, f), vue_nm(f))
    } else if t == "decimal"@ {
        disable_input(b, "v-model.number=\"model."@, "type=\"number\""@)
    } else if t == "Guid"@ {
        if f.navigation is Some {
            replace_all(
                replace_all(b, ":clearable=\"{clr}\""@, ":clearable=\"false\""@),
                "/>"@,
                " disabled\n  />"@,
            )
        } else {
            disable_input(b, "v-model=\"model."@, "type=\"text\""@)
        }
    } else if is_intish(t) {
        disable_input(b, "v-model.number=\"model."@, "type=\"number\""@)
    } else if is_boolish(t) {
        replace_all(
            replace_all(b, "v-model=\"model."@, ":checked=\"model."@),
            "type=\"checkbox\""@,
            "type=\"checkbox\" disabled"@,
        )
    } else if t == "DateTime"@ {
        disable_input(b, "v-model=\"model."@, "type=\"datetime-local\""@)
    } else {
        disable_input(b, "v-model=\"model."@, "type=\"text\""@)
    }
}

/// The line that loads a field from the fetched DTO.
pub open spec fn vue_load(entity: Seq<char>, f: FieldV) -> Seq<char> {
    let t = f.ftype;
    let nm = vue_nm(f);
    let el = lower_camel(entity);
    if is_stringish(t) || t == "textarea"@ {
        load_text_spec(nm, el)
    } else if t == "decimal"@ || is_intish(t) {
        load_plain_spec(nm, el)
    } else if is_boolish(t) {
        load_bool_spec(nm, el)
    } else {
        load_null_spec(nm, el)
    }
}

pub open spec fn vue_detail_load(entity: Seq<char>, f: FieldV) -> Seq<char> {
    if vue_is_nav(f) {
        detail_nav_load_spec(
            vue_nm(f),
            lower_camel(entity),
            vue_list_ref(f),
            lower_camel(vue_nav_class(f)),
            lower_camel(vue_display(f)),
        )
    } else {
        vue_load(entity, f)
    }
}

/// How a filterable field is passed to the index query.
pub enum QueryKind {
    Plain,
    Navigation,
    Ignored,
}

pub open spec fn vue_query_kind(f: FieldV) -> QueryKind {
    let t = f.ftype;
    if is_stringish(t) || t == "textarea"@ {
        QueryKind::Plain
    } else if t == "Guid"@ {
        QueryKind::Navigation
    } else if is_intish(t) || t == "decimal"@ || is_boolish(t) || t == "DateTime"@ {
        QueryKind::Plain
    } else {
        QueryKind::Ignored
    }
}

pub open spec fn vue_filtered(f: FieldV) -> bool {
    f.filterable && !(vue_query_kind(f) is Ignored)
}

/// The text parts that each field contributes to.
pub enum VueText {
    Form,
    Detail,
    EditLoad,
    EditPrime,
    DetailLoad,
    Watch,
    StringPairs,
    NavPairs,
    Columns,
    Headers,
    Advanced,
}

pub open spec fn vue_text(entity: Seq<char>, f: FieldV, p: VueText) -> Seq<char> {
    let nm = vue_nm(f);
    match p {
        VueText::Form => vue_block(entity, f),
        VueText::Detail => vue_detail(entity, f),
        VueText::EditLoad => vue_load(entity, f),
        VueText::EditPrime => if vue_is_nav(f) {
            prime_line_spec(
                lower_camel(vue_nav_class(f)),
                vue_list_ref(f),
                lower_camel(vue_display(f)),
                vue_nav_class(f),
            )
        } else {
            Seq::empty()
        },
        VueText::DetailLoad => vue_detail_load(entity, f),
        VueText::Watch => if vue_filtered(f) {
            watch_line_spec(nm)
        } else {
            Seq::empty()
        },
        VueText::StringPairs => if f.filterable && vue_query_kind(f) is Plain {
            query_pair_spec(nm)
        } else {
            Seq::empty()
        },
        VueText::NavPairs => if f.filterable && vue_query_kind(f) is Navigation {
            query_pair_spec(nm)
        } else {
            Seq::empty()
        },
        VueText::Columns => if !f.show_in_ui {
            Seq::empty()
        } else if vue_is_nav(f) {
            col_nav_spec(lower_camel(vue_nav_class(f)), lower_camel(vue_display(f)))
        } else {
            col_plain_spec(lower_camel(entity), nm)
        },
        VueText::Headers => if !f.show_in_ui {
            Seq::empty()
        } else if vue_is_nav(f) {
            "            <th>@L[\""@ + vue_nav_class(f) + "\"].Value</th>\n"@
        } else {
            "            <th>@L[\""@ + vue_key(entity, f) + "\"].Value</th>\n"@
        },
        VueText::Advanced => if !f.filterable {
            Seq::empty()
        } else if vue_is_nav(f) {
            adv_nav_spec(vue_filter_label(entity, f), nm, vue_list_ref(f), vue_nav_class(f))
        } else if f.ftype == "decimal"@ {
            adv_decimal_spec(vue_filter_label(entity, f), nm)
        } else {
            adv_text_spec(vue_filter_label(entity, f), nm)
        },
    }
}

/// The list parts that each field contributes to.
pub enum VueList {
    ModelLines,
    CanSave,
    PayloadPairs,
    DetailReturns,
    IndexFilters,
}

pub open spec fn vue_list(f: FieldV, p: VueList) -> Seq<Seq<char>> {
    let nm = vue_nm(f);
    match p {
        VueList::ModelLines => seq![model_line_spec(nm, vue_default(f))],
        VueList::CanSave => if f.required {
            seq![vue_can(f)]
        } else {
            Seq::empty()
        },
        VueList::PayloadPairs => seq![payload_pair_spec(nm)],
        VueList::DetailReturns => if vue_is_nav(f) {
            seq![vue_list_ref(f)]
        } else {
            Seq::empty()
        },
        VueList::IndexFilters => if vue_filtered(f) {
            seq![filter_line_spec(nm)]
        } else {
            Seq::empty()
        },
    }
}

/// The parts where a field adds text only when the part does not already
/// contain it.
pub enum VueOnce {
    SupportRefs,
    Lookups,
    Mounted,
    FilterMounted,
}

/// The probe and the text added when the probe is absent.
pub open spec fn vue_once(entity: Seq<char>, f: FieldV, p: VueOnce) -> Option<(Seq<char>, Seq<char>)> {
    match p {
        VueOnce::SupportRefs => if vue_is_nav(f) {
            Some((vue_ref_line(f), vue_ref_line(f) + "\n"@))
        } else {
            None
        },
        VueOnce::Lookups => if vue_is_nav(f) {
            Some(
                (
                    vue_fetch_name(f),
                    fetch_fn_spec(vue_list_ref(f), vue_nav_class(f), lower_camel(entity)),
                ),
            )
        } else {
            None
        },
        VueOnce::Mounted => if vue_is_nav(f) {
            Some((vue_prime(f), vue_prime(f)))
        } else {
            None
        },
        VueOnce::FilterMounted => if f.filterable && vue_is_nav(f) {
            Some((vue_prime(f), vue_prime(f)))
        } else {
            None
        },
    }
}

pub open spec fn text_gather(entity: Seq<char>, fs: Seq<FieldV>, p: VueText) -> Seq<char>
    decreases fs.len(),
{
    if fs.len() == 0 {
        Seq::empty()
    } else {
        text_gather(entity, fs.drop_last(), p) + vue_text(entity, fs.last(), p)
    }
}

pub open spec fn list_gather(fs: Seq<FieldV>, p: VueList) -> Seq<Seq<char>>
    decreases fs.len(),
{
    if fs.len() == 0 {
        Seq::empty()
    } else {
        list_gather(fs.drop_last(), p) + vue_list(fs.last(), p)
    }
}

pub open spec fn add_once(acc: Seq<char>, o: Option<(Seq<char>, Seq<char>)>) -> Seq<char> {
    match o {
        Some(pp) => if contains(acc, pp.0) {
            acc
        } else {
            acc + pp.1
        },
        None => acc,
    }
}

pub open spec fn once_fold(start: Seq<char>, entity: Seq<char>, fs: Seq<FieldV>, p: VueOnce) -> Seq<char>
    decreases fs.len(),
{
    if fs.len() == 0 {
        start
    } else {
        add_once(once_fold(start, entity, fs.drop_last(), p), vue_once(entity, fs.last(), p))
    }
}

pub open spec fn push_new(v: Seq<Seq<char>>, x: Seq<char>) -> Seq<Seq<char>> {
    if v.contains(x) {
        v
    } else {
        v.push(x)
    }
}

/// The names that a page returns for its navigation lookups: the list of
/// each navigation field (once per target where `dedup` is set) and each
/// lookup function once.
pub open spec fn returns_fold(fs: Seq<FieldV>, dedup: bool) -> Seq<Seq<char>>
    decreases fs.len(),
{
    if fs.len() == 0 {
        Seq::empty()
    } else {
        let prev = returns_fold(fs.drop_last(), dedup);
        let f = fs.last();
        if vue_is_nav(f) {
            let a = if dedup {
                push_new(prev, vue_list_ref(f))
            } else {
                prev.push(vue_list_ref(f))
            };
            push_new(a, vue_fetch_name(f))
        } else {
            prev
        }
    }
}

pub open spec fn can_expr(cans: Seq<Seq<char>>) -> Seq<char> {
    if cans.len() == 0 {
        "true"@
    } else {
        join(cans, " && "@)
    }
}

pub open spec fn join_refs(v: Seq<Seq<char>>) -> Seq<char> {
    if v.len() == 0 {
        Seq::empty()
    } else {
        ", "@ + join(v, ", "@)
    }
}

/* ------------------------------ FIELD FACTS, COMPUTED ------------------------------ */

fn nm_of(f: &Field) -> (r: String)
    ensures
        r@ == vue_nm(f@),
{
    to_lower_camel(f.name.as_str())
}

fn key_of(entity: &str, f: &Field) -> (r: String)
    ensures
        r@ == vue_key(entity@, f@),
{
    let mut k = copy_str(entity);
    push_str(&mut k, ":");
    push_str(&mut k, f.name.as_str());
    k
}

fn label_of(entity: &str, f: &Field) -> (r: String)
    ensures
        r@ == vue_label(entity@, f@),
{
    let k = key_of(entity, f);
    let mut l = copy_str("@L[\"");
    push_str(&mut l, k.as_str());
    if f.required {
        push_str(&mut l, "\"].Value *");
    } else {
        push_str(&mut l, "\"].Value");
    }
    l
}

fn filter_label_of(entity: &str, f: &Field) -> (r: String)
    ensures
        r@ == vue_filter_label(entity@, f@),
{
    let k = key_of(entity, f);
    let mut l = copy_str("@L[\"");
    push_str(&mut l, k.as_str());
    push_str(&mut l, "\"]");
    l
}

fn stringish(t: &str) -> (r: bool)
    ensures
        r == is_stringish(t@),
{
    str_eq(t, "string") || str_eq(t, "String")
}

fn intish(t: &str) -> (r: bool)
    ensures
        r == is_intish(t@),
{
    str_eq(t, "int") || str_eq(t, "Int32") || str_eq(t, "long") || str_eq(t, "Int64")
}

fn boolish(t: &str) -> (r: bool)
    ensures
        r == is_boolish(t@),
{
    str_eq(t, "bool") || str_eq(t, "Boolean")
}

fn is_nav_of(f: &Field) -> (r: bool)
    ensures
        r == vue_is_nav(f@),
{
    str_eq(f.ftype.as_str(), "Guid") && f.navigation.is_some()
}

fn nav_class_of(f: &Field) -> (r: String)
    ensures
        r@ == vue_nav_class(f@),
{
    match &f.navigation {
        Some(n) => last_segment(n.as_str()),
        None => String::new(),
    }
}

fn display_of(f: &Field) -> (r: String)
    ensures
        r@ == vue_display(f@),
{
    match &f.navigation_display {
        Some(d) => copy_str(d.as_str()),
        None => copy_str("Name"),
    }
}

fn list_ref_of(f: &Field) -> (r: String)
    ensures
        r@ == vue_list_ref(f@),
{
    let c = nav_class_of(f);
    let mut l = to_lower_camel(c.as_str());
    push_str(&mut l, "s");
    l
}

fn fetch_name_of(f: &Field) -> (r: String)
    ensures
        r@ == vue_fetch_name(f@),
{
    let c = nav_class_of(f);
    let mut l = copy_str("fetch");
    push_str(&mut l, c.as_str());
    push_str(&mut l, "Lookup");
    l
}

fn prime_of(f: &Field) -> (r: String)
    ensures
        r@ == vue_prime(f@),
{
    let c = nav_class_of(f);
    let mut l = copy_str("await fetch");
    push_str(&mut l, c.as_str());
    push_str(&mut l, "Lookup(\"\");\n");
    l
}

fn default_of(f: &Field) -> (r: &'static str)
    ensures
        r@ == vue_default(f@),
{
    let t = f.ftype.as_str();
    if stringish(t) || str_eq(t, "textarea") {
        "\"\""
    } else if boolish(t) {
        "false"
    } else {
        "null"
    }
}

fn can_of(f: &Field) -> (r: String)
    ensures
        r@ == vue_can(f@),
{
    let t = f.ftype.as_str();
    let nm = nm_of(f);
    if intish(t) || str_eq(t, "decimal") {
        can_number(nm.as_str())
    } else if boolish(t) {
        copy_str("true")
    } else {
        can_truthy(nm.as_str())
    }
}

/* ------------------------------ TEXT PARTS, COMPUTED ------------------------------ */

fn block_of(entity: &str, f: &Field) -> (r: String)
    ensures
        r@ == vue_text(entity@, f@, VueText::Form),
{
    let t = f.ftype.as_str();
    let label = label_of(entity, f);
    let nm = nm_of(f);
    if stringish(t) {
        form_text(label.as_str(), nm.as_str())
    } else if str_eq(t, "textarea") {
        form_textarea(label.as_str(), nm.as_str())
    } else if str_eq(t, "decimal") {
        form_decimal(label.as_str(), nm.as_str())
    } else if str_eq(t, "Guid") {
        if f.navigation.is_some() {
            let list = list_ref_of(f);
            let cls = nav_class_of(f);
            let clr = if f.required {
                "false"
            } else {
                "true"
            };
            form_nav_select(label.as_str(), nm.as_str(), list.as_str(), cls.as_str(), clr)
        } else {
            form_text(label.as_str(), nm.as_str())
        }
    } else if intish(t) {
        form_number(label.as_str(), nm.as_str())
    } else if boolish(t) {
        form_checkbox(nm.as_str(), label.as_str())
    } else if str_eq(t, "DateTime") {
        form_datetime(label.as_str(), nm.as_str())
    } else {
        form_text(label.as_str(), nm.as_str())
    }
}

fn disable_input_exec(block: &str, binding: &str, type_attr: &str) -> (r: String)
    requires
        binding@.len() > 0,
        type_attr@.len() > 0,
    ensures
        r@ == disable_input(block@, binding@, type_attr@),
{
    proof {
        reveal_strlit(":value=\"model.");
        reveal_strlit(" />");
        reveal_strlit(" disabled />");
        reveal_strlit("");
    }
    assert(""@ =~= Seq::<char>::empty());
    let a = replace_exec(block, binding, ":value=\"model.");
    let b = replace_exec(a.as_str(), type_attr, "");
    replace_exec(b.as_str(), " />", " disabled />")
}

fn detail_of(entity: &str, f: &Field) -> (r: String)
    ensures
        r@ == vue_text(entity@, f@, VueText::Detail),
{
    proof {
        reveal_strlit("v-model=\"model.");
        reveal_strlit("v-model.number=\"model.");
        reveal_strlit(" type=\"text\"");
        reveal_strlit("type=\"text\"");
        reveal_strlit("type=\"number\"");
        reveal_strlit("type=\"datetime-local\"");
        reveal_strlit(":clearable=\"{clr}\"");
        reveal_strlit("/>");
        reveal_strlit("type=\"checkbox\"");
    }
    let t = f.ftype.as_str();
    let b = block_of(entity, f);
    if stringish(t) {
        disable_input_exec(b.as_str(), "v-model=\"model.", " type=\"text\"")
    } else if str_eq(t, "textarea") {
        let label = label_of(entity, f);
        let nm = nm_of(f);
        detail_plaintext(label.as_str(), nm.as_str())
    } else if str_eq(t, "decimal") {
        disable_input_exec(b.as_str(), "v-model.number=\"model.", "type=\"number\"")
    } else if str_eq(t, "Guid") {
        if f.navigation.is_some() {
            let a = replace_exec(b.as_str(), ":clearable=\"{clr}\"", ":clearable=\"false\"");
            replace_exec(a.as_str(), "/>", " disabled\n  />")
        } else {
            disable_input_exec(b.as_str(), "v-model=\"model.", "type=\"text\"")
        }
    } else if intish(t) {
        disable_input_exec(b.as_str(), "v-model.number=\"model.", "type=\"number\"")
    } else if boolish(t) {
        let a = replace_exec(b.as_str(), "v-model=\"model.", ":checked=\"model.");
        replace_exec(a.as_str(), "type=\"checkbox\"", "type=\"checkbox\" disabled")
    } else if str_eq(t, "DateTime") {
        disable_input_exec(b.as_str(), "v-model=\"model.", "type=\"datetime-local\"")
    } else {
        disable_input_exec(b.as_str(), "v-model=\"model.", "type=\"text\"")
    }
}

fn load_of(entity: &str, f: &Field) -> (r: String)
    ensures
        r@ == vue_text(entity@, f@, VueText::EditLoad),
{
    let t = f.ftype.as_str();
    let nm = nm_of(f);
    let el = to_lower_camel(entity);
    if stringish(t) || str_eq(t, "textarea") {
        load_text(nm.as_str(), el.as_str())
    } else if str_eq(t, "decimal") || intish(t) {
        load_plain(nm.as_str(), el.as_str())
    } else if boolish(t) {
        load_bool(nm.as_str(), el.as_str())
    } else {
        load_null(nm.as_str(), el.as_str())
    }
}

fn prime_line_of(entity: &str, f: &Field) -> (r: String)
    ensures
        r@ == vue_text(entity@, f@, VueText::EditPrime),
{
    if is_nav_of(f) {
        let cls = nav_class_of(f);
        let nav = to_lower_camel(cls.as_str());
        let list = list_ref_of(f);
        let d = display_of(f);
        let display = to_lower_camel(d.as_str());
        prime_line(nav.as_str(), list.as_str(), display.as_str(), cls.as_str())
    } else {
        String::new()
    }
}

fn detail_load_of(entity: &str, f: &Field) -> (r: String)
    ensures
        r@ == vue_text(entity@, f@, VueText::DetailLoad),
{
    if is_nav_of(f) {
        let nm = nm_of(f);
        let el = to_lower_camel(entity);
        let list = list_ref_of(f);
        let cls = nav_class_of(f);
        let nav = to_lower_camel(cls.as_str());
        let d = display_of(f);
        let display = to_lower_camel(d.as_str());
        detail_nav_load(nm.as_str(), el.as_str(), list.as_str(), nav.as_str(), display.as_str())
    } else {
        load_of(entity, f)
    }
}

fn query_kind_of(f: &Field) -> (r: QueryKind)
    ensures
        r == vue_query_kind(f@),
{
    let t = f.ftype.as_str();
    if stringish(t) || str_eq(t, "textarea") {
        QueryKind::Plain
    } else if str_eq(t, "Guid") {
        QueryKind::Navigation
    } else if intish(t) || str_eq(t, "decimal") || boolish(t) || str_eq(t, "DateTime") {
        QueryKind::Plain
    } else {
        QueryKind::Ignored
    }
}

fn column_of(entity: &str, f: &Field) -> (r: String)
    ensures
        r@ == vue_text(entity@, f@, VueText::Columns),
{
    if !f.show_in_ui {
        String::new()
    } else if is_nav_of(f) {
        let cls = nav_class_of(f);
        let nav = to_lower_camel(cls.as_str());
        let d = display_of(f);
        let display = to_lower_camel(d.as_str());
        col_nav(nav.as_str(), display.as_str())
    } else {
        let el = to_lower_camel(entity);
        let nm = nm_of(f);
        col_plain(el.as_str(), nm.as_str())
    }
}

fn header_of(entity: &str, f: &Field) -> (r: String)
    ensures
        r@ == vue_text(entity@, f@, VueText::Headers),
{
    if !f.show_in_ui {
        return String::new();
    }
    let mut h = copy_str("            <th>@L[\"");
    if is_nav_of(f) {
        let cls = nav_class_of(f);
        push_str(&mut h, cls.as_str());
    } else {
        let k = key_of(entity, f);
        push_str(&mut h, k.as_str());
    }
    push_str(&mut h, "\"].Value</th>\n");
    h
}

fn advanced_of(entity: &str, f: &Field) -> (r: String)
    ensures
        r@ == vue_text(entity@, f@, VueText::Advanced),
{
    if !f.filterable {
        return String::new();
    }
    let label = filter_label_of(entity, f);
    let nm = nm_of(f);
    if is_nav_of(f) {
        let list = list_ref_of(f);
        let cls = nav_class_of(f);
        adv_nav(label.as_str(), nm.as_str(), list.as_str(), cls.as_str())
    } else if str_eq(f.ftype.as_str(), "decimal") {
        adv_decimal(label.as_str(), nm.as_str())
    } else {
        adv_text(label.as_str(), nm.as_str())
    }
}

fn add_once_exec(acc: &mut String, probe: &str, piece: &str)
    ensures
        final(acc)@ == add_once(old(acc)@, Some((probe@, piece@))),
{
    if !str_contains(acc.as_str(), probe) {
        push_str(acc, piece);
    }
}

fn push_new_exec(v: &mut Vec<String>, x: String)
    ensures
        views(final(v)@) == push_new(views(old(v)@), x@),
{
    let mut i: usize = 0;
    while i < v.len()
        invariant
            i <= v.len(),
            forall|j: int| 0 <= j < i ==> views(v@)[j] != x@,
        decreases v.len() - i,
    {
        if str_eq(v[i].as_str(), x.as_str()) {
            assert(views(v@)[i as int] == x@);
            return;
        }
        i = i + 1;
    }
    let ghost before = views(v@);
    v.push(x);
    assert(views(v@) =~= before.push(x@));
}

fn push_view(v: &mut Vec<String>, x: String)
    ensures
        views(final(v)@) == views(old(v)@).push(x@),
{
    let ghost before = views(v@);
    v.push(x);
    assert(views(v@) =~= before.push(x@));
}

fn copy_list(v: &Vec<String>) -> (r: Vec<String>)
    ensures
        views(r@) == views(v@),
{
    let mut out: Vec<String> = Vec::new();
    let mut i: usize = 0;
    while i < v.len()
        invariant
            i <= v.len(),
            views(out@) == views(v@).take(i as int),
        decreases v.len() - i,
    {
        push_view(&mut out, copy_str(v[i].as_str()));
        i = i + 1;
        assert(views(out@) =~= views(v@).take(i as int));
    }
    assert(views(v@).take(v.len() as int) =~= views(v@));
    out
}

fn can_expr_exec(cans: &Vec<String>) -> (r: String)
    ensures
        r@ == can_expr(views(cans@)),
{
    if cans.len() == 0 {
        copy_str("true")
    } else {
        join_exec(cans, " && ")
    }
}

fn join_refs_exec(v: &Vec<String>) -> (r: String)
    ensures
        r@ == join_refs(views(v@)),
{
    if v.len() == 0 {
        String::new()
    } else {
        let mut r = copy_str(", ");
        let j = join_exec(v, ", ");
        push_str(&mut r, j.as_str());
        r
    }
}

/// The Vue fragments of an entity, one per template placeholder.
pub struct VueBlocks {
    pub web_form_fields_create_vue: String,
    pub web_form_fields_edit_vue: String,
    pub web_form_fields_detail_vue: String,
    pub vue_create_model_fields: String,
    pub vue_edit_model_fields: String,
    pub vue_detail_model_fields: String,
    pub vue_create_cansave_logic: String,
    pub vue_create_cansave_expression: String,
    pub vue_edit_cansave_logic: String,
    pub vue_edit_cansave_expression: String,
    pub vue_create_payload: String,
    pub vue_edit_payload: String,
    pub vue_create_support_refs: String,
    pub vue_edit_support_refs: String,
    pub vue_detail_support_refs: String,
    pub vue_create_lookup_functions: String,
    pub vue_edit_lookup_functions: String,
    pub vue_create_onmounted: String,
    pub vue_create_return_refs: String,
    pub vue_edit_return_refs: String,
    pub vue_detail_return_refs: String,
    pub vue_edit_load_mapping: String,
    pub vue_edit_prime_lookups_if_needed: String,
    pub vue_detail_load_mapping: String,
    pub vue_index_filter_fields: String,
    pub vue_index_clear_filter_defaults: String,
    pub vue_index_watch_filters: String,
    pub web_datatable_columns: String,
    pub vue_index_table_headers: String,
    pub vue_index_default_order_col: String,
    pub vue_index_bulk_delete_block: String,
    pub index_js_string_query_pairs: String,
    pub index_js_nav_query_pairs: String,
    pub vue_index_support_refs: String,
    pub vue_index_lookup_functions: String,
    pub vue_index_onmounted_fetches: String,
    pub vue_index_return_refs: String,
    pub vue_index_advanced_filter_inputs: String,
}

/// The contributions of the fields seen so far to the form pages.
struct FormAcc {
    form: String,
    detail: String,
    edit_load: String,
    edit_prime: String,
    detail_load: String,
    model_lines: Vec<String>,
    cans: Vec<String>,
    pairs: Vec<String>,
    detail_returns: Vec<String>,
    support_refs: String,
    lookups: String,
    mounted: String,
    returns: Vec<String>,
    index_returns: Vec<String>,
}

spec fn form_acc_holds(a: FormAcc, e: Seq<char>, fs: Seq<FieldV>) -> bool {
    &&& a.form@ == text_gather(e, fs, VueText::Form)
    &&& a.detail@ == text_gather(e, fs, VueText::Detail)
    &&& a.edit_load@ == text_gather(e, fs, VueText::EditLoad)
    &&& a.edit_prime@ == text_gather(e, fs, VueText::EditPrime)
    &&& a.detail_load@ == text_gather(e, fs, VueText::DetailLoad)
    &&& views(a.model_lines@) == list_gather(fs, VueList::ModelLines)
    &&& views(a.cans@) == list_gather(fs, VueList::CanSave)
    &&& views(a.pairs@) == list_gather(fs, VueList::PayloadPairs)
    &&& views(a.detail_returns@) == list_gather(fs, VueList::DetailReturns)
    &&& a.support_refs@ == once_fold(Seq::empty(), e, fs, VueOnce::SupportRefs)
    &&& a.lookups@ == once_fold(Seq::empty(), e, fs, VueOnce::Lookups)
    &&& a.mounted@ == once_fold(Seq::empty(), e, fs, VueOnce::Mounted)
    &&& views(a.returns@) == returns_fold(fs, false)
    &&& views(a.index_returns@) == returns_fold(fs, true)
}

fn add_form_field(a: &mut FormAcc, entity: &str, f: &Field, Ghost(fs): Ghost<Seq<FieldV>>)
    requires
        form_acc_holds(*old(a), entity@, fs.drop_last()),
        fs.len() > 0,
        fs.last() == f@,
    ensures
        form_acc_holds(*final(a), entity@, fs),
{
    push_str(&mut a.form, block_of(entity, f).as_str());
    push_str(&mut a.detail, detail_of(entity, f).as_str());
    push_str(&mut a.edit_load, load_of(entity, f).as_str());
    push_str(&mut a.edit_prime, prime_line_of(entity, f).as_str());
    push_str(&mut a.detail_load, detail_load_of(entity, f).as_str());
    let nm = nm_of(f);
    push_view(&mut a.model_lines, model_line(nm.as_str(), default_of(f)));
    if f.required {
        push_view(&mut a.cans, can_of(f));
    }
    push_view(&mut a.pairs, payload_pair(nm.as_str()));
    assert(vue_list(f@, VueList::CanSave) =~= if f.required {
        seq![vue_can(f@)]
    } else {
        Seq::empty()
    });
    proof {
        assert(list_gather(fs, VueList::ModelLines) =~= list_gather(fs.drop_last(), VueList::ModelLines).push(model_line_spec(vue_nm(f@), vue_default(f@))));
        assert(list_gather(fs, VueList::PayloadPairs) =~= list_gather(fs.drop_last(), VueList::PayloadPairs).push(payload_pair_spec(vue_nm(f@))));
        if f.required {
            assert(list_gather(fs, VueList::CanSave) =~= list_gather(fs.drop_last(), VueList::CanSave).push(vue_can(f@)));
        } else {
            assert(list_gather(fs, VueList::CanSave) =~= list_gather(fs.drop_last(), VueList::CanSave));
        }
    }
    if is_nav_of(f) {
        let list = list_ref_of(f);
        let cls = nav_class_of(f);
        let el = to_lower_camel(entity);
        let mut line = copy_str("const ");
        push_str(&mut line, list.as_str());
        push_str(&mut line, " = ref([]);");
        let mut piece = copy_str(line.as_str());
        push_str(&mut piece, "\n");
        add_once_exec(&mut a.support_refs, line.as_str(), piece.as_str());
        let fetch = fetch_fn(list.as_str(), cls.as_str(), el.as_str());
        let name = fetch_name_of(f);
        add_once_exec(&mut a.lookups, name.as_str(), fetch.as_str());
        let prime = prime_of(f);
        add_once_exec(&mut a.mounted, prime.as_str(), prime.as_str());
        push_view(&mut a.detail_returns, copy_str(list.as_str()));
        assert(list_gather(fs, VueList::DetailReturns) =~= list_gather(fs.drop_last(), VueList::DetailReturns).push(vue_list_ref(f@)));
        push_view(&mut a.returns, copy_str(list.as_str()));
        push_new_exec(&mut a.returns, copy_str(name.as_str()));
        push_new_exec(&mut a.index_returns, copy_str(list.as_str()));
        push_new_exec(&mut a.index_returns, name);
    } else {
        assert(list_gather(fs, VueList::DetailReturns) =~= list_gather(fs.drop_last(), VueList::DetailReturns));
    }
}

/// The contributions of the fields seen so far to the index page.
struct IndexAcc {
    filters: Vec<String>,
    watch: String,
    string_pairs: String,
    nav_pairs: String,
    columns: String,
    headers: String,
    mounted: String,
    advanced: String,
}

spec fn index_acc_holds(b: IndexAcc, start: Seq<char>, e: Seq<char>, fs: Seq<FieldV>) -> bool {
    &&& views(b.filters@) == list_gather(fs, VueList::IndexFilters)
    &&& b.watch@ == text_gather(e, fs, VueText::Watch)
    &&& b.string_pairs@ == text_gather(e, fs, VueText::StringPairs)
    &&& b.nav_pairs@ == text_gather(e, fs, VueText::NavPairs)
    &&& b.columns@ == text_gather(e, fs, VueText::Columns)
    &&& b.headers@ == text_gather(e, fs, VueText::Headers)
    &&& b.mounted@ == once_fold(start, e, fs, VueOnce::FilterMounted)
    &&& b.advanced@ == text_gather(e, fs, VueText::Advanced)
}

fn add_index_field(b: &mut IndexAcc, entity: &str, f: &Field, Ghost(start): Ghost<Seq<char>>, Ghost(fs): Ghost<Seq<FieldV>>)
    requires
        index_acc_holds(*old(b), start, entity@, fs.drop_last()),
        fs.len() > 0,
        fs.last() == f@,
    ensures
        index_acc_holds(*final(b), start, entity@, fs),
{
    let nm = nm_of(f);
    let kind = query_kind_of(f);
    let listed = f.filterable && !matches!(kind, QueryKind::Ignored);
    if listed {
        push_view(&mut b.filters, filter_line(nm.as_str()));
        push_str(&mut b.watch, watch_line(nm.as_str()).as_str());
        assert(list_gather(fs, VueList::IndexFilters) =~= list_gather(fs.drop_last(), VueList::IndexFilters).push(filter_line_spec(vue_nm(f@))));
    } else {
        assert(list_gather(fs, VueList::IndexFilters) =~= list_gather(fs.drop_last(), VueList::IndexFilters));
        assert(text_gather(entity@, fs, VueText::Watch) =~= text_gather(entity@, fs.drop_last(), VueText::Watch));
    }
    if f.filterable {
        match kind {
            QueryKind::Plain => push_str(&mut b.string_pairs, query_pair(nm.as_str()).as_str()),
            QueryKind::Navigation => push_str(&mut b.nav_pairs, query_pair(nm.as_str()).as_str()),
            QueryKind::Ignored => {},
        }
    }
    assert(text_gather(entity@, fs, VueText::StringPairs) =~= text_gather(entity@, fs.drop_last(), VueText::StringPairs) + vue_text(entity@, f@, VueText::StringPairs));
    assert(text_gather(entity@, fs, VueText::NavPairs) =~= text_gather(entity@, fs.drop_last(), VueText::NavPairs) + vue_text(entity@, f@, VueText::NavPairs));
    push_str(&mut b.columns, column_of(entity, f).as_str());
    push_str(&mut b.headers, header_of(entity, f).as_str());
    push_str(&mut b.advanced, advanced_of(entity, f).as_str());
    if f.filterable && is_nav_of(f) {
        let prime = prime_of(f);
        add_once_exec(&mut b.mounted, prime.as_str(), prime.as_str());
    }
}

fn save_logic(can: &str) -> (r: String)
    ensures
        r@ == "return "@ + can@ + ";"@,
{
    let mut r = copy_str("return ");
    push_str(&mut r, can);
    push_str(&mut r, ";");
    r
}

fn payload_object(pairs: &Vec<String>) -> (r: String)
    ensures
        r@ == "{ "@ + join(views(pairs@), ", "@) + " }"@,
{
    let mut r = copy_str("{ ");
    let j = join_exec(pairs, ", ");
    push_str(&mut r, j.as_str());
    push_str(&mut r, " }");
    r
}

/// The Vue fragments for `entity` with `fields`. Each part is the fields'
/// contributions in order; text that declares a lookup list, a lookup
/// function or an initial fetch is added only where the part does not
/// already contain it.
pub fn vue_ui_blocks(entity: &str, fields: &[Field], _mapping: &Mapping) -> (r: VueBlocks)
    ensures
        ({
            let e = entity@;
            let fs = fields_view(fields@);
            &&& r.web_form_fields_create_vue@ == text_gather(e, fs, VueText::Form)
            &&& r.web_form_fields_edit_vue@ == text_gather(e, fs, VueText::Form)
            &&& r.web_form_fields_detail_vue@ == text_gather(e, fs, VueText::Detail)
            &&& r.vue_create_model_fields@ == join(list_gather(fs, VueList::ModelLines), ",\n      "@)
            &&& r.vue_edit_model_fields@ == join(list_gather(fs, VueList::ModelLines).push("concurrencyStamp: null"@), ",\n      "@)
            &&& r.vue_detail_model_fields@ == join(list_gather(fs, VueList::ModelLines), ",\n      "@)
            &&& r.vue_create_cansave_logic@ == "return "@ + can_expr(list_gather(fs, VueList::CanSave)) + ";"@
            &&& r.vue_create_cansave_expression@ == can_expr(list_gather(fs, VueList::CanSave))
            &&& r.vue_edit_cansave_logic@ == "return "@ + can_expr(list_gather(fs, VueList::CanSave)) + ";"@
            &&& r.vue_edit_cansave_expression@ == can_expr(list_gather(fs, VueList::CanSave))
            &&& r.vue_create_payload@ == "{ "@ + join(list_gather(fs, VueList::PayloadPairs), ", "@) + " }"@
            &&& r.vue_edit_payload@ == "{ "@ + join(list_gather(fs, VueList::PayloadPairs).push("concurrencyStamp: model.concurrencyStamp"@), ", "@) + " }"@
            &&& r.vue_create_support_refs@ == once_fold(Seq::empty(), e, fs, VueOnce::SupportRefs)
            &&& r.vue_edit_support_refs@ == once_fold(Seq::empty(), e, fs, VueOnce::SupportRefs)
            &&& r.vue_detail_support_refs@ == once_fold(Seq::empty(), e, fs, VueOnce::SupportRefs)
            &&& r.vue_create_lookup_functions@ == once_fold(Seq::empty(), e, fs, VueOnce::Lookups)
            &&& r.vue_edit_lookup_functions@ == once_fold(Seq::empty(), e, fs, VueOnce::Lookups)
            &&& r.vue_create_onmounted@ == once_fold(Seq::empty(), e, fs, VueOnce::Mounted)
            &&& r.vue_create_return_refs@ == join_refs(returns_fold(fs, false))
            &&& r.vue_edit_return_refs@ == join_refs(returns_fold(fs, false))
            &&& r.vue_detail_return_refs@ == join_refs(list_gather(fs, VueList::DetailReturns))
            &&& r.vue_edit_load_mapping@ == text_gather(e, fs, VueText::EditLoad) + stamp_load_spec(lower_camel(e))
            &&& r.vue_edit_prime_lookups_if_needed@ == text_gather(e, fs, VueText::EditPrime)
            &&& r.vue_detail_load_mapping@ == text_gather(e, fs, VueText::DetailLoad)
            &&& r.vue_index_filter_fields@ == join(list_gather(fs, VueList::IndexFilters), ",\n      "@)
            &&& r.vue_index_clear_filter_defaults@ == join(seq!["filterText: \"\""@] + list_gather(fs, VueList::IndexFilters), ",\n        "@)
            &&& r.vue_index_watch_filters@ == text_gather(e, fs, VueText::Watch)
            &&& r.web_datatable_columns@ == trim_end(text_gather(e, fs, VueText::Columns))
            &&& r.vue_index_table_headers@ == trim_end(text_gather(e, fs, VueText::Headers))
            &&& r.vue_index_default_order_col@ == "1"@
            &&& r.vue_index_bulk_delete_block@ == bulk_delete_spec(plural(e))
            &&& r.index_js_string_query_pairs@ == trim_end(text_gather(e, fs, VueText::StringPairs))
            &&& r.index_js_nav_query_pairs@ == trim_end(text_gather(e, fs, VueText::NavPairs))
            &&& r.vue_index_support_refs@ == once_fold(Seq::empty(), e, fs, VueOnce::SupportRefs)
            &&& r.vue_index_lookup_functions@ == once_fold(Seq::empty(), e, fs, VueOnce::Lookups)
            &&& r.vue_index_onmounted_fetches@ == once_fold(once_fold(Seq::empty(), e, fs, VueOnce::Mounted), e, fs, VueOnce::FilterMounted)
            &&& r.vue_index_return_refs@ == join_refs(returns_fold(fs, true))
            &&& r.vue_index_advanced_filter_inputs@ == trim_end(text_gather(e, fs, VueText::Advanced))
        }),
{
    let ghost fs = fields_view(fields@);
    let ghost e = entity@;
    let mut a = FormAcc {
        form: String::new(),
        detail: String::new(),
        edit_load: String::new(),
        edit_prime: String::new(),
        detail_load: String::new(),
        model_lines: Vec::new(),
        cans: Vec::new(),
        pairs: Vec::new(),
        detail_returns: Vec::new(),
        support_refs: String::new(),
        lookups: String::new(),
        mounted: String::new(),
        returns: Vec::new(),
        index_returns: Vec::new(),
    };
    assert(fs.take(0) =~= Seq::<FieldV>::empty());
    assert(views(a.model_lines@) =~= Seq::<Seq<char>>::empty());
    assert(views(a.cans@) =~= Seq::<Seq<char>>::empty());
    assert(views(a.pairs@) =~= Seq::<Seq<char>>::empty());
    assert(views(a.detail_returns@) =~= Seq::<Seq<char>>::empty());
    assert(views(a.returns@) =~= Seq::<Seq<char>>::empty());
    assert(views(a.index_returns@) =~= Seq::<Seq<char>>::empty());
    let mut i: usize = 0;
    while i < fields.len()
        invariant
            i <= fields.len(),
            fs == fields_view(fields@),
            e == entity@,
            form_acc_holds(a, e, fs.take(i as int)),
        decreases fields.len() - i,
    {
        let ghost next = fs.take(i + 1);
        assert(next.drop_last() =~= fs.take(i as int));
        add_form_field(&mut a, entity, &fields[i], Ghost(next));
        i = i + 1;
    }
    assert(fs.take(fields.len() as int) =~= fs);
    let ghost start = a.mounted@;
    let mut b = IndexAcc {
        filters: Vec::new(),
        watch: String::new(),
        string_pairs: String::new(),
        nav_pairs: String::new(),
        columns: String::new(),
        headers: String::new(),
        mounted: copy_str(a.mounted.as_str()),
        advanced: String::new(),
    };
    assert(views(b.filters@) =~= Seq::<Seq<char>>::empty());
    let mut k: usize = 0;
    while k < fields.len()
        invariant
            k <= fields.len(),
            fs == fields_view(fields@),
            e == entity@,
            index_acc_holds(b, start, e, fs.take(k as int)),
        decreases fields.len() - k,
    {
        let ghost next = fs.take(k + 1);
        assert(next.drop_last() =~= fs.take(k as int));
        add_index_field(&mut b, entity, &fields[k], Ghost(start), Ghost(next));
        k = k + 1;
    }
    let mut edit_model = copy_list(&a.model_lines);
    push_view(&mut edit_model, copy_str("concurrencyStamp: null"));
    let mut edit_pairs = copy_list(&a.pairs);
    push_view(&mut edit_pairs, copy_str("concurrencyStamp: model.concurrencyStamp"));
    let can = can_expr_exec(&a.cans);
    let mut edit_load = copy_str(a.edit_load.as_str());
    let el = to_lower_camel(entity);
    push_str(&mut edit_load, stamp_load(el.as_str()).as_str());
    let mut clear: Vec<String> = Vec::new();
    push_view(&mut clear, copy_str("filterText: \"\""));
    let mut j: usize = 0;
    let ghost head = views(clear@);
    while j < b.filters.len()
        invariant
            j <= b.filters.len(),
            views(clear@) == head + views(b.filters@).take(j as int),
        decreases b.filters.len() - j,
    {
        push_view(&mut clear, copy_str(b.filters[j].as_str()));
        j = j + 1;
        assert(views(clear@) =~= head + views(b.filters@).take(j as int));
    }
    assert(views(b.filters@).take(b.filters.len() as int) =~= views(b.filters@));
    let plural_name = pluralize(entity);
    VueBlocks {
        web_form_fields_create_vue: copy_str(a.form.as_str()),
        web_form_fields_edit_vue: copy_str(a.form.as_str()),
        web_form_fields_detail_vue: copy_str(a.detail.as_str()),
        vue_create_model_fields: join_exec(&a.model_lines, ",\n      "),
        vue_edit_model_fields: join_exec(&edit_model, ",\n      "),
        vue_detail_model_fields: join_exec(&a.model_lines, ",\n      "),
        vue_create_cansave_logic: save_logic(can.as_str()),
        vue_create_cansave_expression: copy_str(can.as_str()),
        vue_edit_cansave_logic: save_logic(can.as_str()),
        vue_edit_cansave_expression: copy_str(can.as_str()),
        vue_create_payload: payload_object(&a.pairs),
        vue_edit_payload: payload_object(&edit_pairs),
        vue_create_support_refs: copy_str(a.support_refs.as_str()),
        vue_edit_support_refs: copy_str(a.support_refs.as_str()),
        vue_detail_support_refs: copy_str(a.support_refs.as_str()),
        vue_create_lookup_functions: copy_str(a.lookups.as_str()),
        vue_edit_lookup_functions: copy_str(a.lookups.as_str()),
        vue_create_onmounted: copy_str(a.mounted.as_str()),
        vue_create_return_refs: join_refs_exec(&a.returns),
        vue_edit_return_refs: join_refs_exec(&a.returns),
        vue_detail_return_refs: join_refs_exec(&a.detail_returns),
        vue_edit_load_mapping: edit_load,
        vue_edit_prime_lookups_if_needed: copy_str(a.edit_prime.as_str()),
        vue_detail_load_mapping: copy_str(a.detail_load.as_str()),
        vue_index_filter_fields: join_exec(&b.filters, ",\n      "),
        vue_index_clear_filter_defaults: join_exec(&clear, ",\n        "),
        vue_index_watch_filters: copy_str(b.watch.as_str()),
        web_datatable_columns: trim_end_exec(b.columns.as_str()),
        vue_index_table_headers: trim_end_exec(b.headers.as_str()),
        vue_index_default_order_col: copy_str("1"),
        vue_index_bulk_delete_block: bulk_delete(plural_name.as_str()),
        index_js_string_query_pairs: trim_end_exec(b.string_pairs.as_str()),
        index_js_nav_query_pairs: trim_end_exec(b.nav_pairs.as_str()),
        vue_index_support_refs: copy_str(a.support_refs.as_str()),
        vue_index_lookup_functions: copy_str(a.lookups.as_str()),
        vue_index_onmounted_fetches: copy_str(b.mounted.as_str()),
        vue_index_return_refs: join_refs_exec(&a.index_returns),
        vue_index_advanced_filter_inputs: trim_end_exec(b.advanced.as_str()),
    }
}

impl VueBlocks {
    /// The placeholder pairs in the order in which they are stored.
    pub open spec fn placeholder_pairs(&self) -> Seq<(Seq<char>, Seq<char>)> {
        Seq::empty()
            .push(("web_form_fields_create_vue"@, self.web_form_fields_create_vue@))
            .push(("web_form_fields_edit_vue"@, self.web_form_fields_edit_vue@))
            .push(("web_form_fields_detail_vue"@, self.web_form_fields_detail_vue@))
            .push(("vue_create_model_fields"@, self.vue_create_model_fields@))
            .push(("vue_edit_model_fields"@, self.vue_edit_model_fields@))
            .push(("vue_detail_model_fields"@, self.vue_detail_model_fields@))
            .push(("vue_create_cansave_logic"@, self.vue_create_cansave_logic@))
            .push(("vue_create_cansave_expression"@, self.vue_create_cansave_expression@))
            .push(("vue_edit_cansave_logic"@, self.vue_edit_cansave_logic@))
            .push(("vue_edit_cansave_expression"@, self.vue_edit_cansave_expression@))
            .push(("vue_create_payload"@, self.vue_create_payload@))
            .push(("vue_edit_payload"@, self.vue_edit_payload@))
            .push(("vue_create_support_refs"@, self.vue_create_support_refs@))
            .push(("vue_edit_support_refs"@, self.vue_edit_support_refs@))
            .push(("vue_detail_support_refs"@, self.vue_detail_support_refs@))
            .push(("vue_create_lookup_functions"@, self.vue_create_lookup_functions@))
            .push(("vue_edit_lookup_functions"@, self.vue_edit_lookup_functions@))
            .push(("vue_create_onmounted"@, self.vue_create_onmounted@))
            .push(("vue_create_return_refs"@, self.vue_create_return_refs@))
            .push(("vue_edit_return_refs"@, self.vue_edit_return_refs@))
            .push(("vue_detail_return_refs"@, self.vue_detail_return_refs@))
            .push(("vue_edit_load_mapping"@, self.vue_edit_load_mapping@))
            .push(("vue_edit_prime_lookups_if_needed"@, self.vue_edit_prime_lookups_if_needed@))
            .push(("vue_detail_load_mapping"@, self.vue_detail_load_mapping@))
            .push(("vue_index_filter_fields"@, self.vue_index_filter_fields@))
            .push(("vue_index_clear_filter_defaults"@, self.vue_index_clear_filter_defaults@))
            .push(("vue_index_watch_filters"@, self.vue_index_watch_filters@))
            .push(("web_datatable_columns"@, self.web_datatable_columns@))
            .push(("vue_index_table_headers"@, self.vue_index_table_headers@))
            .push(("vue_index_default_order_col"@, self.vue_index_default_order_col@))
            .push(("vue_index_bulk_delete_block"@, self.vue_index_bulk_delete_block@))
            .push(("index_js_string_query_pairs"@, self.index_js_string_query_pairs@))
            .push(("index_js_nav_query_pairs"@, self.index_js_nav_query_pairs@))
            .push(("vue_index_support_refs"@, self.vue_index_support_refs@))
            .push(("vue_index_lookup_functions"@, self.vue_index_lookup_functions@))
            .push(("vue_index_onmounted_fetches"@, self.vue_index_onmounted_fetches@))
            .push(("vue_index_return_refs"@, self.vue_index_return_refs@))
            .push(("vue_index_advanced_filter_inputs"@, self.vue_index_advanced_filter_inputs@))
    }

    /// The fragments as template placeholder values: each listed key holds
    /// its fragment, and no other key is present.
    pub fn placeholders(&self) -> (r: Mapping)
        ensures
            forall|q: Seq<char>| #[trigger] r.get_spec(q) == last_value(self.placeholder_pairs(), q),
    {
        let mut v: Vec<(String, String)> = Vec::new();
        assert(entry_views(v@) =~= Seq::<(Seq<char>, Seq<char>)>::empty());
        add_pair(&mut v, "web_form_fields_create_vue", self.web_form_fields_create_vue.as_str());
        add_pair(&mut v, "web_form_fields_edit_vue", self.web_form_fields_edit_vue.as_str());
        add_pair(&mut v, "web_form_fields_detail_vue", self.web_form_fields_detail_vue.as_str());
        add_pair(&mut v, "vue_create_model_fields", self.vue_create_model_fields.as_str());
        add_pair(&mut v, "vue_edit_model_fields", self.vue_edit_model_fields.as_str());
        add_pair(&mut v, "vue_detail_model_fields", self.vue_detail_model_fields.as_str());
        add_pair(&mut v, "vue_create_cansave_logic", self.vue_create_cansave_logic.as_str());
        add_pair(&mut v, "vue_create_cansave_expression", self.vue_create_cansave_expression.as_str());
        add_pair(&mut v, "vue_edit_cansave_logic", self.vue_edit_cansave_logic.as_str());
        add_pair(&mut v, "vue_edit_cansave_expression", self.vue_edit_cansave_expression.as_str());
        add_pair(&mut v, "vue_create_payload", self.vue_create_payload.as_str());
        add_pair(&mut v, "vue_edit_payload", self.vue_edit_payload.as_str());
        add_pair(&mut v, "vue_create_support_refs", self.vue_create_support_refs.as_str());
        add_pair(&mut v, "vue_edit_support_refs", self.vue_edit_support_refs.as_str());
        add_pair(&mut v, "vue_detail_support_refs", self.vue_detail_support_refs.as_str());
        add_pair(&mut v, "vue_create_lookup_functions", self.vue_create_lookup_functions.as_str());
        add_pair(&mut v, "vue_edit_lookup_functions", self.vue_edit_lookup_functions.as_str());
        add_pair(&mut v, "vue_create_onmounted", self.vue_create_onmounted.as_str());
        add_pair(&mut v, "vue_create_return_refs", self.vue_create_return_refs.as_str());
        add_pair(&mut v, "vue_edit_return_refs", self.vue_edit_return_refs.as_str());
        add_pair(&mut v, "vue_detail_return_refs", self.vue_detail_return_refs.as_str());
        add_pair(&mut v, "vue_edit_load_mapping", self.vue_edit_load_mapping.as_str());
        add_pair(&mut v, "vue_edit_prime_lookups_if_needed", self.vue_edit_prime_lookups_if_needed.as_str());
        add_pair(&mut v, "vue_detail_load_mapping", self.vue_detail_load_mapping.as_str());
        add_pair(&mut v, "vue_index_filter_fields", self.vue_index_filter_fields.as_str());
        add_pair(&mut v, "vue_index_clear_filter_defaults", self.vue_index_clear_filter_defaults.as_str());
        add_pair(&mut v, "vue_index_watch_filters", self.vue_index_watch_filters.as_str());
        add_pair(&mut v, "web_datatable_columns", self.web_datatable_columns.as_str());
        add_pair(&mut v, "vue_index_table_headers", self.vue_index_table_headers.as_str());
        add_pair(&mut v, "vue_index_default_order_col", self.vue_index_default_order_col.as_str());
        add_pair(&mut v, "vue_index_bulk_delete_block", self.vue_index_bulk_delete_block.as_str());
        add_pair(&mut v, "index_js_string_query_pairs", self.index_js_string_query_pairs.as_str());
        add_pair(&mut v, "index_js_nav_query_pairs", self.index_js_nav_query_pairs.as_str());
        add_pair(&mut v, "vue_index_support_refs", self.vue_index_support_refs.as_str());
        add_pair(&mut v, "vue_index_lookup_functions", self.vue_index_lookup_functions.as_str());
        add_pair(&mut v, "vue_index_onmounted_fetches", self.vue_index_onmounted_fetches.as_str());
        add_pair(&mut v, "vue_index_return_refs", self.vue_index_return_refs.as_str());
        add_pair(&mut v, "vue_index_advanced_filter_inputs", self.vue_index_advanced_filter_inputs.as_str());
        assert(entry_views(v@) =~= self.placeholder_pairs());
        Mapping::from_pairs(&v)
    }
}
} // verus!
