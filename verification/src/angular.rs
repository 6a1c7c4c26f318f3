//! The Angular feature's code fragments for an entity's fields: table
//! columns, form controls, filters, payload conversions and the typed REST
//! proxy.
use crate::csharp::{angular_type, angular_type_spec};
use crate::models::{Field, FieldV, fields_view};
use crate::naming::{
    kebab, last_segment, last_segment_spec, lower_camel, plural, pluralize, to_kebab,
    to_lower_camel,
};
use crate::text::{
    copy_str, decimal, decimal_exec, eq_ignore_case, join, join_exec, lower, push_str, str_eq,
    trim, trim_end, trim_end_exec, trim_exec, views,
};
use vstd::prelude::*;

verus! {

broadcast use vstd::string::group_string_axioms;

/* ------------------------------ FRAGMENTS ------------------------------ */

pub open spec fn col_nav_spec(cap: Seq<char>, scr: Seq<char>, nav: Seq<char>, display: Seq<char>) -> Seq<char> {
    "\n  <!-- "@ + cap + " (navigation) -->\n  <ngx-datatable-column [name]=\"'::"@ + scr + ":"@ + cap + "' | abpLocalization\">\n    <ng-template let-row=\"row\" ngx-datatable-cell-template>\n      {{ row."@ + nav + "?."@ + display + " ?? '-' }}\n    </ng-template>\n  </ngx-datatable-column>"@
}

fn col_nav(cap: &str, scr: &str, nav: &str, display: &str) -> (r: String)
    ensures
        r@ == col_nav_spec(cap@, scr@, nav@, display@),
{
    let mut r = String::new();
    push_str(&mut r, "\n  <!-- ");
    push_str(&mut r, cap);
    push_str(&mut r, " (navigation) -->\n  <ngx-datatable-column [name]=\"'::");
    push_str(&mut r, scr);
    push_str(&mut r, ":");
    push_str(&mut r, cap);
    push_str(&mut r, "' | abpLocalization\">\n    <ng-template let-row=\"row\" ngx-datatable-cell-template>\n      {{ row.");
    push_str(&mut r, nav);
    push_str(&mut r, "?.");
    push_str(&mut r, display);
    push_str(&mut r, " ?? '-' }}\n    </ng-template>\n  </ngx-datatable-column>");
    r
}

pub open spec fn col_plain_spec(cap: Seq<char>, scr: Seq<char>, ent: Seq<char>, prop: Seq<char>) -> Seq<char> {
    "\n  <!-- "@ + cap + " -->\n  <ngx-datatable-column [name]=\"'::"@ + scr + ":"@ + cap + "' | abpLocalization\">\n    <ng-template let-row=\"row\" ngx-datatable-cell-template>\n      {{ row."@ + ent + "."@ + prop + " ?? '-' }}\n    </ng-template>\n  </ngx-datatable-column>"@
}

fn col_plain(cap: &str, scr: &str, ent: &str, prop: &str) -> (r: String)
    ensures
        r@ == col_plain_spec(cap@, scr@, ent@, prop@),
{
    let mut r = String::new();
    push_str(&mut r, "\n  <!-- ");
    push_str(&mut r, cap);
    push_str(&mut r, " -->\n  <ngx-datatable-column [name]=\"'::");
    push_str(&mut r, scr);
    push_str(&mut r, ":");
    push_str(&mut r, cap);
    push_str(&mut r, "' | abpLocalization\">\n    <ng-template let-row=\"row\" ngx-datatable-cell-template>\n      {{ row.");
    push_str(&mut r, ent);
    push_str(&mut r, ".");
    push_str(&mut r, prop);
    push_str(&mut r, " ?? '-' }}\n    </ng-template>\n  </ngx-datatable-column>");
    r
}

pub open spec fn required_hint_spec(name: Seq<char>) -> Seq<char> {
    "\n      <div class=\"text-danger\" *ngIf=\"form.get('"@ + name + "')?.invalid && form.get('"@ + name + "')?.touched\">\n        {{ '::FieldIsRequired' | abpLocalization }}\n      </div>"@
}

fn required_hint(name: &str) -> (r: String)
    ensures
        r@ == required_hint_spec(name@),
{
    let mut r = String::new();
    push_str(&mut r, "\n      <div class=\"text-danger\" *ngIf=\"form.get('");
    push_str(&mut r, name);
    push_str(&mut r, "')?.invalid && form.get('");
    push_str(&mut r, name);
    push_str(&mut r, "')?.touched\">\n        {{ '::FieldIsRequired' | abpLocalization }}\n      </div>");
    r
}

pub open spec fn max_length_attr_spec(max: Seq<char>) -> Seq<char> {
    " maxlength=\""@ + max + "\""@
}

fn max_length_attr(max: &str) -> (r: String)
    ensures
        r@ == max_length_attr_spec(max@),
{
    let mut r = String::new();
    push_str(&mut r, " maxlength=\"");
    push_str(&mut r, max);
    push_str(&mut r, "\"");
    r
}

pub open spec fn modal_nav_spec(scr: Seq<char>, cap: Seq<char>, req: Seq<char>, nav: Seq<char>, nav_type: Seq<char>, ctrl: Seq<char>, val: Seq<char>) -> Seq<char> {
    "\n      <div class=\"mb-3\">\n        <label class=\"form-label\">\n          {{ '::"@ + scr + ":"@ + cap + "' | abpLocalization }}"@ + req + "\n        </label>\n        <div class=\"input-group\">\n          <input\n            class=\"form-control\"\n            type=\"text\"\n            [placeholder]=\"'::Search' | abpLocalization\"\n            #"@ + nav + "ModalSearch\n            (input)=\"on"@ + nav_type + "Search("@ + nav + "ModalSearch.value)\"\n          />\n          <select class=\"form-select\" formControlName=\""@ + ctrl + "\">\n            <option [ngValue]=\"null\"></option>\n            <option *ngFor=\"let o of "@ + nav + "Options\" [ngValue]=\"o.id\">{ o.displayName }</option>\n          </select>\n        </div>"@ + val + "\n      </div>"@
}

fn modal_nav(scr: &str, cap: &str, req: &str, nav: &str, nav_type: &str, ctrl: &str, val: &str) -> (r: String)
    ensures
        r@ == modal_nav_spec(scr@, cap@, req@, nav@, nav_type@, ctrl@, val@),
{
    let mut r = String::new();
    push_str(&mut r, "\n      <div class=\"mb-3\">\n        <label class=\"form-label\">\n          {{ '::");
    push_str(&mut r, scr);
    push_str(&mut r, ":");
    push_str(&mut r, cap);
    push_str(&mut r, "' | abpLocalization }}");
    push_str(&mut r, req);
    push_str(&mut r, "\n        </label>\n        <div class=\"input-group\">\n          <input\n            class=\"form-control\"\n            type=\"text\"\n            [placeholder]=\"'::Search' | abpLocalization\"\n            #");
    push_str(&mut r, nav);
    push_str(&mut r, "ModalSearch\n            (input)=\"on");
    push_str(&mut r, nav_type);
    push_str(&mut r, "Search(");
    push_str(&mut r, nav);
    push_str(&mut r, "ModalSearch.value)\"\n          />\n          <select class=\"form-select\" formControlName=\"");
    push_str(&mut r, ctrl);
    push_str(&mut r, "\">\n            <option [ngValue]=\"null\"></option>\n            <option *ngFor=\"let o of ");
    push_str(&mut r, nav);
    push_str(&mut r, "Options\" [ngValue]=\"o.id\">{ o.displayName }</option>\n          </select>\n        </div>");
    push_str(&mut r, val);
    push_str(&mut r, "\n      </div>");
    r
}

pub open spec fn nav_binding_spec(nav: Seq<char>, nav_type: Seq<char>) -> Seq<char> {
    "\n    this."@ + nav + "Search$\n      .pipe(\n        debounceTime(300),\n        distinctUntilChanged(),\n        switchMap(filter =>\n          this.service.get"@ + nav_type + "Lookup({ filter, maxResultCount: 50, skipCount: 0 }),\n        ),\n        takeUntilDestroyed(this.destroyRef),\n      )\n      .subscribe(res => (this."@ + nav + "Options = res.items ?? []));"@
}

fn nav_binding(nav: &str, nav_type: &str) -> (r: String)
    ensures
        r@ == nav_binding_spec(nav@, nav_type@),
{
    let mut r = String::new();
    push_str(&mut r, "\n    this.");
    push_str(&mut r, nav);
    push_str(&mut r, "Search$\n      .pipe(\n        debounceTime(300),\n        distinctUntilChanged(),\n        switchMap(filter =>\n          this.service.get");
    push_str(&mut r, nav_type);
    push_str(&mut r, "Lookup({ filter, maxResultCount: 50, skipCount: 0 }),\n        ),\n        takeUntilDestroyed(this.destroyRef),\n      )\n      .subscribe(res => (this.");
    push_str(&mut r, nav);
    push_str(&mut r, "Options = res.items ?? []));");
    r
}

pub open spec fn nav_helper_spec(nav_type: Seq<char>, nav: Seq<char>) -> Seq<char> {
    "\n  on"@ + nav_type + "Search(term: string): void {\n    this."@ + nav + "Search$.next(term.trim());\n  }"@
}

fn nav_helper(nav_type: &str, nav: &str) -> (r: String)
    ensures
        r@ == nav_helper_spec(nav_type@, nav@),
{
    let mut r = String::new();
    push_str(&mut r, "\n  on");
    push_str(&mut r, nav_type);
    push_str(&mut r, "Search(term: string): void {\n    this.");
    push_str(&mut r, nav);
    push_str(&mut r, "Search$.next(term.trim());\n  }");
    r
}

pub open spec fn lookup_method_spec(nav_type: Seq<char>, plural_kebab: Seq<char>, nav_kebab: Seq<char>) -> Seq<char> {
    "  get"@ + nav_type + "Lookup = (input: LookupRequestDto, config?: Partial<Rest.Config>) =>\n    this.restService.request<unknown, PagedResultDto<LookupDto<string>>>(\n      {\n        method: 'GET',\n        url: '/api/app/"@ + plural_kebab + "/"@ + nav_kebab + "-lookup',\n        params: {\n          filter: input.filter,\n          sorting: input.sorting,\n          skipCount: input.skipCount,\n          maxResultCount: input.maxResultCount,\n        },\n      },\n      { apiName: this.apiName, ...config },\n    );\n\n"@
}

fn lookup_method(nav_type: &str, plural_kebab: &str, nav_kebab: &str) -> (r: String)
    ensures
        r@ == lookup_method_spec(nav_type@, plural_kebab@, nav_kebab@),
{
    let mut r = String::new();
    push_str(&mut r, "  get");
    push_str(&mut r, nav_type);
    push_str(&mut r, "Lookup = (input: LookupRequestDto, config?: Partial<Rest.Config>) =>\n    this.restService.request<unknown, PagedResultDto<LookupDto<string>>>(\n      {\n        method: 'GET',\n        url: '/api/app/");
    push_str(&mut r, plural_kebab);
    push_str(&mut r, "/");
    push_str(&mut r, nav_kebab);
    push_str(&mut r, "-lookup',\n        params: {\n          filter: input.filter,\n          sorting: input.sorting,\n          skipCount: input.skipCount,\n          maxResultCount: input.maxResultCount,\n        },\n      },\n      { apiName: this.apiName, ...config },\n    );\n\n");
    r
}

pub open spec fn modal_bool_spec(id: Seq<char>, ctrl: Seq<char>, scr: Seq<char>, cap: Seq<char>, req: Seq<char>, val: Seq<char>) -> Seq<char> {
    "\n      <div class=\"form-group mt-2\">\n        <div class=\"form-check\">\n          <input type=\"checkbox\" id=\""@ + id + "\" class=\"form-check-input\" formControlName=\""@ + ctrl + "\" />\n          <label class=\"form-check-label\" for=\""@ + id + "\">{{ '::"@ + scr + ":"@ + cap + "' | abpLocalization }}"@ + req + "</label>\n        </div>"@ + val + "\n      </div>"@
}

fn modal_bool(id: &str, ctrl: &str, scr: &str, cap: &str, req: &str, val: &str) -> (r: String)
    ensures
        r@ == modal_bool_spec(id@, ctrl@, scr@, cap@, req@, val@),
{
    let mut r = String::new();
    push_str(&mut r, "\n      <div class=\"form-group mt-2\">\n        <div class=\"form-check\">\n          <input type=\"checkbox\" id=\"");
    push_str(&mut r, id);
    push_str(&mut r, "\" class=\"form-check-input\" formControlName=\"");
    push_str(&mut r, ctrl);
    push_str(&mut r, "\" />\n          <label class=\"form-check-label\" for=\"");
    push_str(&mut r, id);
    push_str(&mut r, "\">{{ '::");
    push_str(&mut r, scr);
    push_str(&mut r, ":");
    push_str(&mut r, cap);
    push_str(&mut r, "' | abpLocalization }}");
    push_str(&mut r, req);
    push_str(&mut r, "</label>\n        </div>");
    push_str(&mut r, val);
    push_str(&mut r, "\n      </div>");
    r
}

pub open spec fn modal_textarea_spec(scr: Seq<char>, cap: Seq<char>, req: Seq<char>, ctrl: Seq<char>, max: Seq<char>, val: Seq<char>) -> Seq<char> {
    "\n      <div class=\"mb-3\">\n        <label class=\"form-label\">\n          {{ '::"@ + scr + ":"@ + cap + "' | abpLocalization }}"@ + req + "\n        </label>\n        <textarea class=\"form-control\" formControlName=\""@ + ctrl + "\" rows=\"4\""@ + max + "></textarea>"@ + val + "\n      </div>"@
}

fn modal_textarea(scr: &str, cap: &str, req: &str, ctrl: &str, max: &str, val: &str) -> (r: String)
    ensures
        r@ == modal_textarea_spec(scr@, cap@, req@, ctrl@, max@, val@),
{
    let mut r = String::new();
    push_str(&mut r, "\n      <div class=\"mb-3\">\n        <label class=\"form-label\">\n          {{ '::");
    push_str(&mut r, scr);
    push_str(&mut r, ":");
    push_str(&mut r, cap);
    push_str(&mut r, "' | abpLocalization }}");
    push_str(&mut r, req);
    push_str(&mut r, "\n        </label>\n        <textarea class=\"form-control\" formControlName=\"");
    push_str(&mut r, ctrl);
    push_str(&mut r, "\" rows=\"4\"");
    push_str(&mut r, max);
    push_str(&mut r, "></textarea>");
    push_str(&mut r, val);
    push_str(&mut r, "\n      </div>");
    r
}

pub open spec fn modal_date_spec(scr: Seq<char>, cap: Seq<char>, req: Seq<char>, input_type: Seq<char>, ctrl: Seq<char>, val: Seq<char>) -> Seq<char> {
    "\n      <div class=\"mb-3\">\n        <label class=\"form-label\">\n          {{ '::"@ + scr + ":"@ + cap + "' | abpLocalization }}"@ + req + "\n        </label>\n        <input class=\"form-control\" type=\""@ + input_type + "\" formControlName=\""@ + ctrl + "\" />"@ + val + "\n      </div>"@
}

fn modal_date(scr: &str, cap: &str, req: &str, input_type: &str, ctrl: &str, val: &str) -> (r: String)
    ensures
        r@ == modal_date_spec(scr@, cap@, req@, input_type@, ctrl@, val@),
{
    let mut r = String::new();
    push_str(&mut r, "\n      <div class=\"mb-3\">\n        <label class=\"form-label\">\n          {{ '::");
    push_str(&mut r, scr);
    push_str(&mut r, ":");
    push_str(&mut r, cap);
    push_str(&mut r, "' | abpLocalization }}");
    push_str(&mut r, req);
    push_str(&mut r, "\n        </label>\n        <input class=\"form-control\" type=\"");
    push_str(&mut r, input_type);
    push_str(&mut r, "\" formControlName=\"");
    push_str(&mut r, ctrl);
    push_str(&mut r, "\" />");
    push_str(&mut r, val);
    push_str(&mut r, "\n      </div>");
    r
}

pub open spec fn modal_time_spec(scr: Seq<char>, cap: Seq<char>, req: Seq<char>, ctrl: Seq<char>, val: Seq<char>) -> Seq<char> {
    "\n      <div class=\"mb-3\">\n        <label class=\"form-label\">\n          {{ '::"@ + scr + ":"@ + cap + "' | abpLocalization }}"@ + req + "\n        </label>\n        <input class=\"form-control\" type=\"time\" formControlName=\""@ + ctrl + "\" />"@ + val + "\n      </div>"@
}

fn modal_time(scr: &str, cap: &str, req: &str, ctrl: &str, val: &str) -> (r: String)
    ensures
        r@ == modal_time_spec(scr@, cap@, req@, ctrl@, val@),
{
    let mut r = String::new();
    push_str(&mut r, "\n      <div class=\"mb-3\">\n        <label class=\"form-label\">\n          {{ '::");
    push_str(&mut r, scr);
    push_str(&mut r, ":");
    push_str(&mut r, cap);
    push_str(&mut r, "' | abpLocalization }}");
    push_str(&mut r, req);
    push_str(&mut r, "\n        </label>\n        <input class=\"form-control\" type=\"time\" formControlName=\"");
    push_str(&mut r, ctrl);
    push_str(&mut r, "\" />");
    push_str(&mut r, val);
    push_str(&mut r, "\n      </div>");
    r
}

pub open spec fn modal_number_spec(scr: Seq<char>, cap: Seq<char>, req: Seq<char>, ctrl: Seq<char>, val: Seq<char>) -> Seq<char> {
    "\n      <div class=\"mb-3\">\n        <label class=\"form-label\">\n          {{ '::"@ + scr + ":"@ + cap + "' | abpLocalization }}"@ + req + "\n        </label>\n        <input class=\"form-control\" type=\"number\" formControlName=\""@ + ctrl + "\" />"@ + val + "\n      </div>"@
}

fn modal_number(scr: &str, cap: &str, req: &str, ctrl: &str, val: &str) -> (r: String)
    ensures
        r@ == modal_number_spec(scr@, cap@, req@, ctrl@, val@),
{
    let mut r = String::new();
    push_str(&mut r, "\n      <div class=\"mb-3\">\n        <label class=\"form-label\">\n          {{ '::");
    push_str(&mut r, scr);
    push_str(&mut r, ":");
    push_str(&mut r, cap);
    push_str(&mut r, "' | abpLocalization }}");
    push_str(&mut r, req);
    push_str(&mut r, "\n        </label>\n        <input class=\"form-control\" type=\"number\" formControlName=\"");
    push_str(&mut r, ctrl);
    push_str(&mut r, "\" />");
    push_str(&mut r, val);
    push_str(&mut r, "\n      </div>");
    r
}

pub open spec fn modal_text_spec(scr: Seq<char>, cap: Seq<char>, req: Seq<char>, ctrl: Seq<char>, max: Seq<char>, val: Seq<char>) -> Seq<char> {
    "\n      <div class=\"mb-3\">\n        <label class=\"form-label\">\n          {{ '::"@ + scr + ":"@ + cap + "' | abpLocalization }}"@ + req + "\n        </label>\n        <input class=\"form-control\" type=\"text\" formControlName=\""@ + ctrl + "\""@ + max + " />"@ + val + "\n      </div>"@
}

fn modal_text(scr: &str, cap: &str, req: &str, ctrl: &str, max: &str, val: &str) -> (r: String)
    ensures
        r@ == modal_text_spec(scr@, cap@, req@, ctrl@, max@, val@),
{
    let mut r = String::new();
    push_str(&mut r, "\n      <div class=\"mb-3\">\n        <label class=\"form-label\">\n          {{ '::");
    push_str(&mut r, scr);
    push_str(&mut r, ":");
    push_str(&mut r, cap);
    push_str(&mut r, "' | abpLocalization }}");
    push_str(&mut r, req);
    push_str(&mut r, "\n        </label>\n        <input class=\"form-control\" type=\"text\" formControlName=\"");
    push_str(&mut r, ctrl);
    push_str(&mut r, "\"");
    push_str(&mut r, max);
    push_str(&mut r, " />");
    push_str(&mut r, val);
    push_str(&mut r, "\n      </div>");
    r
}

pub open spec fn filter_nav_spec(scr: Seq<char>, cap: Seq<char>, nav: Seq<char>, nav_type: Seq<char>, ctrl: Seq<char>) -> Seq<char> {
    "\n      <div class=\"col-md-3\">\n        <label class=\"form-label\">{{ '::"@ + scr + ":"@ + cap + "' | abpLocalization }}</label>\n        <div class=\"input-group\">\n          <input\n            class=\"form-control\"\n            type=\"text\"\n            [placeholder]=\"'::Search' | abpLocalization\"\n            #"@ + nav + "FilterSearch\n            (input)=\"on"@ + nav_type + "Search("@ + nav + "FilterSearch.value)\"\n          />\n          <select class=\"form-select\" [(ngModel)]=\"filter."@ + ctrl + "\" (ngModelChange)=\"applyFilter()\">\n            <option [ngValue]=\"null\"></option>\n            <option *ngFor=\"let o of "@ + nav + "Options\" [ngValue]=\"o.id\">{ o.displayName }</option>\n          </select>\n        </div>\n      </div>"@
}

fn filter_nav(scr: &str, cap: &str, nav: &str, nav_type: &str, ctrl: &str) -> (r: String)
    ensures
        r@ == filter_nav_spec(scr@, cap@, nav@, nav_type@, ctrl@),
{
    let mut r = String::new();
    push_str(&mut r, "\n      <div class=\"col-md-3\">\n        <label class=\"form-label\">{{ '::");
    push_str(&mut r, scr);
    push_str(&mut r, ":");
    push_str(&mut r, cap);
    push_str(&mut r, "' | abpLocalization }}</label>\n        <div class=\"input-group\">\n          <input\n            class=\"form-control\"\n            type=\"text\"\n            [placeholder]=\"'::Search' | abpLocalization\"\n            #");
    push_str(&mut r, nav);
    push_str(&mut r, "FilterSearch\n            (input)=\"on");
    push_str(&mut r, nav_type);
    push_str(&mut r, "Search(");
    push_str(&mut r, nav);
    push_str(&mut r, "FilterSearch.value)\"\n          />\n          <select class=\"form-select\" [(ngModel)]=\"filter.");
    push_str(&mut r, ctrl);
    push_str(&mut r, "\" (ngModelChange)=\"applyFilter()\">\n            <option [ngValue]=\"null\"></option>\n            <option *ngFor=\"let o of ");
    push_str(&mut r, nav);
    push_str(&mut r, "Options\" [ngValue]=\"o.id\">{ o.displayName }</option>\n          </select>\n        </div>\n      </div>");
    r
}

pub open spec fn filter_text_spec(scr: Seq<char>, cap: Seq<char>, ctrl: Seq<char>) -> Seq<char> {
    "\n      <div class=\"col-md-3\">\n        <label class=\"form-label\">{{'::"@ + scr + ":"@ + cap + "' | abpLocalization }}</label>\n        <input class=\"form-control\" [(ngModel)]=\"filter."@ + ctrl + "\" (keyup.enter)=\"applyFilter()\" />\n      </div>"@
}

fn filter_text(scr: &str, cap: &str, ctrl: &str) -> (r: String)
    ensures
        r@ == filter_text_spec(scr@, cap@, ctrl@),
{
    let mut r = String::new();
    push_str(&mut r, "\n      <div class=\"col-md-3\">\n        <label class=\"form-label\">{{'::");
    push_str(&mut r, scr);
    push_str(&mut r, ":");
    push_str(&mut r, cap);
    push_str(&mut r, "' | abpLocalization }}</label>\n        <input class=\"form-control\" [(ngModel)]=\"filter.");
    push_str(&mut r, ctrl);
    push_str(&mut r, "\" (keyup.enter)=\"applyFilter()\" />\n      </div>");
    r
}

pub open spec fn filter_number_spec(scr: Seq<char>, cap: Seq<char>, ctrl: Seq<char>) -> Seq<char> {
    "\n      <div class=\"col-md-3\">\n        <label class=\"form-label\">{{ '::"@ + scr + ":"@ + cap + "' | abpLocalization }}</label>\n        <input class=\"form-control\" type=\"number\" [(ngModel)]=\"filter."@ + ctrl + "\" />\n      </div>"@
}

fn filter_number(scr: &str, cap: &str, ctrl: &str) -> (r: String)
    ensures
        r@ == filter_number_spec(scr@, cap@, ctrl@),
{
    let mut r = String::new();
    push_str(&mut r, "\n      <div class=\"col-md-3\">\n        <label class=\"form-label\">{{ '::");
    push_str(&mut r, scr);
    push_str(&mut r, ":");
    push_str(&mut r, cap);
    push_str(&mut r, "' | abpLocalization }}</label>\n        <input class=\"form-control\" type=\"number\" [(ngModel)]=\"filter.");
    push_str(&mut r, ctrl);
    push_str(&mut r, "\" />\n      </div>");
    r
}

pub open spec fn filter_bool_spec(scr: Seq<char>, cap: Seq<char>, ctrl: Seq<char>) -> Seq<char> {
    "\n      <div class=\"col-md-3\">\n        <label class=\"form-label d-block\">{{ '::"@ + scr + ":"@ + cap + "' | abpLocalization }}</label>\n        <select class=\"form-select\" [(ngModel)]=\"filter."@ + ctrl + "\">\n          <option [ngValue]=\"null\"></option>\n          <option [ngValue]=\"true\">True</option>\n          <option [ngValue]=\"false\">False</option>\n        </select>\n      </div>"@
}

fn filter_bool(scr: &str, cap: &str, ctrl: &str) -> (r: String)
    ensures
        r@ == filter_bool_spec(scr@, cap@, ctrl@),
{
    let mut r = String::new();
    push_str(&mut r, "\n      <div class=\"col-md-3\">\n        <label class=\"form-label d-block\">{{ '::");
    push_str(&mut r, scr);
    push_str(&mut r, ":");
    push_str(&mut r, cap);
    push_str(&mut r, "' | abpLocalization }}</label>\n        <select class=\"form-select\" [(ngModel)]=\"filter.");
    push_str(&mut r, ctrl);
    push_str(&mut r, "\">\n          <option [ngValue]=\"null\"></option>\n          <option [ngValue]=\"true\">True</option>\n          <option [ngValue]=\"false\">False</option>\n        </select>\n      </div>");
    r
}

pub open spec fn filter_date_spec(scr: Seq<char>, cap: Seq<char>, input_type: Seq<char>, ctrl: Seq<char>) -> Seq<char> {
    "\n      <div class=\"col-md-3\">\n        <label class=\"form-label\">{{'::"@ + scr + ":"@ + cap + "' | abpLocalization }}</label>\n        <input class=\"form-control\" type=\""@ + input_type + "\" [(ngModel)]=\"filter."@ + ctrl + "\" />\n      </div>"@
}

fn filter_date(scr: &str, cap: &str, input_type: &str, ctrl: &str) -> (r: String)
    ensures
        r@ == filter_date_spec(scr@, cap@, input_type@, ctrl@),
{
    let mut r = String::new();
    push_str(&mut r, "\n      <div class=\"col-md-3\">\n        <label class=\"form-label\">{{'::");
    push_str(&mut r, scr);
    push_str(&mut r, ":");
    push_str(&mut r, cap);
    push_str(&mut r, "' | abpLocalization }}</label>\n        <input class=\"form-control\" type=\"");
    push_str(&mut r, input_type);
    push_str(&mut r, "\" [(ngModel)]=\"filter.");
    push_str(&mut r, ctrl);
    push_str(&mut r, "\" />\n      </div>");
    r
}

pub open spec fn filter_time_spec(scr: Seq<char>, cap: Seq<char>, ctrl: Seq<char>) -> Seq<char> {
    "\n      <div class=\"col-md-3\">\n        <label class=\"form-label\">{{'::"@ + scr + ":"@ + cap + "' | abpLocalization }}</label>\n        <input class=\"form-control\" type=\"time\" [(ngModel)]=\"filter."@ + ctrl + "\" />\n      </div>"@
}

fn filter_time(scr: &str, cap: &str, ctrl: &str) -> (r: String)
    ensures
        r@ == filter_time_spec(scr@, cap@, ctrl@),
{
    let mut r = String::new();
    push_str(&mut r, "\n      <div class=\"col-md-3\">\n        <label class=\"form-label\">{{'::");
    push_str(&mut r, scr);
    push_str(&mut r, ":");
    push_str(&mut r, cap);
    push_str(&mut r, "' | abpLocalization }}</label>\n        <input class=\"form-control\" type=\"time\" [(ngModel)]=\"filter.");
    push_str(&mut r, ctrl);
    push_str(&mut r, "\" />\n      </div>");
    r
}

pub open spec fn input_required_spec(fname: Seq<char>, ts: Seq<char>) -> Seq<char> {
    "  "@ + fname + ": "@ + ts + ";\n"@
}

fn input_required(fname: &str, ts: &str) -> (r: String)
    ensures
        r@ == input_required_spec(fname@, ts@),
{
    let mut r = String::new();
    push_str(&mut r, "  ");
    push_str(&mut r, fname);
    push_str(&mut r, ": ");
    push_str(&mut r, ts);
    push_str(&mut r, ";\n");
    r
}

pub open spec fn input_optional_spec(fname: Seq<char>, ts: Seq<char>) -> Seq<char> {
    "  "@ + fname + "?: "@ + ts + " | null;\n"@
}

fn input_optional(fname: &str, ts: &str) -> (r: String)
    ensures
        r@ == input_optional_spec(fname@, ts@),
{
    let mut r = String::new();
    push_str(&mut r, "  ");
    push_str(&mut r, fname);
    push_str(&mut r, "?: ");
    push_str(&mut r, ts);
    push_str(&mut r, " | null;\n");
    r
}

pub open spec fn filter_param_spec(fname: Seq<char>) -> Seq<char> {
    fname + ": input."@ + fname
}

fn filter_param(fname: &str) -> (r: String)
    ensures
        r@ == filter_param_spec(fname@),
{
    let mut r = String::new();
    push_str(&mut r, fname);
    push_str(&mut r, ": input.");
    push_str(&mut r, fname);
    r
}

pub open spec fn nav_option_spec(nav: Seq<char>) -> Seq<char> {
    "  "@ + nav + "Options: LookupDto<string>[] = [];\n"@
}

fn nav_option(nav: &str) -> (r: String)
    ensures
        r@ == nav_option_spec(nav@),
{
    let mut r = String::new();
    push_str(&mut r, "  ");
    push_str(&mut r, nav);
    push_str(&mut r, "Options: LookupDto<string>[] = [];\n");
    r
}

pub open spec fn nav_subject_spec(nav: Seq<char>) -> Seq<char> {
    "  private readonly "@ + nav + "Search$ = new Subject<string>();\n"@
}

fn nav_subject(nav: &str) -> (r: String)
    ensures
        r@ == nav_subject_spec(nav@),
{
    let mut r = String::new();
    push_str(&mut r, "  private readonly ");
    push_str(&mut r, nav);
    push_str(&mut r, "Search$ = new Subject<string>();\n");
    r
}

pub open spec fn nav_load_spec(nav_type: Seq<char>) -> Seq<char> {
    "    this.on"@ + nav_type + "Search('');\n"@
}

fn nav_load(nav_type: &str) -> (r: String)
    ensures
        r@ == nav_load_spec(nav_type@),
{
    let mut r = String::new();
    push_str(&mut r, "    this.on");
    push_str(&mut r, nav_type);
    push_str(&mut r, "Search('');\n");
    r
}

pub open spec fn with_nav_spec(nav: Seq<char>, nav_type: Seq<char>) -> Seq<char> {
    "  "@ + nav + "?: "@ + nav_type + "Dto;\n"@
}

fn with_nav(nav: &str, nav_type: &str) -> (r: String)
    ensures
        r@ == with_nav_spec(nav@, nav_type@),
{
    let mut r = String::new();
    push_str(&mut r, "  ");
    push_str(&mut r, nav);
    push_str(&mut r, "?: ");
    push_str(&mut r, nav_type);
    push_str(&mut r, "Dto;\n");
    r
}

pub open spec fn nav_model_spec(nav_type: Seq<char>, display: Seq<char>) -> Seq<char> {
    "export interface "@ + nav_type + "Dto {\n  id?: string;\n  "@ + display + "?: string | null;\n}\n\n"@
}

fn nav_model(nav_type: &str, display: &str) -> (r: String)
    ensures
        r@ == nav_model_spec(nav_type@, display@),
{
    let mut r = String::new();
    push_str(&mut r, "export interface ");
    push_str(&mut r, nav_type);
    push_str(&mut r, "Dto {\n  id?: string;\n  ");
    push_str(&mut r, display);
    push_str(&mut r, "?: string | null;\n}\n\n");
    r
}

pub open spec fn default_bool_spec(ctrl: Seq<char>) -> Seq<char> {
    "c?."@ + ctrl + " ?? false"@
}

fn default_bool(ctrl: &str) -> (r: String)
    ensures
        r@ == default_bool_spec(ctrl@),
{
    let mut r = String::new();
    push_str(&mut r, "c?.");
    push_str(&mut r, ctrl);
    push_str(&mut r, " ?? false");
    r
}

pub open spec fn default_datetime_spec(ctrl: Seq<char>) -> Seq<char> {
    "this.toDatetimeLocal(c?."@ + ctrl + ")"@
}

fn default_datetime(ctrl: &str) -> (r: String)
    ensures
        r@ == default_datetime_spec(ctrl@),
{
    let mut r = String::new();
    push_str(&mut r, "this.toDatetimeLocal(c?.");
    push_str(&mut r, ctrl);
    push_str(&mut r, ")");
    r
}

pub open spec fn default_null_spec(ctrl: Seq<char>) -> Seq<char> {
    "c?."@ + ctrl + " ?? null"@
}

fn default_null(ctrl: &str) -> (r: String)
    ensures
        r@ == default_null_spec(ctrl@),
{
    let mut r = String::new();
    push_str(&mut r, "c?.");
    push_str(&mut r, ctrl);
    push_str(&mut r, " ?? null");
    r
}

pub open spec fn default_text_spec(ctrl: Seq<char>) -> Seq<char> {
    "c?."@ + ctrl + " ?? ''"@
}

fn default_text(ctrl: &str) -> (r: String)
    ensures
        r@ == default_text_spec(ctrl@),
{
    let mut r = String::new();
    push_str(&mut r, "c?.");
    push_str(&mut r, ctrl);
    push_str(&mut r, " ?? ''");
    r
}

pub open spec fn max_validator_spec(max: Seq<char>) -> Seq<char> {
    "Validators.maxLength("@ + max + ")"@
}

fn max_validator(max: &str) -> (r: String)
    ensures
        r@ == max_validator_spec(max@),
{
    let mut r = String::new();
    push_str(&mut r, "Validators.maxLength(");
    push_str(&mut r, max);
    push_str(&mut r, ")");
    r
}

pub open spec fn entry_plain_spec(ctrl: Seq<char>, def: Seq<char>) -> Seq<char> {
    "\n      "@ + ctrl + ": ["@ + def + "],"@
}

fn entry_plain(ctrl: &str, def: &str) -> (r: String)
    ensures
        r@ == entry_plain_spec(ctrl@, def@),
{
    let mut r = String::new();
    push_str(&mut r, "\n      ");
    push_str(&mut r, ctrl);
    push_str(&mut r, ": [");
    push_str(&mut r, def);
    push_str(&mut r, "],");
    r
}

pub open spec fn entry_validated_spec(ctrl: Seq<char>, def: Seq<char>, validators: Seq<char>) -> Seq<char> {
    "\n      "@ + ctrl + ": ["@ + def + ", ["@ + validators + "]],"@
}

fn entry_validated(ctrl: &str, def: &str, validators: &str) -> (r: String)
    ensures
        r@ == entry_validated_spec(ctrl@, def@, validators@),
{
    let mut r = String::new();
    push_str(&mut r, "\n      ");
    push_str(&mut r, ctrl);
    push_str(&mut r, ": [");
    push_str(&mut r, def);
    push_str(&mut r, ", [");
    push_str(&mut r, validators);
    push_str(&mut r, "]],");
    r
}

pub open spec fn payload_datetime_spec(ctrl: Seq<char>) -> Seq<char> {
    "      "@ + ctrl + ": this.toIsoStringSafe(raw."@ + ctrl + "),\n"@
}

fn payload_datetime(ctrl: &str) -> (r: String)
    ensures
        r@ == payload_datetime_spec(ctrl@),
{
    let mut r = String::new();
    push_str(&mut r, "      ");
    push_str(&mut r, ctrl);
    push_str(&mut r, ": this.toIsoStringSafe(raw.");
    push_str(&mut r, ctrl);
    push_str(&mut r, "),\n");
    r
}

pub open spec fn payload_number_spec(ctrl: Seq<char>) -> Seq<char> {
    "      "@ + ctrl + ": raw."@ + ctrl + " !== null && raw."@ + ctrl + " !== undefined ? Number(raw."@ + ctrl + ") : null,\n"@
}

fn payload_number(ctrl: &str) -> (r: String)
    ensures
        r@ == payload_number_spec(ctrl@),
{
    let mut r = String::new();
    push_str(&mut r, "      ");
    push_str(&mut r, ctrl);
    push_str(&mut r, ": raw.");
    push_str(&mut r, ctrl);
    push_str(&mut r, " !== null && raw.");
    push_str(&mut r, ctrl);
    push_str(&mut r, " !== undefined ? Number(raw.");
    push_str(&mut r, ctrl);
    push_str(&mut r, ") : null,\n");
    r
}

pub open spec fn excel_append_datetime_spec(ctrl: Seq<char>) -> Seq<char> {
    "    const "@ + ctrl + "Iso = this.toIsoStringSafe(input."@ + ctrl + ");\n    if ("@ + ctrl + "Iso) this.appendIfHasValue(qs, \""@ + ctrl + "\", "@ + ctrl + "Iso);\n"@
}

fn excel_append_datetime(ctrl: &str) -> (r: String)
    ensures
        r@ == excel_append_datetime_spec(ctrl@),
{
    let mut r = String::new();
    push_str(&mut r, "    const ");
    push_str(&mut r, ctrl);
    push_str(&mut r, "Iso = this.toIsoStringSafe(input.");
    push_str(&mut r, ctrl);
    push_str(&mut r, ");\n    if (");
    push_str(&mut r, ctrl);
    push_str(&mut r, "Iso) this.appendIfHasValue(qs, \"");
    push_str(&mut r, ctrl);
    push_str(&mut r, "\", ");
    push_str(&mut r, ctrl);
    push_str(&mut r, "Iso);\n");
    r
}

pub open spec fn excel_append_plain_spec(ctrl: Seq<char>) -> Seq<char> {
    "    this.appendIfHasValue(qs, \""@ + ctrl + "\", input."@ + ctrl + ");\n"@
}

fn excel_append_plain(ctrl: &str) -> (r: String)
    ensures
        r@ == excel_append_plain_spec(ctrl@),
{
    let mut r = String::new();
    push_str(&mut r, "    this.appendIfHasValue(qs, \"");
    push_str(&mut r, ctrl);
    push_str(&mut r, "\", input.");
    push_str(&mut r, ctrl);
    push_str(&mut r, ");\n");
    r
}

pub open spec fn excel_body_spec(ctrl: Seq<char>, def: Seq<char>) -> Seq<char> {
    "      "@ + ctrl + ": f."@ + ctrl + " ?? "@ + def + ",\n"@
}

fn excel_body(ctrl: &str, def: &str) -> (r: String)
    ensures
        r@ == excel_body_spec(ctrl@, def@),
{
    let mut r = String::new();
    push_str(&mut r, "      ");
    push_str(&mut r, ctrl);
    push_str(&mut r, ": f.");
    push_str(&mut r, ctrl);
    push_str(&mut r, " ?? ");
    push_str(&mut r, def);
    push_str(&mut r, ",\n");
    r
}

/* ------------------------------ FIELD FACTS ------------------------------ */

pub open spec fn ang_fname(f: FieldV) -> Seq<char> {
    lower_camel(f.name)
}

/// A foreign key with a navigation target.
pub open spec fn ang_is_nav(f: FieldV) -> bool {
    f.ftype == "Guid"@ && f.navigation is Some
}

/// The navigation target's class name.
pub open spec fn ang_nav_short(f: FieldV) -> Seq<char> {
    match f.navigation {
        Some(n) => last_segment_spec(n),
        None => Seq::empty(),
    }
}

/// The navigation target's property shown for it.
pub open spec fn ang_display(f: FieldV) -> Seq<char> {
    match f.navigation_display {
        Some(d) => d,
        None => "Name"@,
    }
}

pub open spec fn ang_is_textarea(f: FieldV) -> bool {
    lower(f.ftype) == lower("textarea"@)
}

pub open spec fn ang_is_dt(f: FieldV) -> bool {
    lower(f.ftype) == lower("datetime"@)
}

pub open spec fn ang_is_num(f: FieldV) -> bool {
    f.ftype == "int"@ || f.ftype == "long"@ || f.ftype == "decimal"@ || f.ftype == "enum"@
}

pub open spec fn ang_is_bool(f: FieldV) -> bool {
    f.ftype == "bool"@
}

pub open spec fn ang_req(f: FieldV) -> Seq<char> {
    if f.required {
        " *"@
    } else {
        Seq::empty()
    }
}

pub open spec fn ang_validation(f: FieldV) -> Seq<char> {
    if f.required {
        required_hint_spec(ang_fname(f))
    } else {
        Seq::empty()
    }
}

/// The length limit of a text field.
pub open spec fn ang_text_limit(f: FieldV) -> Option<int> {
    match f.max_length {
        Some(m) => if f.ftype == "string"@ || ang_is_textarea(f) {
            Some(m)
        } else {
            None
        },
        None => None,
    }
}

pub open spec fn ang_max_attr(f: FieldV) -> Seq<char> {
    match ang_text_limit(f) {
        Some(m) => max_length_attr_spec(decimal(m)),
        None => Seq::empty(),
    }
}

pub open spec fn ang_default(f: FieldV) -> Seq<char> {
    let c = ang_fname(f);
    if ang_is_bool(f) {
        default_bool_spec(c)
    } else if ang_is_dt(f) {
        default_datetime_spec(c)
    } else if ang_is_num(f) || ang_is_nav(f) {
        default_null_spec(c)
    } else {
        default_text_spec(c)
    }
}

/// The form control's validators, joined by `, `; empty when there are none.
pub open spec fn ang_validators(f: FieldV) -> Seq<char> {
    match ang_text_limit(f) {
        Some(m) => if f.required {
            "Validators.required, "@ + max_validator_spec(decimal(m))
        } else {
            max_validator_spec(decimal(m))
        },
        None => if f.required {
            "Validators.required"@
        } else {
            Seq::empty()
        },
    }
}

/// The parts of the Angular feature that each field contributes to.
pub enum AngularPart {
    Columns,
    Modal,
    FormEntries,
    Filters,
    Payload,
    ExcelBody,
    ExcelAppends,
    InputFields,
    DtoFields,
    FilterFields,
    NavOptions,
    NavSubjects,
    NavBindings,
    NavLoads,
    NavHelpers,
    WithNav,
    NavModels,
    Lookups,
}

pub open spec fn ang_columns(entity: Seq<char>, f: FieldV) -> Seq<char> {
    if !f.show_in_ui {
        Seq::empty()
    } else if ang_is_nav(f) {
        col_nav_spec(f.name, entity, lower_camel(ang_nav_short(f)), lower_camel(ang_display(f)))
    } else {
        col_plain_spec(f.name, entity, lower_camel(entity), ang_fname(f))
    }
}

pub open spec fn ang_modal(entity: Seq<char>, f: FieldV) -> Seq<char> {
    let cap = f.name;
    let c = ang_fname(f);
    let req = ang_req(f);
    let val = ang_validation(f);
    if ang_is_nav(f) {
        modal_nav_spec(entity, cap, req, lower_camel(ang_nav_short(f)), ang_nav_short(f), c, val)
    } else if ang_is_bool(f) {
        modal_bool_spec(c, c, entity, cap, req, val)
    } else if ang_is_textarea(f) {
        modal_textarea_spec(entity, cap, req, c, ang_max_attr(f), val)
    } else if ang_is_dt(f) || f.ftype == "DateOnly"@ {
        modal_date_spec(
            entity,
            cap,
            req,
            if ang_is_dt(f) {
                "datetime-local"@
            } else {
                "date"@
            },
            c,
            val,
        )
    } else if f.ftype == "TimeOnly"@ {
        modal_time_spec(entity, cap, req, c, val)
    } else if ang_is_num(f) {
        modal_number_spec(entity, cap, req, c, val)
    } else {
        modal_text_spec(entity, cap, req, c, ang_max_attr(f), val)
    }
}

pub open spec fn ang_entry(f: FieldV) -> Seq<char> {
    if ang_validators(f).len() == 0 {
        entry_plain_spec(ang_fname(f), ang_default(f))
    } else {
        entry_validated_spec(ang_fname(f), ang_default(f), ang_validators(f))
    }
}

pub open spec fn ang_filter(entity: Seq<char>, f: FieldV) -> Seq<char> {
    let cap = f.name;
    let c = ang_fname(f);
    if !f.filterable {
        Seq::empty()
    } else if ang_is_nav(f) {
        filter_nav_spec(entity, cap, lower_camel(ang_nav_short(f)), ang_nav_short(f), c)
    } else if f.ftype == "string"@ || ang_is_textarea(f) {
        filter_text_spec(entity, cap, c)
    } else if ang_is_num(f) {
        filter_number_spec(entity, cap, c)
    } else if ang_is_bool(f) {
        filter_bool_spec(entity, cap, c)
    } else if ang_is_dt(f) || f.ftype == "DateOnly"@ {
        filter_date_spec(
            entity,
            cap,
            if ang_is_dt(f) {
                "datetime-local"@
            } else {
                "date"@
            },
            c,
        )
    } else if f.ftype == "TimeOnly"@ {
        filter_time_spec(entity, cap, c)
    } else {
        Seq::empty()
    }
}

pub open spec fn ang_payload(f: FieldV) -> Seq<char> {
    if ang_is_dt(f) {
        payload_datetime_spec(ang_fname(f))
    } else if ang_is_num(f) {
        payload_number_spec(ang_fname(f))
    } else {
        Seq::empty()
    }
}

pub open spec fn ang_excel_default(f: FieldV) -> Seq<char> {
    if ang_is_bool(f) || ang_is_num(f) || ang_is_dt(f) || ang_is_nav(f) {
        "null"@
    } else {
        "''"@
    }
}

pub open spec fn ang_excel_body(f: FieldV) -> Seq<char> {
    if f.filterable {
        excel_body_spec(ang_fname(f), ang_excel_default(f))
    } else {
        Seq::empty()
    }
}

pub open spec fn ang_excel_append(f: FieldV) -> Seq<char> {
    if !f.filterable {
        Seq::empty()
    } else if ang_is_dt(f) {
        excel_append_datetime_spec(ang_fname(f))
    } else {
        excel_append_plain_spec(ang_fname(f))
    }
}

pub open spec fn ang_input(f: FieldV) -> Seq<char> {
    if f.required {
        input_required_spec(ang_fname(f), angular_type_spec(f.ftype))
    } else {
        input_optional_spec(ang_fname(f), angular_type_spec(f.ftype))
    }
}

/// What one field contributes to a part; `first` tells whether the field
/// is the first to use its navigation target.
pub open spec fn ang_part(entity: Seq<char>, f: FieldV, first: bool, p: AngularPart) -> Seq<char> {
    let dto = input_optional_spec(ang_fname(f), angular_type_spec(f.ftype));
    let nav = lower_camel(ang_nav_short(f));
    let ty = ang_nav_short(f);
    match p {
        AngularPart::Columns => ang_columns(entity, f),
        AngularPart::Modal => ang_modal(entity, f),
        AngularPart::FormEntries => ang_entry(f),
        AngularPart::Filters => ang_filter(entity, f),
        AngularPart::Payload => ang_payload(f),
        AngularPart::ExcelBody => ang_excel_body(f),
        AngularPart::ExcelAppends => ang_excel_append(f),
        AngularPart::InputFields => ang_input(f),
        AngularPart::DtoFields => dto,
        AngularPart::FilterFields => if f.filterable {
            dto
        } else {
            Seq::empty()
        },
        AngularPart::NavOptions => if first {
            nav_option_spec(nav)
        } else {
            Seq::empty()
        },
        AngularPart::NavSubjects => if first {
            nav_subject_spec(nav)
        } else {
            Seq::empty()
        },
        AngularPart::NavBindings => if first {
            nav_binding_spec(nav, ty)
        } else {
            Seq::empty()
        },
        AngularPart::NavLoads => if first {
            nav_load_spec(ty)
        } else {
            Seq::empty()
        },
        AngularPart::NavHelpers => if first {
            nav_helper_spec(ty, nav)
        } else {
            Seq::empty()
        },
        AngularPart::WithNav => if first {
            with_nav_spec(nav, ty)
        } else {
            Seq::empty()
        },
        AngularPart::NavModels => if first {
            nav_model_spec(ty, lower_camel(ang_display(f)))
        } else {
            Seq::empty()
        },
        AngularPart::Lookups => if first {
            lookup_method_spec(ty, kebab(plural(entity)), kebab(ty))
        } else {
            Seq::empty()
        },
    }
}

/// The navigation targets used by `fs`, each once, in order of first use.
pub open spec fn nav_targets(fs: Seq<FieldV>) -> Seq<Seq<char>>
    decreases fs.len(),
{
    if fs.len() == 0 {
        Seq::empty()
    } else {
        let prev = nav_targets(fs.drop_last());
        if ang_is_nav(fs.last()) && !prev.contains(ang_nav_short(fs.last())) {
            prev.push(ang_nav_short(fs.last()))
        } else {
            prev
        }
    }
}

/// Whether the last field of `fs` is the first to use its navigation target.
pub open spec fn first_use(fs: Seq<FieldV>) -> bool {
    ang_is_nav(fs.last()) && !nav_targets(fs.drop_last()).contains(ang_nav_short(fs.last()))
}

/// The contributions of all fields to a part, in field order.
pub open spec fn gather(entity: Seq<char>, fs: Seq<FieldV>, p: AngularPart) -> Seq<char>
    decreases fs.len(),
{
    if fs.len() == 0 {
        Seq::empty()
    } else {
        gather(entity, fs.drop_last(), p) + ang_part(entity, fs.last(), first_use(fs), p)
    }
}

/// The proxy's query parameters for the filterable fields.
pub open spec fn filter_params(fs: Seq<FieldV>) -> Seq<Seq<char>>
    decreases fs.len(),
{
    if fs.len() == 0 {
        Seq::empty()
    } else if fs.last().filterable {
        filter_params(fs.drop_last()).push(filter_param_spec(ang_fname(fs.last())))
    } else {
        filter_params(fs.drop_last())
    }
}

pub open spec fn list_params() -> Seq<Seq<char>> {
    seq![
        "filterText: input.filterText"@,
        "sorting: input.sorting"@,
        "skipCount: input.skipCount"@,
        "maxResultCount: input.maxResultCount"@,
    ]
}

pub open spec fn delete_params() -> Seq<Seq<char>> {
    seq!["filterText: input.filterText"@]
}

pub open spec fn excel_params() -> Seq<Seq<char>> {
    seq!["downloadToken: input.downloadToken"@, "filterText: input.filterText"@]
}

pub open spec fn excel_body_head() -> Seq<char> {
    "      filterText: f.filterText ?? '',\n"@
}

pub open spec fn excel_appends_head() -> Seq<char> {
    "    this.appendIfHasValue(qs, \"filterText\", input.filterText);\n"@
}

/* ------------------------------ FIELD FACTS, COMPUTED ------------------------------ */

fn fname_of(f: &Field) -> (r: String)
    ensures
        r@ == ang_fname(f@),
{
    to_lower_camel(f.name.as_str())
}

fn is_nav_exec(f: &Field) -> (r: bool)
    ensures
        r == ang_is_nav(f@),
{
    str_eq(f.ftype.as_str(), "Guid") && f.navigation.is_some()
}

fn nav_short_of(f: &Field) -> (r: String)
    ensures
        r@ == ang_nav_short(f@),
{
    match &f.navigation {
        Some(n) => last_segment(n.as_str()),
        None => String::new(),
    }
}

fn display_of(f: &Field) -> (r: String)
    ensures
        r@ == ang_display(f@),
{
    match &f.navigation_display {
        Some(d) => copy_str(d.as_str()),
        None => copy_str("Name"),
    }
}

fn is_textarea_exec(f: &Field) -> (r: bool)
    ensures
        r == ang_is_textarea(f@),
{
    eq_ignore_case(f.ftype.as_str(), "textarea")
}

fn is_dt_exec(f: &Field) -> (r: bool)
    ensures
        r == ang_is_dt(f@),
{
    eq_ignore_case(f.ftype.as_str(), "datetime")
}

fn is_num_exec(f: &Field) -> (r: bool)
    ensures
        r == ang_is_num(f@),
{
    let t = f.ftype.as_str();
    str_eq(t, "int") || str_eq(t, "long") || str_eq(t, "decimal") || str_eq(t, "enum")
}

fn is_bool_exec(f: &Field) -> (r: bool)
    ensures
        r == ang_is_bool(f@),
{
    str_eq(f.ftype.as_str(), "bool")
}

fn req_exec(f: &Field) -> (r: String)
    ensures
        r@ == ang_req(f@),
{
    if f.required {
        copy_str(" *")
    } else {
        String::new()
    }
}

fn validation_exec(f: &Field) -> (r: String)
    ensures
        r@ == ang_validation(f@),
{
    if f.required {
        let c = fname_of(f);
        required_hint(c.as_str())
    } else {
        String::new()
    }
}

fn text_limit_exec(f: &Field) -> (r: Option<i32>)
    ensures
        match r {
            Some(m) => ang_text_limit(f@) == Some(m as int),
            None => ang_text_limit(f@) is None,
        },
{
    match f.max_length {
        Some(m) => if str_eq(f.ftype.as_str(), "string") || is_textarea_exec(f) {
            Some(m)
        } else {
            None
        },
        None => None,
    }
}

fn max_attr_exec(f: &Field) -> (r: String)
    ensures
        r@ == ang_max_attr(f@),
{
    match text_limit_exec(f) {
        Some(m) => {
            let d = decimal_exec(m as i64);
            max_length_attr(d.as_str())
        },
        None => String::new(),
    }
}

fn default_exec(f: &Field) -> (r: String)
    ensures
        r@ == ang_default(f@),
{
    let c = fname_of(f);
    if is_bool_exec(f) {
        default_bool(c.as_str())
    } else if is_dt_exec(f) {
        default_datetime(c.as_str())
    } else if is_num_exec(f) || is_nav_exec(f) {
        default_null(c.as_str())
    } else {
        default_text(c.as_str())
    }
}

fn validators_exec(f: &Field) -> (r: String)
    ensures
        r@ == ang_validators(f@),
{
    match text_limit_exec(f) {
        Some(m) => {
            let d = decimal_exec(m as i64);
            let v = max_validator(d.as_str());
            if f.required {
                let mut r = copy_str("Validators.required, ");
                push_str(&mut r, v.as_str());
                r
            } else {
                v
            }
        },
        None => if f.required {
            copy_str("Validators.required")
        } else {
            String::new()
        },
    }
}

/* ------------------------------ PARTS, COMPUTED ------------------------------ */

fn columns_exec(entity: &str, f: &Field) -> (r: String)
    ensures
        r@ == ang_columns(entity@, f@),
{
    if !f.show_in_ui {
        String::new()
    } else if is_nav_exec(f) {
        let ty = nav_short_of(f);
        let nav = to_lower_camel(ty.as_str());
        let d = display_of(f);
        let display = to_lower_camel(d.as_str());
        col_nav(f.name.as_str(), entity, nav.as_str(), display.as_str())
    } else {
        let ent = to_lower_camel(entity);
        let c = fname_of(f);
        col_plain(f.name.as_str(), entity, ent.as_str(), c.as_str())
    }
}

fn modal_exec(entity: &str, f: &Field) -> (r: String)
    ensures
        r@ == ang_modal(entity@, f@),
{
    let cap = f.name.as_str();
    let c = fname_of(f);
    let req = req_exec(f);
    let val = validation_exec(f);
    if is_nav_exec(f) {
        let ty = nav_short_of(f);
        let nav = to_lower_camel(ty.as_str());
        modal_nav(
            entity,
            cap,
            req.as_str(),
            nav.as_str(),
            ty.as_str(),
            c.as_str(),
            val.as_str(),
        )
    } else if is_bool_exec(f) {
        modal_bool(c.as_str(), c.as_str(), entity, cap, req.as_str(), val.as_str())
    } else if is_textarea_exec(f) {
        let max = max_attr_exec(f);
        modal_textarea(entity, cap, req.as_str(), c.as_str(), max.as_str(), val.as_str())
    } else if is_dt_exec(f) || str_eq(f.ftype.as_str(), "DateOnly") {
        let input_type = if is_dt_exec(f) {
            "datetime-local"
        } else {
            "date"
        };
        modal_date(entity, cap, req.as_str(), input_type, c.as_str(), val.as_str())
    } else if str_eq(f.ftype.as_str(), "TimeOnly") {
        modal_time(entity, cap, req.as_str(), c.as_str(), val.as_str())
    } else if is_num_exec(f) {
        modal_number(entity, cap, req.as_str(), c.as_str(), val.as_str())
    } else {
        let max = max_attr_exec(f);
        modal_text(entity, cap, req.as_str(), c.as_str(), max.as_str(), val.as_str())
    }
}

fn entry_exec(f: &Field) -> (r: String)
    ensures
        r@ == ang_entry(f@),
{
    let c = fname_of(f);
    let d = default_exec(f);
    let v = validators_exec(f);
    if v.as_str().is_empty() {
        entry_plain(c.as_str(), d.as_str())
    } else {
        entry_validated(c.as_str(), d.as_str(), v.as_str())
    }
}

fn filter_exec(entity: &str, f: &Field) -> (r: String)
    ensures
        r@ == ang_filter(entity@, f@),
{
    let cap = f.name.as_str();
    let c = fname_of(f);
    if !f.filterable {
        String::new()
    } else if is_nav_exec(f) {
        let ty = nav_short_of(f);
        let nav = to_lower_camel(ty.as_str());
        filter_nav(entity, cap, nav.as_str(), ty.as_str(), c.as_str())
    } else if str_eq(f.ftype.as_str(), "string") || is_textarea_exec(f) {
        filter_text(entity, cap, c.as_str())
    } else if is_num_exec(f) {
        filter_number(entity, cap, c.as_str())
    } else if is_bool_exec(f) {
        filter_bool(entity, cap, c.as_str())
    } else if is_dt_exec(f) || str_eq(f.ftype.as_str(), "DateOnly") {
        let input_type = if is_dt_exec(f) {
            "datetime-local"
        } else {
            "date"
        };
        filter_date(entity, cap, input_type, c.as_str())
    } else if str_eq(f.ftype.as_str(), "TimeOnly") {
        filter_time(entity, cap, c.as_str())
    } else {
        String::new()
    }
}

fn payload_exec(f: &Field) -> (r: String)
    ensures
        r@ == ang_payload(f@),
{
    let c = fname_of(f);
    if is_dt_exec(f) {
        payload_datetime(c.as_str())
    } else if is_num_exec(f) {
        payload_number(c.as_str())
    } else {
        String::new()
    }
}

fn excel_body_exec(f: &Field) -> (r: String)
    ensures
        r@ == ang_excel_body(f@),
{
    if f.filterable {
        let c = fname_of(f);
        let d = if is_bool_exec(f) || is_num_exec(f) || is_dt_exec(f) || is_nav_exec(f) {
            "null"
        } else {
            "''"
        };
        excel_body(c.as_str(), d)
    } else {
        String::new()
    }
}

fn excel_append_exec(f: &Field) -> (r: String)
    ensures
        r@ == ang_excel_append(f@),
{
    let c = fname_of(f);
    if !f.filterable {
        String::new()
    } else if is_dt_exec(f) {
        excel_append_datetime(c.as_str())
    } else {
        excel_append_plain(c.as_str())
    }
}

fn input_exec(f: &Field) -> (r: String)
    ensures
        r@ == ang_input(f@),
{
    let c = fname_of(f);
    let ts = angular_type(f);
    if f.required {
        input_required(c.as_str(), ts)
    } else {
        input_optional(c.as_str(), ts)
    }
}

fn dto_exec(f: &Field) -> (r: String)
    ensures
        r@ == input_optional_spec(ang_fname(f@), angular_type_spec(f@.ftype)),
{
    let c = fname_of(f);
    input_optional(c.as_str(), angular_type(f))
}

fn contains_text(v: &Vec<String>, s: &str) -> (r: bool)
    ensures
        r == views(v@).contains(s@),
{
    let mut i: usize = 0;
    while i < v.len()
        invariant
            i <= v.len(),
            forall|j: int| 0 <= j < i ==> views(v@)[j] != s@,
        decreases v.len() - i,
    {
        if str_eq(v[i].as_str(), s) {
            assert(views(v@)[i as int] == s@);
            return true;
        }
        i = i + 1;
    }
    false
}

/// The Angular feature's fragments for an entity.
pub struct AngularBlocks {
    pub datatable_columns: String,
    pub modal_form_fields: String,
    pub form_group_entries: String,
    pub advanced_filter_inputs: String,
    pub nav_option_arrays: String,
    pub nav_search_subjects: String,
    pub nav_search_bindings: String,
    pub nav_load_calls: String,
    pub nav_helpers: String,
    pub payload_mappings: String,
    pub excel_filter_body: String,
    pub excel_query_appends: String,
    pub proxy_create_fields: String,
    pub proxy_dto_fields: String,
    pub proxy_update_fields: String,
    pub proxy_excel_fields: String,
    pub proxy_filter_fields: String,
    pub proxy_filter_params: String,
    pub proxy_delete_filter_params: String,
    pub proxy_excel_params: String,
    pub proxy_with_nav_fields: String,
    pub proxy_nav_models: String,
    pub proxy_lookup_methods: String,
}

/// The accumulated contributions of the fields seen so far.
struct AngularAcc {
    cols: String,
    modal: String,
    entries: String,
    filters: String,
    payload: String,
    excel_body: String,
    excel_appends: String,
    inputs: String,
    dtos: String,
    filter_fields: String,
    nav_options: String,
    nav_subjects: String,
    nav_bindings: String,
    nav_loads: String,
    nav_helpers: String,
    with_nav: String,
    nav_models: String,
    lookups: String,
}

spec fn acc_holds(a: AngularAcc, entity: Seq<char>, fs: Seq<FieldV>) -> bool {
    &&& a.cols@ == gather(entity, fs, AngularPart::Columns)
    &&& a.modal@ == gather(entity, fs, AngularPart::Modal)
    &&& a.entries@ == gather(entity, fs, AngularPart::FormEntries)
    &&& a.filters@ == gather(entity, fs, AngularPart::Filters)
    &&& a.payload@ == gather(entity, fs, AngularPart::Payload)
    &&& a.excel_body@ == gather(entity, fs, AngularPart::ExcelBody)
    &&& a.excel_appends@ == gather(entity, fs, AngularPart::ExcelAppends)
    &&& a.inputs@ == gather(entity, fs, AngularPart::InputFields)
    &&& a.dtos@ == gather(entity, fs, AngularPart::DtoFields)
    &&& a.filter_fields@ == gather(entity, fs, AngularPart::FilterFields)
    &&& a.nav_options@ == gather(entity, fs, AngularPart::NavOptions)
    &&& a.nav_subjects@ == gather(entity, fs, AngularPart::NavSubjects)
    &&& a.nav_bindings@ == gather(entity, fs, AngularPart::NavBindings)
    &&& a.nav_loads@ == gather(entity, fs, AngularPart::NavLoads)
    &&& a.nav_helpers@ == gather(entity, fs, AngularPart::NavHelpers)
    &&& a.with_nav@ == gather(entity, fs, AngularPart::WithNav)
    &&& a.nav_models@ == gather(entity, fs, AngularPart::NavModels)
    &&& a.lookups@ == gather(entity, fs, AngularPart::Lookups)
}

/// Appends the contributions of the last field of `fs`.
fn add_field(
    a: &mut AngularAcc,
    entity: &str,
    plural_kebab: &str,
    f: &Field,
    first: bool,
    Ghost(fs): Ghost<Seq<FieldV>>,
)
    requires
        acc_holds(*old(a), entity@, fs.drop_last()),
        fs.len() > 0,
        fs.last() == f@,
        first == first_use(fs),
        plural_kebab@ == kebab(plural(entity@)),
    ensures
        acc_holds(*final(a), entity@, fs),
{
    push_str(&mut a.cols, columns_exec(entity, f).as_str());
    push_str(&mut a.modal, modal_exec(entity, f).as_str());
    push_str(&mut a.entries, entry_exec(f).as_str());
    push_str(&mut a.filters, filter_exec(entity, f).as_str());
    push_str(&mut a.payload, payload_exec(f).as_str());
    push_str(&mut a.excel_body, excel_body_exec(f).as_str());
    push_str(&mut a.excel_appends, excel_append_exec(f).as_str());
    push_str(&mut a.inputs, input_exec(f).as_str());
    let dto = dto_exec(f);
    push_str(&mut a.dtos, dto.as_str());
    if f.filterable {
        push_str(&mut a.filter_fields, dto.as_str());
    }
    if first {
        let ty = nav_short_of(f);
        let nav = to_lower_camel(ty.as_str());
        let d = display_of(f);
        let display = to_lower_camel(d.as_str());
        let ty_kebab = to_kebab(ty.as_str());
        push_str(&mut a.nav_options, nav_option(nav.as_str()).as_str());
        push_str(&mut a.nav_subjects, nav_subject(nav.as_str()).as_str());
        push_str(&mut a.nav_bindings, nav_binding(nav.as_str(), ty.as_str()).as_str());
        push_str(&mut a.nav_loads, nav_load(ty.as_str()).as_str());
        push_str(&mut a.nav_helpers, nav_helper(ty.as_str(), nav.as_str()).as_str());
        push_str(&mut a.with_nav, with_nav(nav.as_str(), ty.as_str()).as_str());
        push_str(&mut a.nav_models, nav_model(ty.as_str(), display.as_str()).as_str());
        push_str(
            &mut a.lookups,
            lookup_method(ty.as_str(), plural_kebab, ty_kebab.as_str()).as_str(),
        );
    }
}

/// The Angular feature's fragments for `entity` with `fields`: every part
/// is the fields' contributions in order, trimmed; the navigation parts
/// hold each navigation target once; the proxy parameter lists start with
/// the paging and filter-text parameters.
pub fn angular_blocks(entity: &str, fields: &[Field]) -> (r: AngularBlocks)
    ensures
        ({
            let fs = fields_view(fields@);
            let e = entity@;
            &&& r.datatable_columns@ == trim(gather(e, fs, AngularPart::Columns))
            &&& r.modal_form_fields@ == trim(gather(e, fs, AngularPart::Modal))
            &&& r.form_group_entries@ == trim(gather(e, fs, AngularPart::FormEntries))
            &&& r.advanced_filter_inputs@ == trim(gather(e, fs, AngularPart::Filters))
            &&& r.nav_option_arrays@ == trim(gather(e, fs, AngularPart::NavOptions))
            &&& r.nav_search_subjects@ == trim(gather(e, fs, AngularPart::NavSubjects))
            &&& r.nav_search_bindings@ == trim(gather(e, fs, AngularPart::NavBindings))
            &&& r.nav_load_calls@ == trim(gather(e, fs, AngularPart::NavLoads))
            &&& r.nav_helpers@ == trim(gather(e, fs, AngularPart::NavHelpers))
            &&& r.payload_mappings@ == trim_end(gather(e, fs, AngularPart::Payload))
            &&& r.excel_filter_body@ == trim_end(excel_body_head() + gather(e, fs, AngularPart::ExcelBody))
            &&& r.excel_query_appends@ == trim_end(
                excel_appends_head() + gather(e, fs, AngularPart::ExcelAppends),
            )
            &&& r.proxy_create_fields@ == trim_end(gather(e, fs, AngularPart::InputFields))
            &&& r.proxy_update_fields@ == trim_end(gather(e, fs, AngularPart::InputFields))
            &&& r.proxy_dto_fields@ == trim_end(gather(e, fs, AngularPart::DtoFields))
            &&& r.proxy_excel_fields@ == trim_end(gather(e, fs, AngularPart::DtoFields))
            &&& r.proxy_filter_fields@ == trim_end(gather(e, fs, AngularPart::FilterFields))
            &&& r.proxy_filter_params@ == join(list_params() + filter_params(fs), ", "@)
            &&& r.proxy_delete_filter_params@ == join(delete_params() + filter_params(fs), ", "@)
            &&& r.proxy_excel_params@ == join(excel_params() + filter_params(fs), ", "@)
            &&& r.proxy_with_nav_fields@ == trim_end(gather(e, fs, AngularPart::WithNav))
            &&& r.proxy_nav_models@ == trim_end(gather(e, fs, AngularPart::NavModels))
            &&& r.proxy_lookup_methods@ == trim_end(gather(e, fs, AngularPart::Lookups))
        }),
{
    let ghost fs = fields_view(fields@);
    let plural_name = pluralize(entity);
    let plural_kebab = to_kebab(plural_name.as_str());
    let mut a = AngularAcc {
        cols: String::new(),
        modal: String::new(),
        entries: String::new(),
        filters: String::new(),
        payload: String::new(),
        excel_body: String::new(),
        excel_appends: String::new(),
        inputs: String::new(),
        dtos: String::new(),
        filter_fields: String::new(),
        nav_options: String::new(),
        nav_subjects: String::new(),
        nav_bindings: String::new(),
        nav_loads: String::new(),
        nav_helpers: String::new(),
        with_nav: String::new(),
        nav_models: String::new(),
        lookups: String::new(),
    };
    let mut params: Vec<String> = Vec::new();
    let mut used: Vec<String> = Vec::new();
    let mut i: usize = 0;
    assert(fs.take(0) =~= Seq::<FieldV>::empty());
    while i < fields.len()
        invariant
            i <= fields.len(),
            fs == fields_view(fields@),
            plural_kebab@ == kebab(plural(entity@)),
            acc_holds(a, entity@, fs.take(i as int)),
            views(params@) == filter_params(fs.take(i as int)),
            views(used@) == nav_targets(fs.take(i as int)),
        decreases fields.len() - i,
    {
        let f = &fields[i];
        let ghost next = fs.take(i + 1);
        assert(next.drop_last() =~= fs.take(i as int));
        assert(next.last() == f@);
        let ty = nav_short_of(f);
        let first = is_nav_exec(f) && !contains_text(&used, ty.as_str());
        assert(first == first_use(next));
        if first {
            let ghost before = views(used@);
            used.push(ty);
            assert(views(used@) =~= before.push(ang_nav_short(f@)));
        } else {
            assert(views(used@) =~= nav_targets(next));
        }
        add_field(&mut a, entity, plural_kebab.as_str(), f, first, Ghost(next));
        if f.filterable {
            let c = fname_of(f);
            let p = filter_param(c.as_str());
            let ghost before = views(params@);
            params.push(p);
            assert(views(params@) =~= before.push(filter_param_spec(ang_fname(f@))));
        }
        i = i + 1;
    }
    assert(fs.take(fields.len() as int) =~= fs);
    let mut body = copy_str("      filterText: f.filterText ?? '',\n");
    push_str(&mut body, a.excel_body.as_str());
    let mut appends = copy_str("    this.appendIfHasValue(qs, \"filterText\", input.filterText);\n");
    push_str(&mut appends, a.excel_appends.as_str());
    let mut list: Vec<String> = Vec::new();
    list.push(copy_str("filterText: input.filterText"));
    list.push(copy_str("sorting: input.sorting"));
    list.push(copy_str("skipCount: input.skipCount"));
    list.push(copy_str("maxResultCount: input.maxResultCount"));
    let mut delete: Vec<String> = Vec::new();
    delete.push(copy_str("filterText: input.filterText"));
    let mut excel: Vec<String> = Vec::new();
    excel.push(copy_str("downloadToken: input.downloadToken"));
    excel.push(copy_str("filterText: input.filterText"));
    let mut k: usize = 0;
    let ghost items = views(params@);
    let ghost list0 = views(list@);
    let ghost delete0 = views(delete@);
    let ghost excel0 = views(excel@);
    assert(list0 =~= list_params());
    assert(delete0 =~= delete_params());
    assert(excel0 =~= excel_params());
    while k < params.len()
        invariant
            k <= params.len(),
            items == views(params@),
            views(list@) == list0 + items.take(k as int),
            views(delete@) == delete0 + items.take(k as int),
            views(excel@) == excel0 + items.take(k as int),
        decreases params.len() - k,
    {
        let ghost l0 = views(list@);
        let ghost d0 = views(delete@);
        let ghost x0 = views(excel@);
        list.push(copy_str(params[k].as_str()));
        delete.push(copy_str(params[k].as_str()));
        excel.push(copy_str(params[k].as_str()));
        assert(views(list@) =~= l0.push(items[k as int]));
        assert(views(delete@) =~= d0.push(items[k as int]));
        assert(views(excel@) =~= x0.push(items[k as int]));
        assert(items.take(k + 1) =~= items.take(k as int).push(items[k as int]));
        k = k + 1;
        assert(views(list@) =~= list0 + items.take(k as int));
        assert(views(delete@) =~= delete0 + items.take(k as int));
        assert(views(excel@) =~= excel0 + items.take(k as int));
    }
    assert(items.take(params.len() as int) =~= items);
    AngularBlocks {
        datatable_columns: trim_exec(a.cols.as_str()),
        modal_form_fields: trim_exec(a.modal.as_str()),
        form_group_entries: trim_exec(a.entries.as_str()),
        advanced_filter_inputs: trim_exec(a.filters.as_str()),
        nav_option_arrays: trim_exec(a.nav_options.as_str()),
        nav_search_subjects: trim_exec(a.nav_subjects.as_str()),
        nav_search_bindings: trim_exec(a.nav_bindings.as_str()),
        nav_load_calls: trim_exec(a.nav_loads.as_str()),
        nav_helpers: trim_exec(a.nav_helpers.as_str()),
        payload_mappings: trim_end_exec(a.payload.as_str()),
        excel_filter_body: trim_end_exec(body.as_str()),
        excel_query_appends: trim_end_exec(appends.as_str()),
        proxy_create_fields: trim_end_exec(a.inputs.as_str()),
        proxy_dto_fields: trim_end_exec(a.dtos.as_str()),
        proxy_update_fields: trim_end_exec(a.inputs.as_str()),
        proxy_excel_fields: trim_end_exec(a.dtos.as_str()),
        proxy_filter_fields: trim_end_exec(a.filter_fields.as_str()),
        proxy_filter_params: join_exec(&list, ", "),
        proxy_delete_filter_params: join_exec(&delete, ", "),
        proxy_excel_params: join_exec(&excel, ", "),
        proxy_with_nav_fields: trim_end_exec(a.with_nav.as_str()),
        proxy_nav_models: trim_end_exec(a.nav_models.as_str()),
        proxy_lookup_methods: trim_end_exec(a.lookups.as_str()),
    }
}

} // verus!
