//! All placeholder values of one entity, in the order in which the
//! generator stores them; a later value for a key replaces an earlier one.
use crate::fragments::backend::{backend_fragments, backend_holds, BackendFragments};
use crate::fragments::classes::ClassSources;
use crate::fragments::lookups::{lookup_fragments, lookups_hold, LookupFragments};
use crate::fragments::mobile::{mobile_fragments, mobile_holds, MobileFragments};
use crate::fragments::web::{web_fragments, web_holds, WebFragments};
use crate::mapping::{entry_views, last_value, Mapping};
use crate::models::{Field, fields_view};
use crate::naming::{
    kebab, last_segment, last_segment_spec, lower_camel, ns_relative_path, ns_relative_spec, plural,
    pluralize, to_kebab, to_lower_camel,
};
use crate::text::{
    char_lowercase, copy_str, join, join_exec, lowercase_of_char, push_str, split, split_exec,
    string_of_range, chars_of, views,
};
use vstd::prelude::*;

verus! {

/// A namespace segment with its first character lower-cased.
pub open spec fn lower_first(seg: Seq<char>) -> Seq<char> {
    if seg.len() == 0 {
        seg
    } else {
        char_lowercase(seg[0]) + seg.skip(1)
    }
}

/// A namespace with the first character of each segment lower-cased.
pub open spec fn namespace_lower_spec(ns: Seq<char>) -> Seq<char> {
    join(split(ns, '.').map_values(|seg: Seq<char>| lower_first(seg)), "."@)
}

fn lower_first_exec(seg: &str) -> (r: String)
    ensures
        r@ == lower_first(seg@),
{
    let cs = chars_of(seg);
    if cs.len() == 0 {
        return String::new();
    }
    let mut out = lowercase_of_char(cs[0]);
    let rest = string_of_range(&cs, 1, cs.len());
    push_str(&mut out, rest.as_str());
    out
}

/// `namespace` with the first character of each `.`-separated segment
/// lower-cased.
pub fn namespace_lower(namespace: &str) -> (r: String)
    ensures
        r@ == namespace_lower_spec(namespace@),
{
    let segs = split_exec(namespace, '.');
    let ghost sv = views(segs@);
    let mut out: Vec<String> = Vec::new();
    let mut i: usize = 0;
    while i < segs.len()
        invariant
            i <= segs@.len(),
            sv == views(segs@),
            views(out@) == sv.take(i as int).map_values(|seg: Seq<char>| lower_first(seg)),
        decreases segs.len() - i,
    {
        let l = lower_first_exec(segs[i].as_str());
        let ghost before = out@;
        out.push(l);
        assert(views(out@) =~= views(before).push(l@));
        proof {
            assert(sv.take(i + 1) =~= sv.take(i as int).push(sv[i as int]));
            assert(views(out@) =~= sv.take(i + 1).map_values(|seg: Seq<char>| lower_first(seg)));
        }
        i = i + 1;
    }
    assert(sv.take(segs@.len() as int) =~= sv);
    join_exec(&out, ".")
}

/// Every placeholder value of one entity.
pub struct CompiledFragments {
    pub domain: String,
    pub namespace: String,
    pub entity: String,
    pub ns_rel_path: String,
    pub domain_short: String,
    pub entity_lower: String,
    pub entity_plural: String,
    pub entity_plural_lower: String,
    pub entity_plural_kebab: String,
    pub entity_name_kebab: String,
    pub localization_resource: String,
    pub web_namespace: String,
    pub namespace_lower: String,
    pub backend: BackendFragments,
    pub lookups: LookupFragments,
    pub web: WebFragments,
    pub mobile: MobileFragments,
}

/// The fragments of `entity` in `namespace` of `domain`, with `fields`,
/// reading other entities' classes from `srcs`.
pub fn compile_fragments(
    domain: &str,
    namespace: &str,
    entity: &str,
    fields: &[Field],
    srcs: &ClassSources,
) -> (r: CompiledFragments)
    ensures
        r.domain@ == domain@,
        r.namespace@ == namespace@,
        r.entity@ == entity@,
        r.ns_rel_path@ == join(ns_relative_spec(domain@, namespace@), "/"@),
        r.domain_short@ == last_segment_spec(domain@),
        r.entity_lower@ == lower_camel(entity@),
        r.entity_plural@ == plural(entity@),
        r.entity_plural_lower@ == lower_camel(plural(entity@)),
        r.entity_plural_kebab@ == kebab(plural(entity@)),
        r.entity_name_kebab@ == kebab(entity@),
        r.localization_resource@ == last_segment_spec(domain@) + "Resource"@,
        r.web_namespace@ == domain@ + ".Web.Pages."@ + plural(entity@),
        r.namespace_lower@ == namespace_lower_spec(namespace@),
        backend_holds(r.backend, entity@, fields_view(fields@)),
        lookups_hold(r.lookups, domain@, namespace@, entity@, fields_view(fields@), srcs@),
        web_holds(r.web, entity@, fields_view(fields@), srcs@),
        mobile_holds(r.mobile, last_segment_spec(domain@), entity@, fields_view(fields@)),
{
    let domain_short = last_segment(domain);
    let entity_plural = pluralize(entity);
    let mut localization_resource = copy_str(domain_short.as_str());
    push_str(&mut localization_resource, "Resource");
    let mut web_namespace = copy_str(domain);
    push_str(&mut web_namespace, ".Web.Pages.");
    push_str(&mut web_namespace, entity_plural.as_str());
    let mobile = mobile_fragments(domain_short.as_str(), entity, fields);
    CompiledFragments {
        domain: copy_str(domain),
        namespace: copy_str(namespace),
        entity: copy_str(entity),
        ns_rel_path: join_exec(&ns_relative_path(domain, namespace), "/"),
        entity_lower: to_lower_camel(entity),
        entity_plural_lower: to_lower_camel(entity_plural.as_str()),
        entity_plural_kebab: to_kebab(entity_plural.as_str()),
        entity_name_kebab: to_kebab(entity),
        localization_resource,
        web_namespace,
        namespace_lower: namespace_lower(namespace),
        backend: backend_fragments(entity, fields),
        lookups: lookup_fragments(domain, namespace, entity, fields, srcs),
        web: web_fragments(entity, fields, srcs),
        mobile,
        domain_short,
        entity_plural,
    }
}

pub(crate) fn add_pair(v: &mut Vec<(String, String)>, k: &str, val: &str)
    ensures
        entry_views(final(v)@) == entry_views(old(v)@).push((k@, val@)),
{
    let ghost before = v@;
    v.push((copy_str(k), copy_str(val)));
    assert(entry_views(v@) =~= entry_views(before).push((k@, val@)));
}

impl CompiledFragments {
    /// The placeholder pairs in the order in which they are stored.
    pub open spec fn placeholder_pairs(&self) -> Seq<(Seq<char>, Seq<char>)> {
        Seq::empty()
            .push(("ns_rel_path"@, self.ns_rel_path@))
            .push(("domain_name"@, self.domain@))
            .push(("domain_short"@, self.domain_short@))
            .push(("namespace"@, self.namespace@))
            .push(("entity"@, self.entity@))
            .push(("entity_lower"@, self.entity_lower@))
            .push(("entity_name"@, self.entity@))
            .push(("entity_name_lower"@, self.entity_lower@))
            .push(("entity_plural"@, self.entity_plural@))
            .push(("entity_plural_lower"@, self.entity_plural_lower@))
            .push(("entity_plural_kebab"@, self.entity_plural_kebab@))
            .push(("fields"@, self.backend.fields@))
            .push(("constructor_params"@, self.backend.constructor_params@))
            .push(("fields_assignments"@, self.backend.fields_assignments@))
            .push(("manager_params"@, self.backend.manager_params@))
            .push(("manager_param_names"@, self.backend.manager_param_names@))
            .push(("manager_checks"@, self.backend.manager_checks@))
            .push(("manager_assignments"@, self.backend.manager_assignments@))
            .push(("repository_filters"@, self.backend.repository_filters@))
            .push(("filter_method_params"@, self.backend.filter_method_params@))
            .push(("filter_param_names"@, self.backend.filter_param_names@))
            .push(("navigation_properties"@, self.backend.navigation_properties@))
            .push(("with_nav_properties"@, self.backend.navigation_properties@))
            .push(("navigation_joins"@, self.backend.navigation_joins@))
            .push(("navigation_selects_list"@, self.backend.navigation_selects_list@))
            .push(("navigation_selects_single"@, self.backend.navigation_selects_single@))
            .push(("consts"@, self.backend.consts@))
            .push(("repository_nav_filters"@, self.backend.repository_nav_filters@))
            .push(("repository_entity_filters"@, self.backend.repository_entity_filters@))
            .push(("create_dto_props"@, self.backend.create_dto_props@))
            .push(("update_dto_props"@, self.backend.update_dto_props@))
            .push(("dto_props"@, self.backend.dto_props@))
            .push(("with_nav_dto_entity_prop"@, self.backend.with_nav_dto_entity_prop@))
            .push(("with_nav_dto_props"@, self.backend.with_nav_dto_props@))
            .push(("get_input_props"@, self.backend.get_input_props@))
            .push(("excel_download_props"@, self.backend.excel_download_props@))
            .push(("excel_dto_props"@, self.backend.excel_dto_props@))
            .push(("input_filter_call_args"@, self.backend.input_filter_call_args@))
            .push(("appservice_create_args"@, self.backend.appservice_create_args@))
            .push(("appservice_update_args"@, self.backend.appservice_update_args@))
            .push(("required_guid_checks"@, self.backend.required_guid_checks@))
            .push(("nav_repo_fields"@, self.lookups.nav_repo_fields@))
            .push(("nav_repo_ctor_params"@, self.lookups.nav_repo_ctor_params@))
            .push(("nav_repo_ctor_assignments"@, self.lookups.nav_repo_ctor_assignments@))
            .push(("entity_lookup_display_prop"@, self.lookups.entity_lookup_display_prop@))
            .push(("nav_lookup_methods"@, self.lookups.nav_lookup_methods@))
            .push(("nav_lookup_interface_methods"@, self.lookups.nav_lookup_interface_methods@))
            .push(("nav_lookup_profile_maps"@, self.lookups.nav_lookup_profile_maps@))
            .push(("nav_lookup_mapperly_blocks"@, self.lookups.nav_lookup_mapperly_blocks@))
            .push(("excel_export_pairs"@, self.lookups.excel_export_pairs@))
            .push(("nav_usings"@, self.lookups.nav_usings@))
            .push(("with_nav_entity_prop"@, self.backend.with_nav_entity_prop@))
            .push(("navigation_fk_configs"@, self.backend.navigation_fk_configs@))
            .push(("efcore_property_configs"@, self.backend.efcore_property_configs@))
            .push(("efcore_len_configs"@, self.backend.efcore_len_configs@))
            .push(("web_index_filter_fields"@, self.web.web_index_filter_fields@))
            .push(("web_index_column_fields"@, self.web.web_index_column_fields@))
            .push(("index_cs_nav_props"@, self.web.index_cs_nav_props@))
            .push(("index_cs_onget_nav_fill"@, self.web.index_cs_onget_nav_fill@))
            .push(("index_js_nav_filters"@, self.web.index_js_nav_filters@))
            .push(("web_datatable_columns"@, self.web.web_datatable_columns@))
            .push(("index_js_nav_query_pairs"@, self.web.index_js_nav_query_pairs@))
            .push(("index_js_nav_clear_filters"@, self.web.index_js_nav_clear_filters@))
            .push(("index_js_select2_nav_filters"@, self.web.index_js_select2_nav_filters@))
            .push(("index_js_string_filters"@, self.web.index_js_string_filters@))
            .push(("index_js_string_query_pairs"@, self.web.index_js_string_query_pairs@))
            .push(("index_js_string_clear_filters"@, self.web.index_js_string_clear_filters@))
            .push(("web_form_fields_create"@, self.web.web_form_fields_create@))
            .push(("web_form_fields_edit"@, self.web.web_form_fields_edit@))
            .push(("web_form_fields_detail"@, self.web.web_form_fields_detail@))
            .push(("web_js_select2_create"@, self.web.web_js_select2_create@))
            .push(("web_js_select2_edit"@, self.web.web_js_select2_edit@))
            .push(("web_js_select2_detail"@, self.web.web_js_select2_detail@))
            .push(("nav_dtos"@, self.web.nav_dtos@))
            .push(("nav_dto_mappings"@, self.web.nav_dto_mappings@))
            .push(("localization_resource"@, self.localization_resource@))
            .push(("entity_camel"@, self.entity_lower@))
            .push(("entity_plural_camel"@, self.entity_plural_lower@))
            .push(("web_namespace"@, self.web_namespace@))
            .push(("namespace_lower"@, self.namespace_lower@))
            .push(("mobile_lookup_methods"@, self.mobile.mobile_lookup_methods@))
            .push(("mobile_tab_scenes"@, ""@))
            .push(("mobile_tab_route_builder"@, ""@))
            .push(("mobile_screen_extra_imports"@, self.mobile.mobile_screen_extra_imports@))
            .push(("mobile_screen_props"@, ""@))
            .push(("mobile_screen_state"@, self.mobile.mobile_screen_state@))
            .push(("mobile_screen_lookup_loaders"@, self.mobile.mobile_screen_lookup_loaders@))
            .push(("mobile_screen_lookup_calls"@, self.mobile.mobile_screen_lookup_calls@))
            .push(("mobile_screen_effects"@, self.mobile.mobile_screen_effects@))
            .push(("mobile_screen_form_props"@, self.mobile.mobile_screen_form_props@))
            .push(("mobile_form_validations"@, self.mobile.mobile_form_validations@))
            .push(("mobile_form_props"@, self.mobile.mobile_form_props@))
            .push(("mobile_form_state"@, self.mobile.mobile_form_state@))
            .push(("mobile_form_refs"@, ""@))
            .push(("mobile_form_initial_values"@, self.mobile.mobile_form_initial_values@))
            .push(("mobile_form_modals"@, self.mobile.mobile_form_modals@))
            .push(("mobile_form_inputs"@, self.mobile.mobile_form_inputs@))
            .push(("mobile_form_styles"@, ""@))
            .push(("mobile_form_prop_types"@, self.mobile.mobile_form_prop_types@))
            .push(("mobile_form_extra_imports"@, self.mobile.mobile_form_extra_imports@))
            .push(("mobile_form_external_imports"@, self.mobile.mobile_form_external_imports@))
            .push(("mobile_list_title"@, self.mobile.mobile_list_title@))
            .push(("mobile_list_description"@, "null"@))
            .push(("mobile_list_fields"@, self.mobile.mobile_list_fields@))
            .push(("entity_name_lower"@, self.entity_lower@))
            .push(("entity_name_kebab"@, self.entity_name_kebab@))
            .push(("entity_plural_camel"@, self.entity_plural_lower@))
            .push(("domain_short"@, self.domain_short@))
            .push(("mobile_tab_scenes"@, ""@))
            .push(("mobile_tab_route_builder"@, ""@))
    }

    /// The placeholder pairs, in order.
    #[verifier::rlimit(100)]
    pub fn pairs(&self) -> (r: Vec<(String, String)>)
        ensures
            entry_views(r@) == self.placeholder_pairs(),
    {
        let mut v: Vec<(String, String)> = Vec::new();
        assert(entry_views(v@) =~= Seq::<(Seq<char>, Seq<char>)>::empty());
        add_pair(&mut v, "ns_rel_path", self.ns_rel_path.as_str());
        add_pair(&mut v, "domain_name", self.domain.as_str());
        add_pair(&mut v, "domain_short", self.domain_short.as_str());
        add_pair(&mut v, "namespace", self.namespace.as_str());
        add_pair(&mut v, "entity", self.entity.as_str());
        add_pair(&mut v, "entity_lower", self.entity_lower.as_str());
        add_pair(&mut v, "entity_name", self.entity.as_str());
        add_pair(&mut v, "entity_name_lower", self.entity_lower.as_str());
        add_pair(&mut v, "entity_plural", self.entity_plural.as_str());
        add_pair(&mut v, "entity_plural_lower", self.entity_plural_lower.as_str());
        add_pair(&mut v, "entity_plural_kebab", self.entity_plural_kebab.as_str());
        add_pair(&mut v, "fields", self.backend.fields.as_str());
        add_pair(&mut v, "constructor_params", self.backend.constructor_params.as_str());
        add_pair(&mut v, "fields_assignments", self.backend.fields_assignments.as_str());
        add_pair(&mut v, "manager_params", self.backend.manager_params.as_str());
        add_pair(&mut v, "manager_param_names", self.backend.manager_param_names.as_str());
        add_pair(&mut v, "manager_checks", self.backend.manager_checks.as_str());
        add_pair(&mut v, "manager_assignments", self.backend.manager_assignments.as_str());
        add_pair(&mut v, "repository_filters", self.backend.repository_filters.as_str());
        add_pair(&mut v, "filter_method_params", self.backend.filter_method_params.as_str());
        add_pair(&mut v, "filter_param_names", self.backend.filter_param_names.as_str());
        add_pair(&mut v, "navigation_properties", self.backend.navigation_properties.as_str());
        add_pair(&mut v, "with_nav_properties", self.backend.navigation_properties.as_str());
        add_pair(&mut v, "navigation_joins", self.backend.navigation_joins.as_str());
        add_pair(&mut v, "navigation_selects_list", self.backend.navigation_selects_list.as_str());
        add_pair(&mut v, "navigation_selects_single", self.backend.navigation_selects_single.as_str());
        add_pair(&mut v, "consts", self.backend.consts.as_str());
        add_pair(&mut v, "repository_nav_filters", self.backend.repository_nav_filters.as_str());
        add_pair(&mut v, "repository_entity_filters", self.backend.repository_entity_filters.as_str());
        add_pair(&mut v, "create_dto_props", self.backend.create_dto_props.as_str());
        add_pair(&mut v, "update_dto_props", self.backend.update_dto_props.as_str());
        add_pair(&mut v, "dto_props", self.backend.dto_props.as_str());
        add_pair(&mut v, "with_nav_dto_entity_prop", self.backend.with_nav_dto_entity_prop.as_str());
        add_pair(&mut v, "with_nav_dto_props", self.backend.with_nav_dto_props.as_str());
        add_pair(&mut v, "get_input_props", self.backend.get_input_props.as_str());
        add_pair(&mut v, "excel_download_props", self.backend.excel_download_props.as_str());
        add_pair(&mut v, "excel_dto_props", self.backend.excel_dto_props.as_str());
        add_pair(&mut v, "input_filter_call_args", self.backend.input_filter_call_args.as_str());
        add_pair(&mut v, "appservice_create_args", self.backend.appservice_create_args.as_str());
        add_pair(&mut v, "appservice_update_args", self.backend.appservice_update_args.as_str());
        add_pair(&mut v, "required_guid_checks", self.backend.required_guid_checks.as_str());
        add_pair(&mut v, "nav_repo_fields", self.lookups.nav_repo_fields.as_str());
        add_pair(&mut v, "nav_repo_ctor_params", self.lookups.nav_repo_ctor_params.as_str());
        add_pair(&mut v, "nav_repo_ctor_assignments", self.lookups.nav_repo_ctor_assignments.as_str());
        add_pair(&mut v, "entity_lookup_display_prop", self.lookups.entity_lookup_display_prop.as_str());
        add_pair(&mut v, "nav_lookup_methods", self.lookups.nav_lookup_methods.as_str());
        add_pair(&mut v, "nav_lookup_interface_methods", self.lookups.nav_lookup_interface_methods.as_str());
        add_pair(&mut v, "nav_lookup_profile_maps", self.lookups.nav_lookup_profile_maps.as_str());
        add_pair(&mut v, "nav_lookup_mapperly_blocks", self.lookups.nav_lookup_mapperly_blocks.as_str());
        add_pair(&mut v, "excel_export_pairs", self.lookups.excel_export_pairs.as_str());
        add_pair(&mut v, "nav_usings", self.lookups.nav_usings.as_str());
        add_pair(&mut v, "with_nav_entity_prop", self.backend.with_nav_entity_prop.as_str());
        add_pair(&mut v, "navigation_fk_configs", self.backend.navigation_fk_configs.as_str());
        add_pair(&mut v, "efcore_property_configs", self.backend.efcore_property_configs.as_str());
        add_pair(&mut v, "efcore_len_configs", self.backend.efcore_len_configs.as_str());
        add_pair(&mut v, "web_index_filter_fields", self.web.web_index_filter_fields.as_str());
        add_pair(&mut v, "web_index_column_fields", self.web.web_index_column_fields.as_str());
        add_pair(&mut v, "index_cs_nav_props", self.web.index_cs_nav_props.as_str());
        add_pair(&mut v, "index_cs_onget_nav_fill", self.web.index_cs_onget_nav_fill.as_str());
        add_pair(&mut v, "index_js_nav_filters", self.web.index_js_nav_filters.as_str());
        add_pair(&mut v, "web_datatable_columns", self.web.web_datatable_columns.as_str());
        add_pair(&mut v, "index_js_nav_query_pairs", self.web.index_js_nav_query_pairs.as_str());
        add_pair(&mut v, "index_js_nav_clear_filters", self.web.index_js_nav_clear_filters.as_str());
        add_pair(&mut v, "index_js_select2_nav_filters", self.web.index_js_select2_nav_filters.as_str());
        add_pair(&mut v, "index_js_string_filters", self.web.index_js_string_filters.as_str());
        add_pair(&mut v, "index_js_string_query_pairs", self.web.index_js_string_query_pairs.as_str());
        add_pair(&mut v, "index_js_string_clear_filters", self.web.index_js_string_clear_filters.as_str());
        add_pair(&mut v, "web_form_fields_create", self.web.web_form_fields_create.as_str());
        add_pair(&mut v, "web_form_fields_edit", self.web.web_form_fields_edit.as_str());
        add_pair(&mut v, "web_form_fields_detail", self.web.web_form_fields_detail.as_str());
        add_pair(&mut v, "web_js_select2_create", self.web.web_js_select2_create.as_str());
        add_pair(&mut v, "web_js_select2_edit", self.web.web_js_select2_edit.as_str());
        add_pair(&mut v, "web_js_select2_detail", self.web.web_js_select2_detail.as_str());
        add_pair(&mut v, "nav_dtos", self.web.nav_dtos.as_str());
        add_pair(&mut v, "nav_dto_mappings", self.web.nav_dto_mappings.as_str());
        add_pair(&mut v, "localization_resource", self.localization_resource.as_str());
        add_pair(&mut v, "entity_camel", self.entity_lower.as_str());
        add_pair(&mut v, "entity_plural_camel", self.entity_plural_lower.as_str());
        add_pair(&mut v, "web_namespace", self.web_namespace.as_str());
        add_pair(&mut v, "namespace_lower", self.namespace_lower.as_str());
        add_pair(&mut v, "mobile_lookup_methods", self.mobile.mobile_lookup_methods.as_str());
        add_pair(&mut v, "mobile_tab_scenes", "");
        add_pair(&mut v, "mobile_tab_route_builder", "");
        add_pair(&mut v, "mobile_screen_extra_imports", self.mobile.mobile_screen_extra_imports.as_str());
        add_pair(&mut v, "mobile_screen_props", "");
        add_pair(&mut v, "mobile_screen_state", self.mobile.mobile_screen_state.as_str());
        add_pair(&mut v, "mobile_screen_lookup_loaders", self.mobile.mobile_screen_lookup_loaders.as_str());
        add_pair(&mut v, "mobile_screen_lookup_calls", self.mobile.mobile_screen_lookup_calls.as_str());
        add_pair(&mut v, "mobile_screen_effects", self.mobile.mobile_screen_effects.as_str());
        add_pair(&mut v, "mobile_screen_form_props", self.mobile.mobile_screen_form_props.as_str());
        add_pair(&mut v, "mobile_form_validations", self.mobile.mobile_form_validations.as_str());
        add_pair(&mut v, "mobile_form_props", self.mobile.mobile_form_props.as_str());
        add_pair(&mut v, "mobile_form_state", self.mobile.mobile_form_state.as_str());
        add_pair(&mut v, "mobile_form_refs", "");
        add_pair(&mut v, "mobile_form_initial_values", self.mobile.mobile_form_initial_values.as_str());
        add_pair(&mut v, "mobile_form_modals", self.mobile.mobile_form_modals.as_str());
        add_pair(&mut v, "mobile_form_inputs", self.mobile.mobile_form_inputs.as_str());
        add_pair(&mut v, "mobile_form_styles", "");
        add_pair(&mut v, "mobile_form_prop_types", self.mobile.mobile_form_prop_types.as_str());
        add_pair(&mut v, "mobile_form_extra_imports", self.mobile.mobile_form_extra_imports.as_str());
        add_pair(&mut v, "mobile_form_external_imports", self.mobile.mobile_form_external_imports.as_str());
        add_pair(&mut v, "mobile_list_title", self.mobile.mobile_list_title.as_str());
        add_pair(&mut v, "mobile_list_description", "null");
        add_pair(&mut v, "mobile_list_fields", self.mobile.mobile_list_fields.as_str());
        add_pair(&mut v, "entity_name_lower", self.entity_lower.as_str());
        add_pair(&mut v, "entity_name_kebab", self.entity_name_kebab.as_str());
        add_pair(&mut v, "entity_plural_camel", self.entity_plural_lower.as_str());
        add_pair(&mut v, "domain_short", self.domain_short.as_str());
        add_pair(&mut v, "mobile_tab_scenes", "");
        add_pair(&mut v, "mobile_tab_route_builder", "");
        v
    }

    /// The placeholders as a mapping: each key holds the value of its last
    /// pair.
    pub fn placeholders(&self) -> (r: Mapping)
        ensures
            forall|q: Seq<char>| #[trigger] r.get_spec(q) == last_value(self.placeholder_pairs(), q),
    {
        let v = self.pairs();
        Mapping::from_pairs(&v)
    }
}

} // verus!
