//! The texts that a generated entity needs in a localization file, which of
//! them a file still lacks, and how the top-level keys of a shared
//! localization file are put in their expected spelling first.
use crate::fragments::compile::add_pair;
use crate::mapping::{entry_views, Mapping};
use crate::models::{fields_view, Field, FieldV};
use crate::naming::{last_segment, last_segment_spec, plural, pluralize};
use crate::text::{copy_str, eq_ignore_case, lower, push_str, str_eq};
use vstd::prelude::*;

verus! {

/// How a field is labelled: a navigation field of type Guid (in any case) by
/// the last segment of the entity it points to, any other by its name.
pub open spec fn field_label_spec(f: FieldV) -> Seq<char> {
    if lower(f.ftype) == lower("Guid"@) {
        match f.navigation {
            Some(n) => last_segment_spec(n),
            None => f.name,
        }
    } else {
        f.name
    }
}

/// The entry of one field: `Entity:Field` and its label.
pub open spec fn field_entry(entity: Seq<char>, f: FieldV) -> (Seq<char>, Seq<char>) {
    (entity + ":"@ + f.name, field_label_spec(f))
}

/// The entries of all fields, in field order.
pub open spec fn field_entries(entity: Seq<char>, fields: Seq<FieldV>) -> Seq<(Seq<char>, Seq<char>)> {
    Seq::new(fields.len(), |i: int| field_entry(entity, fields[i]))
}

/// The fixed entries of the shared (server-side) localization file.
pub open spec fn shared_fixed_entries(entity: Seq<char>, plural_name: Seq<char>) -> Seq<(Seq<char>, Seq<char>)> {
    Seq::empty()
        .push(("Permission:"@ + plural_name, plural_name))
        .push((plural_name, plural_name))
        .push(("New"@ + entity, "New "@ + entity))
        .push(("Menu:"@ + plural_name, plural_name))
        .push(("Detail"@, "Detail"@))
        .push(("Permission:Create"@, "Create"@))
        .push(("Permission:Detail"@, "Detail"@))
        .push(("Permission:Edit"@, "Edit"@))
        .push(("Permission:Delete"@, "Delete"@))
        .push(("ExportToExcel"@, "Export to Excel"@))
        .push(("Close"@, "Close"@))
        .push(("Cancel"@, "Cancel"@))
        .push(("Save"@, "Save"@))
        .push(("Actions"@, "Actions"@))
        .push(("Pagination"@, "Pagination"@))
        .push(("PagerShow"@, "Show"@))
        .push(("PagerPageSize"@, "Page size"@))
        .push(("PagerEntries"@, "entries per page"@))
        .push(("PagerInfo"@, "Showing {0} to {1} of {2} entries"@))
        .push(("PagerFirst"@, "First"@))
        .push(("PagerPrevious"@, "Previous"@))
        .push(("PagerNext"@, "Next"@))
        .push(("PagerLast"@, "Last"@))
        .push(("ClearSelection"@, "Clear selection"@))
        .push(("OneItemOnThisPageIsSelected"@, "1 item on this page is selected"@))
        .push(("NumberOfItemsOnThisPageAreSelected"@, "{0} items on this page are selected"@))
        .push(("SelectAllItems"@, "Select all {0} items"@))
        .push(("AllItemsAreSelected"@, "All {0} items are selected"@))
        .push(("DeleteAllRecords"@, "Delete all records?"@))
        .push(("DeleteSelectedRecords"@, "Delete the selected {0} record(s)?"@))
        .push(("SuccessfullySaved"@, "Successfully Saved"@))
        .push(("SuccessfullyDeleted"@, "Successfully Deleted"@))
        .push(("DeleteConfirmationMessage"@, "Are you sure you want to delete this item?"@))
}

/// The fixed entries of the mobile app's localization block.
pub open spec fn mobile_fixed_entries(entity: Seq<char>, plural_name: Seq<char>) -> Seq<(Seq<char>, Seq<char>)> {
    Seq::empty()
        .push(("Menu:"@ + plural_name, plural_name))
        .push(("New"@ + entity, "New "@ + entity))
        .push(("Permission:"@ + plural_name, plural_name))
        .push((plural_name, plural_name))
        .push(("AreYouSureToDelete"@, "Are you sure you want to delete this item?"@))
}

/// A mapping value, or the empty text where the key is absent.
pub open spec fn value_or_empty(m: Mapping, k: Seq<char>) -> Seq<char> {
    match m.get_spec(k) {
        Some(v) => v,
        None => Seq::empty(),
    }
}

/// Entity name and plural that the shared file uses.
pub open spec fn shared_names(m: Mapping) -> (Seq<char>, Seq<char>) {
    (value_or_empty(m, "entity_name"@), value_or_empty(m, "entity_plural"@))
}

/// Entity name and plural that the mobile file uses: the name falls back on
/// `entity`, the plural on the pluralised name.
pub open spec fn mobile_names(m: Mapping) -> (Seq<char>, Seq<char>) {
    let name = match m.get_spec("entity_name"@) {
        Some(v) => v,
        None => value_or_empty(m, "entity"@),
    };
    let pl = match m.get_spec("entity_plural"@) {
        Some(v) => v,
        None => plural(name),
    };
    (name, pl)
}

pub open spec fn shared_entries_spec(m: Mapping, fields: Seq<FieldV>) -> Seq<(Seq<char>, Seq<char>)> {
    let (name, pl) = shared_names(m);
    shared_fixed_entries(name, pl) + field_entries(name, fields)
}

pub open spec fn mobile_entries_spec(m: Mapping, fields: Seq<FieldV>) -> Seq<(Seq<char>, Seq<char>)> {
    let (name, pl) = mobile_names(m);
    mobile_fixed_entries(name, pl) + field_entries(name, fields)
}

fn value_or_empty_exec(m: &Mapping, k: &str) -> (r: String)
    ensures
        r@ == value_or_empty(*m, k@),
{
    match m.get(k) {
        Some(v) => copy_str(v.as_str()),
        None => String::new(),
    }
}

fn field_label(f: &Field) -> (r: String)
    ensures
        r@ == field_label_spec(f@),
{
    if eq_ignore_case(f.ftype.as_str(), "Guid") {
        match &f.navigation {
            Some(n) => last_segment(n.as_str()),
            None => copy_str(f.name.as_str()),
        }
    } else {
        copy_str(f.name.as_str())
    }
}

fn joined(a: &str, b: &str) -> (r: String)
    ensures
        r@ == a@ + b@,
{
    let mut s = copy_str(a);
    push_str(&mut s, b);
    s
}

fn push_field_entries(v: &mut Vec<(String, String)>, entity: &str, fields: &Vec<Field>)
    ensures
        entry_views(final(v)@) == entry_views(old(v)@) + field_entries(entity@, fields_view(fields@)),
{
    let ghost start = entry_views(v@);
    let mut i: usize = 0;
    while i < fields.len()
        invariant
            i <= fields.len(),
            entry_views(v@) == start + field_entries(entity@, fields_view(fields@)).take(i as int),
        decreases fields.len() - i,
    {
        let f = &fields[i];
        let mut key = joined(entity, ":");
        push_str(&mut key, f.name.as_str());
        let label = field_label(f);
        let ghost before = entry_views(v@);
        add_pair(v, key.as_str(), label.as_str());
        proof {
            let fe = field_entries(entity@, fields_view(fields@));
            assert(fe[i as int] == field_entry(entity@, fields@[i as int]@));
            assert(fe.take(i + 1) =~= fe.take(i as int).push(fe[i as int]));
        }
        i = i + 1;
    }
    proof {
        let fe = field_entries(entity@, fields_view(fields@));
        assert(fe.take(fields.len() as int) =~= fe);
    }
}

/// The entries that a generated entity needs in the shared localization
/// file: the fixed ones, then one per field.
pub fn shared_localization_entries(m: &Mapping, fields: &Vec<Field>) -> (r: Vec<(String, String)>)
    ensures
        entry_views(r@) == shared_entries_spec(*m, fields_view(fields@)),
{
    let name = value_or_empty_exec(m, "entity_name");
    let pl = value_or_empty_exec(m, "entity_plural");
    let mut v: Vec<(String, String)> = Vec::new();
    assert(entry_views(v@) =~= Seq::<(Seq<char>, Seq<char>)>::empty());
    let k = joined("Permission:", pl.as_str());
    add_pair(&mut v, k.as_str(), pl.as_str());
    add_pair(&mut v, pl.as_str(), pl.as_str());
    let k = joined("New", name.as_str());
    let val = joined("New ", name.as_str());
    add_pair(&mut v, k.as_str(), val.as_str());
    let k = joined("Menu:", pl.as_str());
    add_pair(&mut v, k.as_str(), pl.as_str());
    add_pair(&mut v, "Detail", "Detail");
    add_pair(&mut v, "Permission:Create", "Create");
    add_pair(&mut v, "Permission:Detail", "Detail");
    add_pair(&mut v, "Permission:Edit", "Edit");
    add_pair(&mut v, "Permission:Delete", "Delete");
    add_pair(&mut v, "ExportToExcel", "Export to Excel");
    add_pair(&mut v, "Close", "Close");
    add_pair(&mut v, "Cancel", "Cancel");
    add_pair(&mut v, "Save", "Save");
    add_pair(&mut v, "Actions", "Actions");
    add_pair(&mut v, "Pagination", "Pagination");
    add_pair(&mut v, "PagerShow", "Show");
    add_pair(&mut v, "PagerPageSize", "Page size");
    add_pair(&mut v, "PagerEntries", "entries per page");
    add_pair(&mut v, "PagerInfo", "Showing {0} to {1} of {2} entries");
    add_pair(&mut v, "PagerFirst", "First");
    add_pair(&mut v, "PagerPrevious", "Previous");
    add_pair(&mut v, "PagerNext", "Next");
    add_pair(&mut v, "PagerLast", "Last");
    add_pair(&mut v, "ClearSelection", "Clear selection");
    add_pair(&mut v, "OneItemOnThisPageIsSelected", "1 item on this page is selected");
    add_pair(&mut v, "NumberOfItemsOnThisPageAreSelected", "{0} items on this page are selected");
    add_pair(&mut v, "SelectAllItems", "Select all {0} items");
    add_pair(&mut v, "AllItemsAreSelected", "All {0} items are selected");
    add_pair(&mut v, "DeleteAllRecords", "Delete all records?");
    add_pair(&mut v, "DeleteSelectedRecords", "Delete the selected {0} record(s)?");
    add_pair(&mut v, "SuccessfullySaved", "Successfully Saved");
    add_pair(&mut v, "SuccessfullyDeleted", "Successfully Deleted");
    add_pair(&mut v, "DeleteConfirmationMessage", "Are you sure you want to delete this item?");
    assert(entry_views(v@) == shared_fixed_entries(name@, pl@));
    push_field_entries(&mut v, name.as_str(), fields);
    v
}

/// The entries that a generated entity needs in the mobile app's
/// localization block: the fixed ones, then one per field.
pub fn mobile_localization_entries(m: &Mapping, fields: &Vec<Field>) -> (r: Vec<(String, String)>)
    ensures
        entry_views(r@) == mobile_entries_spec(*m, fields_view(fields@)),
{
    let name = match m.get("entity_name") {
        Some(s) => copy_str(s.as_str()),
        None => value_or_empty_exec(m, "entity"),
    };
    let pl = match m.get("entity_plural") {
        Some(s) => copy_str(s.as_str()),
        None => pluralize(name.as_str()),
    };
    let mut v: Vec<(String, String)> = Vec::new();
    assert(entry_views(v@) =~= Seq::<(Seq<char>, Seq<char>)>::empty());
    let k = joined("Menu:", pl.as_str());
    add_pair(&mut v, k.as_str(), pl.as_str());
    let k = joined("New", name.as_str());
    let val = joined("New ", name.as_str());
    add_pair(&mut v, k.as_str(), val.as_str());
    let k = joined("Permission:", pl.as_str());
    add_pair(&mut v, k.as_str(), pl.as_str());
    add_pair(&mut v, pl.as_str(), pl.as_str());
    add_pair(&mut v, "AreYouSureToDelete", "Are you sure you want to delete this item?");
    assert(entry_views(v@) == mobile_fixed_entries(name@, pl@));
    push_field_entries(&mut v, name.as_str(), fields);
    v
}

/// The keys of some entries.
pub open spec fn keys_of(es: Seq<(Seq<char>, Seq<char>)>) -> Seq<Seq<char>> {
    es.map_values(|e: (Seq<char>, Seq<char>)| e.0)
}

/// The texts of some strings.
pub open spec fn texts_of(v: Seq<String>) -> Seq<Seq<char>> {
    v.map_values(|s: String| s@)
}

/// Whether the entry `e` is skipped after `prev` were added to a map that
/// held the keys `existing`: its key is there already.
pub open spec fn is_present(existing: Seq<Seq<char>>, prev: Seq<(Seq<char>, Seq<char>)>, k: Seq<char>) -> bool {
    existing.contains(k) || keys_of(prev).contains(k)
}

/// The entries of `desired` that are added, in order, to a map that holds
/// the keys `existing`: each one whose key is neither there nor added by an
/// entry before it.
pub open spec fn added_entries(existing: Seq<Seq<char>>, desired: Seq<(Seq<char>, Seq<char>)>) -> Seq<(Seq<char>, Seq<char>)>
    decreases desired.len(),
{
    if desired.len() == 0 {
        Seq::empty()
    } else {
        let prev = added_entries(existing, desired.drop_last());
        let e = desired.last();
        if is_present(existing, prev, e.0) {
            prev
        } else {
            prev.push(e)
        }
    }
}

/// One report line per desired entry: added, or skipped because present.
pub open spec fn added_report(existing: Seq<Seq<char>>, desired: Seq<(Seq<char>, Seq<char>)>) -> Seq<Seq<char>>
    decreases desired.len(),
{
    if desired.len() == 0 {
        Seq::empty()
    } else {
        let prev = added_entries(existing, desired.drop_last());
        let e = desired.last();
        added_report(existing, desired.drop_last()).push(
            if is_present(existing, prev, e.0) {
                "l10n= "@ + e.0 + " (skip, exists)"@
            } else {
                "l10n+ "@ + e.0 + " = "@ + e.1
            },
        )
    }
}

fn text_in(keys: &Vec<String>, k: &str) -> (r: bool)
    ensures
        r == texts_of(keys@).contains(k@),
{
    let mut i: usize = 0;
    while i < keys.len()
        invariant
            i <= keys.len(),
            forall|j: int| 0 <= j < i ==> keys@[j]@ != k@,
        decreases keys.len() - i,
    {
        if str_eq(keys[i].as_str(), k) {
            assert(texts_of(keys@)[i as int] == k@);
            return true;
        }
        i = i + 1;
    }
    proof {
        if texts_of(keys@).contains(k@) {
            let j = choose|j: int| 0 <= j < texts_of(keys@).len() && texts_of(keys@)[j] == k@;
            assert(keys@[j]@ == k@);
        }
    }
    false
}

fn key_in(es: &Vec<(String, String)>, k: &str) -> (r: bool)
    ensures
        r == keys_of(entry_views(es@)).contains(k@),
{
    let mut i: usize = 0;
    while i < es.len()
        invariant
            i <= es.len(),
            forall|j: int| 0 <= j < i ==> es@[j].0@ != k@,
        decreases es.len() - i,
    {
        if str_eq(es[i].0.as_str(), k) {
            assert(keys_of(entry_views(es@))[i as int] == k@);
            return true;
        }
        i = i + 1;
    }
    proof {
        if keys_of(entry_views(es@)).contains(k@) {
            let j = choose|j: int| 0 <= j < keys_of(entry_views(es@)).len() && keys_of(entry_views(es@))[j] == k@;
            assert(es@[j].0@ == k@);
        }
    }
    false
}

/// Which of `desired` a map with the keys `existing` still lacks (each added
/// one counting as present for those after it), with one report line per
/// desired entry.
pub fn entries_to_add(existing: &Vec<String>, desired: &Vec<(String, String)>) -> (r: (Vec<(String, String)>, Vec<String>))
    ensures
        entry_views(r.0@) == added_entries(texts_of(existing@), entry_views(desired@)),
        texts_of(r.1@) == added_report(texts_of(existing@), entry_views(desired@)),
{
    let ghost ex = texts_of(existing@);
    let ghost d = entry_views(desired@);
    let mut added: Vec<(String, String)> = Vec::new();
    let mut report: Vec<String> = Vec::new();
    let mut i: usize = 0;
    proof {
        assert(d.take(0) =~= Seq::<(Seq<char>, Seq<char>)>::empty());
        assert(entry_views(added@) =~= Seq::<(Seq<char>, Seq<char>)>::empty());
        assert(texts_of(report@) =~= Seq::<Seq<char>>::empty());
    }
    while i < desired.len()
        invariant
            i <= desired.len(),
            ex == texts_of(existing@),
            d == entry_views(desired@),
            entry_views(added@) == added_entries(ex, d.take(i as int)),
            texts_of(report@) == added_report(ex, d.take(i as int)),
        decreases desired.len() - i,
    {
        let k = desired[i].0.as_str();
        let val = desired[i].1.as_str();
        let present = text_in(existing, k) || key_in(&added, k);
        proof {
            assert(d.take(i + 1).drop_last() =~= d.take(i as int));
            assert(d.take(i + 1).last() == d[i as int]);
            assert(d[i as int] == (k@, val@));
        }
        let ghost before_added = added@;
        let ghost before_report = report@;
        if present {
            let mut line = joined("l10n= ", k);
            push_str(&mut line, " (skip, exists)");
            report.push(line);
        } else {
            add_pair(&mut added, k, val);
            let mut line = joined("l10n+ ", k);
            push_str(&mut line, " = ");
            push_str(&mut line, val);
            report.push(line);
        }
        proof {
            assert(texts_of(report@) =~= texts_of(before_report).push(report@.last()@));
        }
        i = i + 1;
    }
    proof {
        assert(d.take(desired.len() as int) =~= d);
    }
    (added, report)
}

/// The first of `keys` that equals `name` ignoring ASCII case.
pub open spec fn first_key_ignoring_case_spec(keys: Seq<Seq<char>>, name: Seq<char>) -> Option<int> {
    if exists|i: int| 0 <= i < keys.len() && lower(keys[i]) == lower(name) {
        Some(choose|i: int| 0 <= i < keys.len() && lower(keys[i]) == lower(name)
            && forall|j: int| 0 <= j < i ==> lower(keys[j]) != lower(name))
    } else {
        None
    }
}

/// The position of the first of `keys` that equals `name` ignoring ASCII case.
pub fn first_key_ignoring_case(keys: &Vec<String>, name: &str) -> (r: Option<usize>)
    ensures
        match r {
            Some(i) => i < keys.len() && lower(keys@[i as int]@) == lower(name@)
                && forall|j: int| 0 <= j < i ==> lower(#[trigger] keys@[j]@) != lower(name@),
            None => forall|j: int| 0 <= j < keys.len() ==> lower(#[trigger] keys@[j]@) != lower(name@),
        },
{
    let mut i: usize = 0;
    while i < keys.len()
        invariant
            i <= keys.len(),
            forall|j: int| 0 <= j < i ==> lower(#[trigger] keys@[j]@) != lower(name@),
        decreases keys.len() - i,
    {
        if eq_ignore_case(keys[i].as_str(), name) {
            return Some(i);
        }
        i = i + 1;
    }
    None
}

/// What becomes of the culture entry of a shared localization file.
#[derive(Debug, Clone, PartialEq, Eq)]
pub enum CultureStep {
    /// No culture entry: add `Culture` with the value `en`.
    InsertDefault,
    /// `Culture` is present as it is.
    Keep,
    /// The entry under this key moves to the key `Culture`.
    Rename(String),
}

/// How the top-level keys of a shared localization file are put in order
/// before its texts are merged.
#[derive(Debug, Clone)]
pub struct RootPlan {
    pub culture: CultureStep,
    /// The key under which the texts are found (`Texts` where none is).
    pub texts_key: String,
    /// The texts entry is absent or not an object: it becomes an empty object.
    pub recreate_texts: bool,
    /// The texts entry moves to the key `Texts`.
    pub rename_texts: bool,
}

/// The plan for a root object whose keys, in the order the object walks
/// them, are `keys`, where `objects[i]` says whether the value under
/// `keys[i]` is an object. The first key equal to `culture` (or `texts`)
/// ignoring ASCII case is the one used.
pub fn localization_root_plan(keys: &Vec<String>, objects: &Vec<bool>) -> (r: RootPlan)
    requires
        keys.len() == objects.len(),
    ensures
        match first_key_ignoring_case_spec(texts_of(keys@), "culture"@) {
            None => r.culture == CultureStep::InsertDefault,
            Some(i) => if keys@[i]@ == "Culture"@ {
                r.culture == CultureStep::Keep
            } else {
                r.culture matches CultureStep::Rename(k) && k@ == keys@[i]@
            },
        },
        match first_key_ignoring_case_spec(texts_of(keys@), "texts"@) {
            None => r.texts_key@ == "Texts"@ && r.recreate_texts,
            Some(i) => r.texts_key@ == keys@[i]@ && r.recreate_texts == !objects@[i],
        },
        r.rename_texts == (r.texts_key@ != "Texts"@),
{
    let c = first_key_ignoring_case(keys, "culture");
    proof {
        lemma_first_key_result(keys@, "culture"@, c);
    }
    let culture = match c {
        None => CultureStep::InsertDefault,
        Some(i) => if str_eq(keys[i].as_str(), "Culture") {
            CultureStep::Keep
        } else {
            CultureStep::Rename(copy_str(keys[i].as_str()))
        },
    };
    let t = first_key_ignoring_case(keys, "texts");
    proof {
        lemma_first_key_result(keys@, "texts"@, t);
    }
    let (texts_key, recreate_texts) = match t {
        None => (copy_str("Texts"), true),
        Some(i) => (copy_str(keys[i].as_str()), !objects[i]),
    };
    let rename_texts = !str_eq(texts_key.as_str(), "Texts");
    RootPlan { culture, texts_key, recreate_texts, rename_texts }
}

/// What the search for a key found is what its spec names.
proof fn lemma_first_key_result(keys: Seq<String>, name: Seq<char>, r: Option<usize>)
    requires
        match r {
            Some(i) => i < keys.len() && lower(keys[i as int]@) == lower(name)
                && forall|j: int| 0 <= j < i ==> lower(#[trigger] keys[j]@) != lower(name),
            None => forall|j: int| 0 <= j < keys.len() ==> lower(#[trigger] keys[j]@) != lower(name),
        },
    ensures
        first_key_ignoring_case_spec(texts_of(keys), name) == match r {
            Some(i) => Some(i as int),
            None => None::<int>,
        },
{
    let ks = texts_of(keys);
    assert(ks.len() == keys.len());
    assert forall|j: int| 0 <= j < keys.len() implies ks[j] == keys[j]@ by {}
    match r {
        Some(i) => {
            assert(lower(ks[i as int]) == lower(name));
            let c = choose|c: int| 0 <= c < ks.len() && lower(ks[c]) == lower(name)
                && forall|j: int| 0 <= j < c ==> lower(ks[j]) != lower(name);
            if c < i {
                assert(lower(keys[c]@) != lower(name));
            } else if c > i {
                assert(lower(ks[i as int]) != lower(name));
            }
        },
        None => {
            if exists|i: int| 0 <= i < ks.len() && lower(ks[i]) == lower(name) {
                let i = choose|i: int| 0 <= i < ks.len() && lower(ks[i]) == lower(name);
                assert(lower(keys[i]@) != lower(name));
            }
        },
    }
}

proof fn lemma_added_grows(existing: Seq<Seq<char>>, desired: Seq<(Seq<char>, Seq<char>)>, k: Seq<char>)
    requires
        desired.len() > 0,
        keys_of(added_entries(existing, desired.drop_last())).contains(k),
    ensures
        keys_of(added_entries(existing, desired)).contains(k),
{
    let prev = added_entries(existing, desired.drop_last());
    let e = desired.last();
    if !is_present(existing, prev, e.0) {
        let j = choose|j: int| 0 <= j < keys_of(prev).len() && keys_of(prev)[j] == k;
        assert(keys_of(prev.push(e))[j] == k);
    }
}

/// Law: after the missing entries are added, every desired key is in the map.
pub proof fn lemma_added_complete(existing: Seq<Seq<char>>, desired: Seq<(Seq<char>, Seq<char>)>)
    ensures
        forall|i: int| 0 <= i < desired.len() ==> existing.contains(#[trigger] desired[i].0)
            || keys_of(added_entries(existing, desired)).contains(desired[i].0),
    decreases desired.len(),
{
    if desired.len() > 0 {
        let d0 = desired.drop_last();
        lemma_added_complete(existing, d0);
        let prev = added_entries(existing, d0);
        let e = desired.last();
        assert forall|i: int| 0 <= i < desired.len() implies existing.contains(#[trigger] desired[i].0)
            || keys_of(added_entries(existing, desired)).contains(desired[i].0) by {
            if i < desired.len() - 1 {
                assert(desired[i] == d0[i]);
                if !existing.contains(desired[i].0) {
                    lemma_added_grows(existing, desired, desired[i].0);
                }
            } else if !existing.contains(e.0) {
                if keys_of(prev).contains(e.0) {
                    lemma_added_grows(existing, desired, e.0);
                } else {
                    assert(keys_of(prev.push(e))[prev.len() as int] == e.0);
                }
            }
        }
    }
}

proof fn lemma_nothing_missing(existing: Seq<Seq<char>>, desired: Seq<(Seq<char>, Seq<char>)>)
    requires
        forall|i: int| 0 <= i < desired.len() ==> existing.contains(#[trigger] desired[i].0),
    ensures
        added_entries(existing, desired) == Seq::<(Seq<char>, Seq<char>)>::empty(),
    decreases desired.len(),
{
    if desired.len() > 0 {
        let d0 = desired.drop_last();
        assert forall|i: int| 0 <= i < d0.len() implies existing.contains(#[trigger] d0[i].0) by {
            assert(d0[i] == desired[i]);
        }
        lemma_nothing_missing(existing, d0);
        assert(existing.contains(desired[desired.len() - 1].0));
    }
}

/// Law: merging the same entries a second time, into the map that the
/// first merge produced, adds nothing.
pub proof fn lemma_merge_again_adds_nothing(existing: Seq<Seq<char>>, desired: Seq<(Seq<char>, Seq<char>)>)
    ensures
        added_entries(existing + keys_of(added_entries(existing, desired)), desired)
            == Seq::<(Seq<char>, Seq<char>)>::empty(),
{
    let after = existing + keys_of(added_entries(existing, desired));
    lemma_added_complete(existing, desired);
    assert forall|i: int| 0 <= i < desired.len() implies after.contains(#[trigger] desired[i].0) by {
        let k = desired[i].0;
        if existing.contains(k) {
            let j = choose|j: int| 0 <= j < existing.len() && existing[j] == k;
            assert(after[j] == k);
        } else {
            let a = keys_of(added_entries(existing, desired));
            let j = choose|j: int| 0 <= j < a.len() && a[j] == k;
            assert(after[existing.len() + j] == k);
        }
    }
    lemma_nothing_missing(after, desired);
}

/// Law: no added entry was in the map before, and no key is added twice.
pub proof fn lemma_added_fresh(existing: Seq<Seq<char>>, desired: Seq<(Seq<char>, Seq<char>)>)
    ensures
        forall|i: int| 0 <= i < added_entries(existing, desired).len()
            ==> !existing.contains(#[trigger] added_entries(existing, desired)[i].0),
        keys_of(added_entries(existing, desired)).no_duplicates(),
    decreases desired.len(),
{
    if desired.len() > 0 {
        let d0 = desired.drop_last();
        lemma_added_fresh(existing, d0);
        let prev = added_entries(existing, d0);
        let e = desired.last();
        if !is_present(existing, prev, e.0) {
            let a = prev.push(e);
            assert forall|i: int| 0 <= i < a.len() implies !existing.contains(#[trigger] a[i].0) by {
                if i < prev.len() {
                    assert(a[i] == prev[i]);
                }
            }
            assert forall|i: int, j: int| 0 <= i < keys_of(a).len() && 0 <= j < keys_of(a).len() && i != j
                implies keys_of(a)[i] != keys_of(a)[j] by {
                if i < prev.len() && j < prev.len() {
                    assert(keys_of(a)[i] == keys_of(prev)[i]);
                    assert(keys_of(a)[j] == keys_of(prev)[j]);
                } else if i < prev.len() {
                    assert(keys_of(prev)[i] == keys_of(a)[i]);
                } else {
                    assert(keys_of(prev)[j] == keys_of(a)[j]);
                }
            }
        }
    }
}

} // verus!
