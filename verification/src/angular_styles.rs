//! The style bundles of an Angular workspace that depend on the selected
//! theme and on the Bootstrap override, and the footer provider that goes
//! with each theme.
use crate::models::AbpTheme;
use crate::text::{contains, copy_str, str_contains, str_eq};
use vstd::prelude::*;

verus! {

/// One entry of a build's `styles` array, as far as the theme logic reads it.
#[derive(Debug, Clone)]
pub struct StyleRef {
    /// The entry itself, where it is a string.
    pub text: Option<String>,
    /// The `input` of an entry that is an object with a string `input`.
    pub input: Option<String>,
}

pub struct StyleView {
    pub text: Option<Seq<char>>,
    pub input: Option<Seq<char>>,
}

pub open spec fn opt_text(o: Option<String>) -> Option<Seq<char>> {
    match o {
        Some(s) => Some(s@),
        None => None,
    }
}

impl View for StyleRef {
    type V = StyleView;

    open spec fn view(&self) -> StyleView {
        StyleView { text: opt_text(self.text), input: opt_text(self.input) }
    }
}

pub open spec fn styles_view(v: Seq<StyleRef>) -> Seq<StyleView> {
    v.map_values(|s: StyleRef| s@)
}

/// A style bundle that a theme brings.
#[derive(Debug, Clone)]
pub struct ThemeStyle {
    pub input: String,
    pub inject: bool,
    pub bundle_name: String,
}

pub open spec fn theme_style_view(t: ThemeStyle) -> (Seq<char>, bool, Seq<char>) {
    (t.input@, t.inject, t.bundle_name@)
}

pub open spec fn theme_styles_view(v: Seq<ThemeStyle>) -> Seq<(Seq<char>, bool, Seq<char>)> {
    v.map_values(|t: ThemeStyle| theme_style_view(t))
}

/// The style bundles of each theme, in the order they are listed.
pub open spec fn theme_styles_spec(theme: AbpTheme) -> Seq<(Seq<char>, bool, Seq<char>)> {
    match theme {
        AbpTheme::Basic => Seq::empty()
            .push(("node_modules/bootstrap/dist/css/bootstrap.rtl.min.css"@, false, "bootstrap-rtl.min"@))
            .push(("node_modules/bootstrap/dist/css/bootstrap.min.css"@, true, "bootstrap-ltr.min"@)),
        AbpTheme::LeptonX => Seq::empty()
            .push(("node_modules/@volo/ngx-lepton-x.lite/assets/css/bootstrap-dim.css"@, false, "bootstrap-dim"@))
            .push(("node_modules/@volo/ngx-lepton-x.lite/assets/css/ng-bundle.css"@, false, "ng-bundle"@))
            .push(("node_modules/@volo/ngx-lepton-x.lite/assets/css/side-menu/layout-bundle.css"@, false, "layout-bundle"@))
            .push(("node_modules/@abp/ng.theme.lepton-x/assets/css/abp-bundle.css"@, false, "abp-bundle"@))
            .push(("node_modules/@volo/ngx-lepton-x.lite/assets/css/bootstrap-dim.rtl.css"@, false, "bootstrap-dim.rtl"@))
            .push(("node_modules/@volo/ngx-lepton-x.lite/assets/css/font-bundle.css"@, false, "font-bundle"@))
            .push(("node_modules/@volo/ngx-lepton-x.lite/assets/css/font-bundle.rtl.css"@, false, "font-bundle.rtl"@))
            .push(("node_modules/@volo/ngx-lepton-x.lite/assets/css/ng-bundle.rtl.css"@, false, "ng-bundle.rtl"@))
            .push(("node_modules/@volo/ngx-lepton-x.lite/assets/css/side-menu/layout-bundle.rtl.css"@, false, "layout-bundle.rtl"@))
            .push(("node_modules/@abp/ng.theme.lepton-x/assets/css/abp-bundle.rtl.css"@, false, "abp-bundle.rtl"@))
            .push(("node_modules/bootstrap-icons/font/bootstrap-icons.css"@, true, "bootstrap-icons"@)),
    }
}

fn add_style(v: &mut Vec<ThemeStyle>, input: &str, inject: bool, bundle_name: &str)
    ensures
        theme_styles_view(final(v)@) == theme_styles_view(old(v)@).push((input@, inject, bundle_name@)),
{
    let ghost before = v@;
    v.push(ThemeStyle { input: copy_str(input), inject, bundle_name: copy_str(bundle_name) });
    assert(theme_styles_view(v@) =~= theme_styles_view(before).push((input@, inject, bundle_name@)));
}

/// The style bundles that `theme` brings.
pub fn angular_theme_styles(theme: AbpTheme) -> (r: Vec<ThemeStyle>)
    ensures
        theme_styles_view(r@) == theme_styles_spec(theme),
{
    let mut v: Vec<ThemeStyle> = Vec::new();
    assert(theme_styles_view(v@) =~= Seq::<(Seq<char>, bool, Seq<char>)>::empty());
    match theme {
        AbpTheme::Basic => {
            add_style(&mut v, "node_modules/bootstrap/dist/css/bootstrap.rtl.min.css", false, "bootstrap-rtl.min");
            add_style(&mut v, "node_modules/bootstrap/dist/css/bootstrap.min.css", true, "bootstrap-ltr.min");
        },
        AbpTheme::LeptonX => {
            add_style(&mut v, "node_modules/@volo/ngx-lepton-x.lite/assets/css/bootstrap-dim.css", false, "bootstrap-dim");
            add_style(&mut v, "node_modules/@volo/ngx-lepton-x.lite/assets/css/ng-bundle.css", false, "ng-bundle");
            add_style(&mut v, "node_modules/@volo/ngx-lepton-x.lite/assets/css/side-menu/layout-bundle.css", false, "layout-bundle");
            add_style(&mut v, "node_modules/@abp/ng.theme.lepton-x/assets/css/abp-bundle.css", false, "abp-bundle");
            add_style(&mut v, "node_modules/@volo/ngx-lepton-x.lite/assets/css/bootstrap-dim.rtl.css", false, "bootstrap-dim.rtl");
            add_style(&mut v, "node_modules/@volo/ngx-lepton-x.lite/assets/css/font-bundle.css", false, "font-bundle");
            add_style(&mut v, "node_modules/@volo/ngx-lepton-x.lite/assets/css/font-bundle.rtl.css", false, "font-bundle.rtl");
            add_style(&mut v, "node_modules/@volo/ngx-lepton-x.lite/assets/css/ng-bundle.rtl.css", false, "ng-bundle.rtl");
            add_style(&mut v, "node_modules/@volo/ngx-lepton-x.lite/assets/css/side-menu/layout-bundle.rtl.css", false, "layout-bundle.rtl");
            add_style(&mut v, "node_modules/@abp/ng.theme.lepton-x/assets/css/abp-bundle.rtl.css", false, "abp-bundle.rtl");
            add_style(&mut v, "node_modules/bootstrap-icons/font/bootstrap-icons.css", true, "bootstrap-icons");
        },
    }
    v
}

/// The path a style entry names: an object's `input`, else the string itself,
/// else nothing.
pub open spec fn style_input(s: StyleView) -> Seq<char> {
    match s.input {
        Some(i) => i,
        None => match s.text {
            Some(t) => t,
            None => Seq::empty(),
        },
    }
}

/// A style entry that belongs to one of the themes.
pub open spec fn is_theme_style_spec(s: StyleView) -> bool {
    let i = style_input(s);
    contains(i, "ngx-lepton-x"@) || contains(i, "ng.theme.lepton-x"@) || contains(
        i,
        "bootstrap-icons/font/bootstrap-icons.css"@,
    ) || contains(i, "bootstrap/dist/css/bootstrap.rtl.min.css"@) || contains(
        i,
        "bootstrap/dist/css/bootstrap.min.css"@,
    )
}

/// Whether a style entry belongs to one of the themes.
pub fn is_angular_theme_style(s: &StyleRef) -> (r: bool)
    ensures
        r == is_theme_style_spec(s@),
{
    let input: &str = match &s.input {
        Some(i) => i.as_str(),
        None => match &s.text {
            Some(t) => t.as_str(),
            None => "",
        },
    };
    proof {
        reveal_strlit("");
        assert(""@ =~= Seq::<char>::empty());
    }
    assert(input@ == style_input(s@));
    str_contains(input, "ngx-lepton-x") || str_contains(input, "ng.theme.lepton-x") || str_contains(
        input,
        "bootstrap-icons/font/bootstrap-icons.css",
    ) || str_contains(input, "bootstrap/dist/css/bootstrap.rtl.min.css") || str_contains(
        input,
        "bootstrap/dist/css/bootstrap.min.css",
    )
}

/// A slot of a rewritten `styles` array.
#[derive(Debug, Clone)]
pub enum StyleSlot {
    /// The entry at this position of the old array.
    Kept(usize),
    /// A theme's bundle.
    Theme(ThemeStyle),
    /// A string entry.
    Text(String),
}

pub enum SlotView {
    Kept(int),
    Theme((Seq<char>, bool, Seq<char>)),
    Text(Seq<char>),
}

pub open spec fn slot_view(s: StyleSlot) -> SlotView {
    match s {
        StyleSlot::Kept(i) => SlotView::Kept(i as int),
        StyleSlot::Theme(t) => SlotView::Theme(theme_style_view(t)),
        StyleSlot::Text(t) => SlotView::Text(t@),
    }
}

pub open spec fn slots_view(v: Seq<StyleSlot>) -> Seq<SlotView> {
    v.map_values(|s: StyleSlot| slot_view(s))
}

/// The positions of the entries for which `drop` does not hold, in order.
pub open spec fn kept_positions(styles: Seq<StyleView>, drop: spec_fn(StyleView) -> bool) -> Seq<int>
    decreases styles.len(),
{
    if styles.len() == 0 {
        Seq::empty()
    } else {
        let prev = kept_positions(styles.drop_last(), drop);
        if drop(styles.last()) {
            prev
        } else {
            prev.push(styles.len() - 1)
        }
    }
}

/// The positions of the entries that are not theme bundles, in order.
pub open spec fn non_theme_positions(styles: Seq<StyleView>) -> Seq<int> {
    kept_positions(styles, |v: StyleView| is_theme_style_spec(v))
}

/// The main stylesheet entry.
pub open spec fn is_main_style(s: StyleView) -> bool {
    s.text == Some("src/styles.scss"@)
}

/// Where, among the kept positions `kept`, the main stylesheet stands (the
/// number of kept entries where none is the main one).
pub open spec fn main_style_at(styles: Seq<StyleView>, kept: Seq<int>) -> int
    decreases kept.len(),
{
    if kept.len() == 0 {
        0
    } else if is_main_style(styles[kept[0]]) {
        0
    } else {
        1 + main_style_at(styles, kept.drop_first())
    }
}

pub open spec fn kept_slots(kept: Seq<int>) -> Seq<SlotView> {
    kept.map_values(|i: int| SlotView::Kept(i))
}

pub open spec fn theme_slots(ts: Seq<(Seq<char>, bool, Seq<char>)>) -> Seq<SlotView> {
    ts.map_values(|t: (Seq<char>, bool, Seq<char>)| SlotView::Theme(t))
}

/// The `styles` array after a switch to `theme`: the theme bundles leave, and
/// those of `theme` go in just before the main stylesheet (at the end where
/// there is none).
pub open spec fn restyled_spec(styles: Seq<StyleView>, theme: AbpTheme) -> Seq<SlotView> {
    let kept = non_theme_positions(styles);
    let p = main_style_at(styles, kept);
    kept_slots(kept.take(p)) + theme_slots(theme_styles_spec(theme)) + kept_slots(kept.skip(p))
}

pub open spec fn positions_view(v: Seq<usize>) -> Seq<int> {
    v.map_values(|i: usize| i as int)
}

proof fn lemma_main_style_at(styles: Seq<StyleView>, kept: Seq<int>)
    ensures
        0 <= main_style_at(styles, kept) <= kept.len(),
        forall|j: int| 0 <= j < main_style_at(styles, kept) ==> !is_main_style(#[trigger] styles[kept[j]]),
        main_style_at(styles, kept) < kept.len() ==> is_main_style(styles[kept[main_style_at(styles, kept)]]),
    decreases kept.len(),
{
    if kept.len() > 0 && !is_main_style(styles[kept[0]]) {
        let rest = kept.drop_first();
        lemma_main_style_at(styles, rest);
        assert forall|j: int| 0 <= j < main_style_at(styles, kept) implies !is_main_style(#[trigger] styles[kept[j]]) by {
            if j > 0 {
                assert(kept[j] == rest[j - 1]);
            }
        }
        if main_style_at(styles, kept) < kept.len() {
            assert(kept[main_style_at(styles, kept)] == rest[main_style_at(styles, rest)]);
        }
    }
}

proof fn lemma_main_style_first(styles: Seq<StyleView>, kept: Seq<int>, p: int)
    requires
        0 <= p <= kept.len(),
        forall|j: int| 0 <= j < p ==> !is_main_style(#[trigger] styles[kept[j]]),
        p < kept.len() ==> is_main_style(styles[kept[p]]),
    ensures
        main_style_at(styles, kept) == p,
{
    lemma_main_style_at(styles, kept);
    let m = main_style_at(styles, kept);
    if m < p {
        assert(!is_main_style(styles[kept[m]]));
    } else if p < m {
        assert(!is_main_style(styles[kept[p]]));
    }
}

fn non_theme_positions_exec(styles: &Vec<StyleRef>) -> (r: Vec<usize>)
    ensures
        positions_view(r@) == non_theme_positions(styles_view(styles@)),
        forall|j: int| 0 <= j < r.len() ==> r@[j] < styles.len(),
{
    let ghost sv = styles_view(styles@);
    let mut kept: Vec<usize> = Vec::new();
    let mut i: usize = 0;
    assert(positions_view(kept@) =~= non_theme_positions(sv.take(0)));
    while i < styles.len()
        invariant
            i <= styles.len(),
            sv == styles_view(styles@),
            positions_view(kept@) == non_theme_positions(sv.take(i as int)),
            forall|j: int| 0 <= j < kept.len() ==> kept@[j] < i,
        decreases styles.len() - i,
    {
        proof {
            assert(sv.take(i + 1).drop_last() =~= sv.take(i as int));
            assert(sv.take(i + 1).last() == styles@[i as int]@);
        }
        if !is_angular_theme_style(&styles[i]) {
            let ghost before = kept@;
            kept.push(i);
            assert(positions_view(kept@) =~= positions_view(before).push(i as int));
        }
        i = i + 1;
    }
    assert(sv.take(styles.len() as int) =~= sv);
    kept
}

fn main_style_index(styles: &Vec<StyleRef>, kept: &Vec<usize>) -> (p: usize)
    requires
        forall|j: int| 0 <= j < kept.len() ==> kept@[j] < styles.len(),
    ensures
        p as int == main_style_at(styles_view(styles@), positions_view(kept@)),
        p <= kept.len(),
{
    let ghost sv = styles_view(styles@);
    let ghost kv = positions_view(kept@);
    let mut k: usize = 0;
    while k < kept.len()
        invariant
            k <= kept.len(),
            forall|j: int| 0 <= j < kept.len() ==> kept@[j] < styles.len(),
            sv == styles_view(styles@),
            kv == positions_view(kept@),
            forall|j: int| 0 <= j < k ==> !is_main_style(#[trigger] sv[kv[j]]),
        decreases kept.len() - k,
    {
        let main = match &styles[kept[k]].text {
            Some(t) => str_eq(t.as_str(), "src/styles.scss"),
            None => false,
        };
        assert(sv[kv[k as int]] == styles@[kept@[k as int] as int]@);
        if main {
            proof {
                lemma_main_style_first(sv, kv, k as int);
            }
            return k;
        }
        k = k + 1;
    }
    proof {
        lemma_main_style_first(sv, kv, k as int);
    }
    k
}

fn push_kept(out: &mut Vec<StyleSlot>, kept: &Vec<usize>, from: usize, to: usize)
    requires
        from <= to <= kept.len(),
    ensures
        slots_view(final(out)@) == slots_view(old(out)@) + kept_slots(positions_view(kept@).subrange(from as int, to as int)),
{
    let ghost start = slots_view(out@);
    let ghost kv = positions_view(kept@);
    let mut j: usize = from;
    while j < to
        invariant
            from <= j <= to <= kept.len(),
            kv == positions_view(kept@),
            slots_view(out@) == start + kept_slots(kv.subrange(from as int, j as int)),
        decreases to - j,
    {
        let ghost before = slots_view(out@);
        out.push(StyleSlot::Kept(kept[j]));
        assert(slots_view(out@) =~= before.push(SlotView::Kept(kv[j as int])));
        assert(kept_slots(kv.subrange(from as int, j + 1)) =~= kept_slots(kv.subrange(from as int, j as int)).push(SlotView::Kept(kv[j as int])));
        j = j + 1;
    }
}

/// The `styles` array after a switch to `theme`, as slots that refer to the
/// entries of the old array or hold a theme bundle.
pub fn restyled(styles: &Vec<StyleRef>, theme: AbpTheme) -> (r: Vec<StyleSlot>)
    ensures
        slots_view(r@) == restyled_spec(styles_view(styles@), theme),
{
    let kept = non_theme_positions_exec(styles);
    let p = main_style_index(styles, &kept);
    let ghost kv = positions_view(kept@);
    let mut out: Vec<StyleSlot> = Vec::new();
    assert(slots_view(out@) =~= Seq::<SlotView>::empty());
    push_kept(&mut out, &kept, 0, p);
    let ts = angular_theme_styles(theme);
    let ghost mid = slots_view(out@);
    let mut t: usize = 0;
    while t < ts.len()
        invariant
            t <= ts.len(),
            theme_styles_view(ts@) == theme_styles_spec(theme),
            slots_view(out@) == mid + theme_slots(theme_styles_view(ts@).take(t as int)),
        decreases ts.len() - t,
    {
        let ghost before = slots_view(out@);
        out.push(StyleSlot::Theme(ts[t].clone_style()));
        assert(slots_view(out@) =~= before.push(SlotView::Theme(theme_style_view(ts@[t as int]))));
        assert(theme_slots(theme_styles_view(ts@).take(t + 1)) =~= theme_slots(theme_styles_view(ts@).take(t as int)).push(SlotView::Theme(theme_style_view(ts@[t as int]))));
        t = t + 1;
    }
    assert(theme_styles_view(ts@).take(ts.len() as int) =~= theme_styles_view(ts@));
    push_kept(&mut out, &kept, p, kept.len());
    proof {
        assert(kv.subrange(0, p as int) =~= kv.take(p as int));
        assert(kv.subrange(p as int, kv.len() as int) =~= kv.skip(p as int));
    }
    out
}

impl ThemeStyle {
    /// A copy with the same fields.
    pub fn clone_style(&self) -> (r: ThemeStyle)
        ensures
            theme_style_view(r) == theme_style_view(*self),
    {
        ThemeStyle { input: copy_str(self.input.as_str()), inject: self.inject, bundle_name: copy_str(self.bundle_name.as_str()) }
    }
}

/// The stylesheet of the Bootstrap override.
pub open spec fn override_style() -> Seq<char> {
    "src/banna-theme.scss"@
}

/// An entry that names the override stylesheet, as a string or as an
/// object's `input`.
pub open spec fn is_override_style(s: StyleView) -> bool {
    s.text == Some(override_style()) || s.input == Some(override_style())
}

/// The positions of the entries that do not name the override stylesheet.
pub open spec fn non_override_positions(styles: Seq<StyleView>) -> Seq<int> {
    kept_positions(styles, |v: StyleView| is_override_style(v))
}

/// The `styles` array with the override stylesheet removed and, where
/// `enabled`, put back just after the main stylesheet (at the end where there
/// is none).
pub open spec fn override_restyled_spec(styles: Seq<StyleView>, enabled: bool) -> Seq<SlotView> {
    let kept = non_override_positions(styles);
    let q = main_style_at(styles, kept);
    let at = if q < kept.len() { q + 1 } else { kept.len() as int };
    if enabled {
        kept_slots(kept.take(at)) + seq![SlotView::Text(override_style())] + kept_slots(kept.skip(at))
    } else {
        kept_slots(kept)
    }
}

fn names_override(o: &Option<String>) -> (r: bool)
    ensures
        r == (opt_text(*o) == Some(override_style())),
{
    match o {
        Some(t) => str_eq(t.as_str(), "src/banna-theme.scss"),
        None => false,
    }
}

fn non_override_positions_exec(styles: &Vec<StyleRef>) -> (r: Vec<usize>)
    ensures
        positions_view(r@) == non_override_positions(styles_view(styles@)),
        forall|j: int| 0 <= j < r.len() ==> r@[j] < styles.len(),
{
    let ghost sv = styles_view(styles@);
    let mut kept: Vec<usize> = Vec::new();
    let mut i: usize = 0;
    assert(positions_view(kept@) =~= non_override_positions(sv.take(0)));
    while i < styles.len()
        invariant
            i <= styles.len(),
            sv == styles_view(styles@),
            positions_view(kept@) == non_override_positions(sv.take(i as int)),
            forall|j: int| 0 <= j < kept.len() ==> kept@[j] < i,
        decreases styles.len() - i,
    {
        proof {
            assert(sv.take(i + 1).drop_last() =~= sv.take(i as int));
            assert(sv.take(i + 1).last() == styles@[i as int]@);
        }
        if !(names_override(&styles[i].text) || names_override(&styles[i].input)) {
            let ghost before = kept@;
            kept.push(i);
            assert(positions_view(kept@) =~= positions_view(before).push(i as int));
        }
        i = i + 1;
    }
    assert(sv.take(styles.len() as int) =~= sv);
    kept
}

/// The `styles` array with the Bootstrap override stylesheet taken out and,
/// where `enabled`, put back after the main stylesheet.
pub fn override_restyled(styles: &Vec<StyleRef>, enabled: bool) -> (r: Vec<StyleSlot>)
    ensures
        slots_view(r@) == override_restyled_spec(styles_view(styles@), enabled),
{
    let kept = non_override_positions_exec(styles);
    let ghost kv = positions_view(kept@);
    let mut out: Vec<StyleSlot> = Vec::new();
    assert(slots_view(out@) =~= Seq::<SlotView>::empty());
    if !enabled {
        push_kept(&mut out, &kept, 0, kept.len());
        assert(kv.subrange(0, kv.len() as int) =~= kv);
        return out;
    }
    let q = main_style_index(styles, &kept);
    let at = if q < kept.len() { q + 1 } else { kept.len() };
    push_kept(&mut out, &kept, 0, at);
    let ghost before = slots_view(out@);
    out.push(StyleSlot::Text(copy_str("src/banna-theme.scss")));
    assert(slots_view(out@) =~= before.push(SlotView::Text(override_style())));
    push_kept(&mut out, &kept, at, kept.len());
    proof {
        assert(kv.subrange(0, at as int) =~= kv.take(at as int));
        assert(kv.subrange(at as int, kv.len() as int) =~= kv.skip(at as int));
        assert(before.push(SlotView::Text(override_style())) =~= before + seq![SlotView::Text(override_style())]);
    }
    out
}

/// The footer provider that goes with `theme`.
pub open spec fn footer_config_spec(theme: AbpTheme) -> Seq<char> {
    match theme {
        AbpTheme::Basic => "export const FOOTER_PROVIDER = [];\n"@,
        AbpTheme::LeptonX => "import { provideAppInitializer, inject } from '@angular/core';
import { ReplaceableComponentsService } from '@abp/ng.core';
import { eThemeLeptonXComponents } from '@abp/ng.theme.lepton-x';
import { FooterComponent } from './footer.component';

function initFooter() {
  const replaceableComponents = inject(ReplaceableComponentsService);
  replaceableComponents.add({
    key: eThemeLeptonXComponents.Footer,
    component: FooterComponent,
  });
}

export const FOOTER_PROVIDER = [
  provideAppInitializer(() => {
    initFooter();
  }),
];
"@,
    }
}

/// The footer provider file that goes with `theme`.
pub fn angular_footer_config(theme: AbpTheme) -> (r: String)
    ensures
        r@ == footer_config_spec(theme),
{
    match theme {
        AbpTheme::Basic => copy_str("export const FOOTER_PROVIDER = [];\n"),
        AbpTheme::LeptonX => copy_str("import { provideAppInitializer, inject } from '@angular/core';
import { ReplaceableComponentsService } from '@abp/ng.core';
import { eThemeLeptonXComponents } from '@abp/ng.theme.lepton-x';
import { FooterComponent } from './footer.component';

function initFooter() {
  const replaceableComponents = inject(ReplaceableComponentsService);
  replaceableComponents.add({
    key: eThemeLeptonXComponents.Footer,
    component: FooterComponent,
  });
}

export const FOOTER_PROVIDER = [
  provideAppInitializer(() => {
    initFooter();
  }),
];
"),
    }
}

/// How a theme bundle appears to the theme logic: an object with an `input`.
pub open spec fn theme_entry_view(t: (Seq<char>, bool, Seq<char>)) -> StyleView {
    StyleView { text: None, input: Some(t.0) }
}

/// The entries of a `styles` array rebuilt from `slots`, as the theme logic
/// reads them; `styles` is the array the slots refer to.
pub open spec fn materialize(styles: Seq<StyleView>, slots: Seq<SlotView>) -> Seq<StyleView> {
    slots.map_values(|s: SlotView| match s {
        SlotView::Kept(i) => styles[i],
        SlotView::Theme(t) => theme_entry_view(t),
        SlotView::Text(t) => StyleView { text: Some(t), input: None },
    })
}

proof fn lemma_literal_contains(h: Seq<char>, n: Seq<char>, k: int)
    requires
        0 <= k,
        k + n.len() <= h.len(),
        h.subrange(k, k + n.len()) == n,
    ensures
        contains(h, n),
{
    assert(crate::text::occurs_at(h, n, k));
}

/// Every bundle of a theme is recognised as a theme bundle.
proof fn lemma_theme_styles_are_theme(theme: AbpTheme)
    ensures
        forall|i: int| 0 <= i < theme_styles_spec(theme).len()
            ==> is_theme_style_spec(#[trigger] theme_entry_view(theme_styles_spec(theme)[i])),
{
    match theme {
        AbpTheme::Basic => {
            reveal_strlit("node_modules/bootstrap/dist/css/bootstrap.rtl.min.css");
            reveal_strlit("bootstrap/dist/css/bootstrap.rtl.min.css");
            reveal_strlit("node_modules/bootstrap/dist/css/bootstrap.min.css");
            reveal_strlit("bootstrap/dist/css/bootstrap.min.css");
            assert("node_modules/bootstrap/dist/css/bootstrap.rtl.min.css"@.subrange(13, 13int + "bootstrap/dist/css/bootstrap.rtl.min.css"@.len()) =~= "bootstrap/dist/css/bootstrap.rtl.min.css"@);
            lemma_literal_contains("node_modules/bootstrap/dist/css/bootstrap.rtl.min.css"@, "bootstrap/dist/css/bootstrap.rtl.min.css"@, 13);
            assert("node_modules/bootstrap/dist/css/bootstrap.min.css"@.subrange(13, 13int + "bootstrap/dist/css/bootstrap.min.css"@.len()) =~= "bootstrap/dist/css/bootstrap.min.css"@);
            lemma_literal_contains("node_modules/bootstrap/dist/css/bootstrap.min.css"@, "bootstrap/dist/css/bootstrap.min.css"@, 13);
        },
        AbpTheme::LeptonX => {
            reveal_strlit("node_modules/@volo/ngx-lepton-x.lite/assets/css/bootstrap-dim.css");
            reveal_strlit("ngx-lepton-x");
            reveal_strlit("node_modules/@volo/ngx-lepton-x.lite/assets/css/ng-bundle.css");
            reveal_strlit("node_modules/@volo/ngx-lepton-x.lite/assets/css/side-menu/layout-bundle.css");
            reveal_strlit("node_modules/@abp/ng.theme.lepton-x/assets/css/abp-bundle.css");
            reveal_strlit("ng.theme.lepton-x");
            reveal_strlit("node_modules/@volo/ngx-lepton-x.lite/assets/css/bootstrap-dim.rtl.css");
            reveal_strlit("node_modules/@volo/ngx-lepton-x.lite/assets/css/font-bundle.css");
            reveal_strlit("node_modules/@volo/ngx-lepton-x.lite/assets/css/font-bundle.rtl.css");
            reveal_strlit("node_modules/@volo/ngx-lepton-x.lite/assets/css/ng-bundle.rtl.css");
            reveal_strlit("node_modules/@volo/ngx-lepton-x.lite/assets/css/side-menu/layout-bundle.rtl.css");
            reveal_strlit("node_modules/@abp/ng.theme.lepton-x/assets/css/abp-bundle.rtl.css");
            reveal_strlit("node_modules/bootstrap-icons/font/bootstrap-icons.css");
            reveal_strlit("bootstrap-icons/font/bootstrap-icons.css");
            assert("node_modules/@volo/ngx-lepton-x.lite/assets/css/bootstrap-dim.css"@.subrange(19, 19int + "ngx-lepton-x"@.len()) =~= "ngx-lepton-x"@);
            lemma_literal_contains("node_modules/@volo/ngx-lepton-x.lite/assets/css/bootstrap-dim.css"@, "ngx-lepton-x"@, 19);
            assert("node_modules/@volo/ngx-lepton-x.lite/assets/css/ng-bundle.css"@.subrange(19, 19int + "ngx-lepton-x"@.len()) =~= "ngx-lepton-x"@);
            lemma_literal_contains("node_modules/@volo/ngx-lepton-x.lite/assets/css/ng-bundle.css"@, "ngx-lepton-x"@, 19);
            assert("node_modules/@volo/ngx-lepton-x.lite/assets/css/side-menu/layout-bundle.css"@.subrange(19, 19int + "ngx-lepton-x"@.len()) =~= "ngx-lepton-x"@);
            lemma_literal_contains("node_modules/@volo/ngx-lepton-x.lite/assets/css/side-menu/layout-bundle.css"@, "ngx-lepton-x"@, 19);
            assert("node_modules/@abp/ng.theme.lepton-x/assets/css/abp-bundle.css"@.subrange(18, 18int + "ng.theme.lepton-x"@.len()) =~= "ng.theme.lepton-x"@);
            lemma_literal_contains("node_modules/@abp/ng.theme.lepton-x/assets/css/abp-bundle.css"@, "ng.theme.lepton-x"@, 18);
            assert("node_modules/@volo/ngx-lepton-x.lite/assets/css/bootstrap-dim.rtl.css"@.subrange(19, 19int + "ngx-lepton-x"@.len()) =~= "ngx-lepton-x"@);
            lemma_literal_contains("node_modules/@volo/ngx-lepton-x.lite/assets/css/bootstrap-dim.rtl.css"@, "ngx-lepton-x"@, 19);
            assert("node_modules/@volo/ngx-lepton-x.lite/assets/css/font-bundle.css"@.subrange(19, 19int + "ngx-lepton-x"@.len()) =~= "ngx-lepton-x"@);
            lemma_literal_contains("node_modules/@volo/ngx-lepton-x.lite/assets/css/font-bundle.css"@, "ngx-lepton-x"@, 19);
            assert("node_modules/@volo/ngx-lepton-x.lite/assets/css/font-bundle.rtl.css"@.subrange(19, 19int + "ngx-lepton-x"@.len()) =~= "ngx-lepton-x"@);
            lemma_literal_contains("node_modules/@volo/ngx-lepton-x.lite/assets/css/font-bundle.rtl.css"@, "ngx-lepton-x"@, 19);
            assert("node_modules/@volo/ngx-lepton-x.lite/assets/css/ng-bundle.rtl.css"@.subrange(19, 19int + "ngx-lepton-x"@.len()) =~= "ngx-lepton-x"@);
            lemma_literal_contains("node_modules/@volo/ngx-lepton-x.lite/assets/css/ng-bundle.rtl.css"@, "ngx-lepton-x"@, 19);
            assert("node_modules/@volo/ngx-lepton-x.lite/assets/css/side-menu/layout-bundle.rtl.css"@.subrange(19, 19int + "ngx-lepton-x"@.len()) =~= "ngx-lepton-x"@);
            lemma_literal_contains("node_modules/@volo/ngx-lepton-x.lite/assets/css/side-menu/layout-bundle.rtl.css"@, "ngx-lepton-x"@, 19);
            assert("node_modules/@abp/ng.theme.lepton-x/assets/css/abp-bundle.rtl.css"@.subrange(18, 18int + "ng.theme.lepton-x"@.len()) =~= "ng.theme.lepton-x"@);
            lemma_literal_contains("node_modules/@abp/ng.theme.lepton-x/assets/css/abp-bundle.rtl.css"@, "ng.theme.lepton-x"@, 18);
            assert("node_modules/bootstrap-icons/font/bootstrap-icons.css"@.subrange(13, 13int + "bootstrap-icons/font/bootstrap-icons.css"@.len()) =~= "bootstrap-icons/font/bootstrap-icons.css"@);
            lemma_literal_contains("node_modules/bootstrap-icons/font/bootstrap-icons.css"@, "bootstrap-icons/font/bootstrap-icons.css"@, 13);
        },
    }
}

proof fn lemma_positions_concat(x: Seq<StyleView>, y: Seq<StyleView>, drop: spec_fn(StyleView) -> bool)
    ensures
        kept_positions(x + y, drop) == kept_positions(x, drop) + kept_positions(y, drop).map_values(
            |i: int| i + x.len(),
        ),
    decreases y.len(),
{
    if y.len() == 0 {
        assert(x + y =~= x);
        assert(kept_positions(y, drop).map_values(|i: int| i + x.len()) =~= Seq::<int>::empty());
    } else {
        lemma_positions_concat(x, y.drop_last(), drop);
        assert((x + y).drop_last() =~= x + y.drop_last());
        assert((x + y).last() == y.last());
        let py = kept_positions(y.drop_last(), drop).map_values(|i: int| i + x.len());
        if !drop(y.last()) {
            assert(kept_positions(y, drop).map_values(|i: int| i + x.len()) =~= py.push(
                y.len() - 1 + x.len(),
            ));
        }
    }
}

proof fn lemma_positions_all_kept(x: Seq<StyleView>, drop: spec_fn(StyleView) -> bool)
    requires
        forall|i: int| 0 <= i < x.len() ==> !drop(#[trigger] x[i]),
    ensures
        kept_positions(x, drop) == Seq::new(x.len(), |i: int| i),
    decreases x.len(),
{
    if x.len() > 0 {
        let d = x.drop_last();
        assert forall|i: int| 0 <= i < d.len() implies !drop(#[trigger] d[i]) by {
            assert(d[i] == x[i]);
        }
        lemma_positions_all_kept(d, drop);
        assert(!drop(x[x.len() - 1]));
        assert(Seq::new(d.len(), |i: int| i).push(x.len() - 1) =~= Seq::new(x.len(), |i: int| i));
    }
}

proof fn lemma_positions_all_dropped(x: Seq<StyleView>, drop: spec_fn(StyleView) -> bool)
    requires
        forall|i: int| 0 <= i < x.len() ==> drop(#[trigger] x[i]),
    ensures
        kept_positions(x, drop) == Seq::<int>::empty(),
    decreases x.len(),
{
    if x.len() > 0 {
        let d = x.drop_last();
        assert forall|i: int| 0 <= i < d.len() implies drop(#[trigger] d[i]) by {
            assert(d[i] == x[i]);
        }
        lemma_positions_all_dropped(d, drop);
        assert(drop(x[x.len() - 1]));
    }
}

/// Kept positions are positions of entries that are kept.
proof fn lemma_positions_sound(styles: Seq<StyleView>, drop: spec_fn(StyleView) -> bool)
    ensures
        forall|j: int| 0 <= j < kept_positions(styles, drop).len() ==> 0 <= #[trigger] kept_positions(styles, drop)[j]
            < styles.len() && !drop(styles[kept_positions(styles, drop)[j]]),
    decreases styles.len(),
{
    if styles.len() > 0 {
        let d = styles.drop_last();
        lemma_positions_sound(d, drop);
        assert forall|j: int| 0 <= j < kept_positions(styles, drop).len() implies 0 <= #[trigger] kept_positions(styles, drop)[j]
            < styles.len() && !drop(styles[kept_positions(styles, drop)[j]]) by {
            if j < kept_positions(d, drop).len() {
                assert(kept_positions(styles, drop)[j] == kept_positions(d, drop)[j]);
                assert(styles[kept_positions(d, drop)[j]] == d[kept_positions(d, drop)[j]]);
            }
        }
    }
}

/// Law: switching the `styles` array to theme `a` and then to theme `b`
/// gives the array that switching straight to `b` gives; in particular a
/// second switch to the same theme changes nothing.
pub proof fn lemma_restyle_twice(styles: Seq<StyleView>, a: AbpTheme, b: AbpTheme)
    ensures
        ({
            let m = materialize(styles, restyled_spec(styles, a));
            materialize(m, restyled_spec(m, b)) == materialize(styles, restyled_spec(styles, b))
        }),
{
    let kept = non_theme_positions(styles);
    let p = main_style_at(styles, kept);
    lemma_main_style_at(styles, kept);
    lemma_positions_sound(styles, |v: StyleView| is_theme_style_spec(v));
    let k1 = kept.take(p);
    let k2 = kept.skip(p);
    let ta = theme_styles_spec(a);
    let x1 = k1.map_values(|i: int| styles[i]);
    let x2 = k2.map_values(|i: int| styles[i]);
    let xt = ta.map_values(|t: (Seq<char>, bool, Seq<char>)| theme_entry_view(t));
    let m = materialize(styles, restyled_spec(styles, a));
    assert(m =~= x1 + xt + x2);
    assert forall|i: int| 0 <= i < x1.len() implies !is_theme_style_spec(#[trigger] x1[i]) by {
        assert(x1[i] == styles[kept[i]]);
    }
    assert forall|i: int| 0 <= i < x2.len() implies !is_theme_style_spec(#[trigger] x2[i]) by {
        assert(x2[i] == styles[kept[p + i]]);
    }
    lemma_theme_styles_are_theme(a);
    assert forall|i: int| 0 <= i < xt.len() implies is_theme_style_spec(#[trigger] xt[i]) by {
        assert(xt[i] == theme_entry_view(ta[i]));
    }
    let th = |v: StyleView| is_theme_style_spec(v);
    lemma_positions_all_kept(x1, th);
    lemma_positions_all_kept(x2, th);
    lemma_positions_all_dropped(xt, th);
    lemma_positions_concat(x1, xt, th);
    lemma_positions_concat(x1 + xt, x2, th);
    let off = x1.len() + xt.len();
    let mk = non_theme_positions(m);
    assert(mk =~= Seq::new(x1.len(), |i: int| i) + Seq::new(x2.len(), |i: int| i + off)) by {
        assert(Seq::new(x1.len(), |i: int| i) + Seq::<int>::empty().map_values(|i: int| i + x1.len())
            =~= Seq::new(x1.len(), |i: int| i));
        assert(Seq::new(x2.len(), |i: int| i).map_values(|i: int| i + (x1 + xt).len())
            =~= Seq::new(x2.len(), |i: int| i + off));
    }
    // the main stylesheet keeps its place among the kept entries
    assert forall|j: int| 0 <= j < p implies !is_main_style(#[trigger] m[mk[j]]) by {
        assert(mk[j] == j);
        assert(m[j] == x1[j]);
        assert(x1[j] == styles[kept[j]]);
    }
    if p < kept.len() {
        assert(mk[p] == p + xt.len());
        assert(m[p + xt.len()] == x2[0]);
        assert(x2[0] == styles[kept[p]]);
    }
    lemma_main_style_first(m, mk, p);
    let tb = theme_styles_spec(b);
    let lhs = materialize(m, restyled_spec(m, b));
    let rhs = materialize(styles, restyled_spec(styles, b));
    assert(lhs.len() == rhs.len());
    assert forall|i: int| 0 <= i < lhs.len() implies lhs[i] == rhs[i] by {
        if i < p {
            assert(mk[i] == i);
        } else if i < p + tb.len() {
        } else {
            let j = i - p - tb.len();
            assert(mk[p + j] == p + j + off - x1.len());
            assert(m[p + j + off - x1.len()] == x2[j]);
            assert(x2[j] == styles[kept[p + j]]);
        }
    }
    assert(lhs =~= rhs);
}

/// The main stylesheet stands at the same place among two kept lists that
/// name the same entries.
proof fn lemma_same_main(styles: Seq<StyleView>, kept: Seq<int>, m: Seq<StyleView>, mk: Seq<int>)
    requires
        mk.len() == kept.len(),
        forall|j: int| 0 <= j < kept.len() ==> m[mk[j]] == #[trigger] styles[kept[j]],
    ensures
        main_style_at(m, mk) == main_style_at(styles, kept),
{
    let q = main_style_at(styles, kept);
    lemma_main_style_at(styles, kept);
    assert forall|j: int| 0 <= j < q implies !is_main_style(#[trigger] m[mk[j]]) by {
        assert(m[mk[j]] == styles[kept[j]]);
    }
    if q < kept.len() {
        assert(m[mk[q]] == styles[kept[q]]);
    }
    lemma_main_style_first(m, mk, q);
}

/// Law: setting the Bootstrap override (on or off) after an earlier setting
/// gives the `styles` array that the second setting alone gives; in
/// particular the override stylesheet is never listed twice.
pub proof fn lemma_override_twice(styles: Seq<StyleView>, e1: bool, e2: bool)
    ensures
        ({
            let m = materialize(styles, override_restyled_spec(styles, e1));
            materialize(m, override_restyled_spec(m, e2)) == materialize(styles, override_restyled_spec(styles, e2))
        }),
{
    let ov = |v: StyleView| is_override_style(v);
    let kept = non_override_positions(styles);
    let q = main_style_at(styles, kept);
    lemma_main_style_at(styles, kept);
    lemma_positions_sound(styles, ov);
    let at = if q < kept.len() { q + 1 } else { kept.len() as int };
    let m = materialize(styles, override_restyled_spec(styles, e1));
    let mk = non_override_positions(m);
    let o = StyleView { text: Some(override_style()), input: None };
    if e1 {
        let x1 = kept.take(at).map_values(|i: int| styles[i]);
        let x2 = kept.skip(at).map_values(|i: int| styles[i]);
        assert(m =~= x1 + seq![o] + x2);
        assert forall|i: int| 0 <= i < x1.len() implies !ov(#[trigger] x1[i]) by {
            assert(x1[i] == styles[kept[i]]);
        }
        assert forall|i: int| 0 <= i < x2.len() implies !ov(#[trigger] x2[i]) by {
            assert(x2[i] == styles[kept[at + i]]);
        }
        assert(ov(seq![o][0]));
        lemma_positions_all_kept(x1, ov);
        lemma_positions_all_kept(x2, ov);
        lemma_positions_all_dropped(seq![o], ov);
        lemma_positions_concat(x1, seq![o], ov);
        lemma_positions_concat(x1 + seq![o], x2, ov);
        assert(mk =~= Seq::new(x1.len(), |i: int| i) + Seq::new(x2.len(), |i: int| i + x1.len() + 1)) by {
            assert(Seq::new(x1.len(), |i: int| i) + Seq::<int>::empty().map_values(|i: int| i + x1.len())
                =~= Seq::new(x1.len(), |i: int| i));
            assert(Seq::new(x2.len(), |i: int| i).map_values(|i: int| i + (x1 + seq![o]).len())
                =~= Seq::new(x2.len(), |i: int| i + x1.len() + 1));
        }
        assert forall|j: int| 0 <= j < kept.len() implies m[mk[j]] == #[trigger] styles[kept[j]] by {
            if j < at {
                assert(mk[j] == j);
                assert(m[j] == x1[j]);
            } else {
                assert(mk[j] == j + 1);
                assert(m[j + 1] == x2[j - at]);
            }
        }
    } else {
        let x = kept.map_values(|i: int| styles[i]);
        assert(m =~= x);
        assert forall|i: int| 0 <= i < x.len() implies !ov(#[trigger] x[i]) by {
            assert(x[i] == styles[kept[i]]);
        }
        lemma_positions_all_kept(x, ov);
        assert forall|j: int| 0 <= j < kept.len() implies m[mk[j]] == #[trigger] styles[kept[j]] by {
            assert(mk[j] == j);
        }
    }
    lemma_same_main(styles, kept, m, mk);
    let lhs = materialize(m, override_restyled_spec(m, e2));
    let rhs = materialize(styles, override_restyled_spec(styles, e2));
    assert(lhs.len() == rhs.len());
    assert forall|i: int| 0 <= i < lhs.len() implies lhs[i] == rhs[i] by {
        if e2 {
            if i < at {
                assert(m[mk[i]] == styles[kept[i]]);
            } else if i > at {
                assert(m[mk[i - 1]] == styles[kept[i - 1]]);
            }
        } else {
            assert(m[mk[i]] == styles[kept[i]]);
        }
    }
    assert(lhs =~= rhs);
}

} // verus!
