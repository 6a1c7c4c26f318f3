//! The React Native screens' fragments for an entity's fields: form
//! inputs, validation, lookups of navigation targets and list lines.
use crate::fragments::backend::search_field;
use crate::models::{Field, FieldV, fields_view};
use crate::naming::{kebab, last_segment, last_segment_spec, lower_camel, to_kebab, to_lower_camel, to_upper_camel, upper_camel};
use crate::text::{contains, copy_str, eq_ignore_case, lower, push_str, str_contains, str_eq, trim, trim_end, trim_end_exec, trim_exec};
use vstd::prelude::*;

verus! {

broadcast use vstd::string::group_string_axioms;

pub open spec fn m_initial_bool_spec(field: Seq<char>, el: Seq<char>) -> Seq<char> {
    "      "@ + field + ": "@ + el + "?."@ + field + " ?? false,\n"@
}

fn m_initial_bool(field: &str, el: &str) -> (r: String)
    ensures
        r@ == m_initial_bool_spec(field@, el@),
{
    let mut r = String::new();
    push_str(&mut r, "      ");
    push_str(&mut r, field);
    push_str(&mut r, ": ");
    push_str(&mut r, el);
    push_str(&mut r, "?.");
    push_str(&mut r, field);
    push_str(&mut r, " ?? false,\n");
    r
}

pub open spec fn m_validation_spec(field: Seq<char>, rule: Seq<char>) -> Seq<char> {
    "  "@ + field + ": "@ + rule + ",\n"@
}

fn m_validation(field: &str, rule: &str) -> (r: String)
    ensures
        r@ == m_validation_spec(field@, rule@),
{
    let mut r = String::new();
    push_str(&mut r, "  ");
    push_str(&mut r, field);
    push_str(&mut r, ": ");
    push_str(&mut r, rule);
    push_str(&mut r, ",\n");
    r
}

pub open spec fn m_lookup_export_spec(lf: Seq<char>, endpoint: Seq<char>) -> Seq<char> {
    "export const "@ + lf + " = (filter, maxResultCount = 100, skipCount = 0) =>\n  api\n    .get('/"@ + endpoint + "', {\n      params: {\n        filter,\n        maxResultCount,\n        skipCount,\n      },\n    })\n    .then(({ data }) => data);\n\n"@
}

fn m_lookup_export(lf: &str, endpoint: &str) -> (r: String)
    ensures
        r@ == m_lookup_export_spec(lf@, endpoint@),
{
    let mut r = String::new();
    push_str(&mut r, "export const ");
    push_str(&mut r, lf);
    push_str(&mut r, " = (filter, maxResultCount = 100, skipCount = 0) =>\n  api\n    .get('/");
    push_str(&mut r, endpoint);
    push_str(&mut r, "', {\n      params: {\n        filter,\n        maxResultCount,\n        skipCount,\n      },\n    })\n    .then(({ data }) => data);\n\n");
    r
}

pub open spec fn m_import_line_spec(lf: Seq<char>, entity: Seq<char>) -> Seq<char> {
    "import { "@ + lf + " } from '../../../api/"@ + entity + "API';\n"@
}

fn m_import_line(lf: &str, entity: &str) -> (r: String)
    ensures
        r@ == m_import_line_spec(lf@, entity@),
{
    let mut r = String::new();
    push_str(&mut r, "import { ");
    push_str(&mut r, lf);
    push_str(&mut r, " } from '../../../api/");
    push_str(&mut r, entity);
    push_str(&mut r, "API';\n");
    r
}

pub open spec fn m_state_line_spec(var: Seq<char>, ns: Seq<char>) -> Seq<char> {
    "  const ["@ + var + "Options, set"@ + ns + "Options] = useState([]);\n"@
}

fn m_state_line(var: &str, ns: &str) -> (r: String)
    ensures
        r@ == m_state_line_spec(var@, ns@),
{
    let mut r = String::new();
    push_str(&mut r, "  const [");
    push_str(&mut r, var);
    push_str(&mut r, "Options, set");
    push_str(&mut r, ns);
    push_str(&mut r, "Options] = useState([]);\n");
    r
}

pub open spec fn m_loader_spec(lfn: Seq<char>, lf: Seq<char>, ns: Seq<char>) -> Seq<char> {
    "  const "@ + lfn + " = () =>\n    "@ + lf + "().then(({ items } = {}) => set"@ + ns + "Options(items || []));\n\n"@
}

fn m_loader(lfn: &str, lf: &str, ns: &str) -> (r: String)
    ensures
        r@ == m_loader_spec(lfn@, lf@, ns@),
{
    let mut r = String::new();
    push_str(&mut r, "  const ");
    push_str(&mut r, lfn);
    push_str(&mut r, " = () =>\n    ");
    push_str(&mut r, lf);
    push_str(&mut r, "().then(({ items } = {}) => set");
    push_str(&mut r, ns);
    push_str(&mut r, "Options(items || []));\n\n");
    r
}

pub open spec fn m_effect_spec(lfn: Seq<char>) -> Seq<char> {
    "  useEffect(() => {\n    "@ + lfn + "();\n  }, []);\n\n"@
}

fn m_effect(lfn: &str) -> (r: String)
    ensures
        r@ == m_effect_spec(lfn@),
{
    let mut r = String::new();
    push_str(&mut r, "  useEffect(() => {\n    ");
    push_str(&mut r, lfn);
    push_str(&mut r, "();\n  }, []);\n\n");
    r
}

pub open spec fn m_call_line_spec(lfn: Seq<char>) -> Seq<char> {
    "      "@ + lfn + "(),\n"@
}

fn m_call_line(lfn: &str) -> (r: String)
    ensures
        r@ == m_call_line_spec(lfn@),
{
    let mut r = String::new();
    push_str(&mut r, "      ");
    push_str(&mut r, lfn);
    push_str(&mut r, "(),\n");
    r
}

pub open spec fn m_screen_prop_spec(var: Seq<char>) -> Seq<char> {
    "      "@ + var + "Options={"@ + var + "Options}\n"@
}

fn m_screen_prop(var: &str) -> (r: String)
    ensures
        r@ == m_screen_prop_spec(var@),
{
    let mut r = String::new();
    push_str(&mut r, "      ");
    push_str(&mut r, var);
    push_str(&mut r, "Options={");
    push_str(&mut r, var);
    push_str(&mut r, "Options}\n");
    r
}

pub open spec fn m_form_prop_spec(var: Seq<char>) -> Seq<char> {
    "  "@ + var + "Options: [];\n"@
}

fn m_form_prop(var: &str) -> (r: String)
    ensures
        r@ == m_form_prop_spec(var@),
{
    let mut r = String::new();
    push_str(&mut r, "  ");
    push_str(&mut r, var);
    push_str(&mut r, "Options: [];\n");
    r
}

pub open spec fn m_prop_type_spec(var: Seq<char>) -> Seq<char> {
    "  "@ + var + "Options: PropTypes.array,\n"@
}

fn m_prop_type(var: &str) -> (r: String)
    ensures
        r@ == m_prop_type_spec(var@),
{
    let mut r = String::new();
    push_str(&mut r, "  ");
    push_str(&mut r, var);
    push_str(&mut r, "Options: PropTypes.array,\n");
    r
}

pub open spec fn m_combo_input_spec(rp: Seq<char>, field: Seq<char>, ds: Seq<char>, entity: Seq<char>, name: Seq<char>, var: Seq<char>) -> Seq<char> {
    "            <FormControl"@ + rp + " isInvalid={isInvalidControl('"@ + field + "')}>\n              <FormControlLabel>\n                <FormControlLabelText>{i18n.t('"@ + ds + "::"@ + entity + ":"@ + name + "')}</FormControlLabelText>\n              </FormControlLabel>\n              <ComboBox\n                value={form.values."@ + field + " || ''}\n                onValueChange={(val) => form.setFieldValue('"@ + field + "', val, true)}\n                placeholder={i18n.t('AbpUi::Select')}\n                options={"@ + var + "Options.map((opt) => ({ label: opt.displayName, value: opt.id }))}\n              />\n              {isInvalidControl('"@ + field + "') && (\n                <ValidationMessage>{form.errors."@ + field + "}</ValidationMessage>\n              )}\n            </FormControl>\n\n"@
}

fn m_combo_input(rp: &str, field: &str, ds: &str, entity: &str, name: &str, var: &str) -> (r: String)
    ensures
        r@ == m_combo_input_spec(rp@, field@, ds@, entity@, name@, var@),
{
    let mut r = String::new();
    push_str(&mut r, "            <FormControl");
    push_str(&mut r, rp);
    push_str(&mut r, " isInvalid={isInvalidControl('");
    push_str(&mut r, field);
    push_str(&mut r, "')}>\n              <FormControlLabel>\n                <FormControlLabelText>{i18n.t('");
    push_str(&mut r, ds);
    push_str(&mut r, "::");
    push_str(&mut r, entity);
    push_str(&mut r, ":");
    push_str(&mut r, name);
    push_str(&mut r, "')}</FormControlLabelText>\n              </FormControlLabel>\n              <ComboBox\n                value={form.values.");
    push_str(&mut r, field);
    push_str(&mut r, " || ''}\n                onValueChange={(val) => form.setFieldValue('");
    push_str(&mut r, field);
    push_str(&mut r, "', val, true)}\n                placeholder={i18n.t('AbpUi::Select')}\n                options={");
    push_str(&mut r, var);
    push_str(&mut r, "Options.map((opt) => ({ label: opt.displayName, value: opt.id }))}\n              />\n              {isInvalidControl('");
    push_str(&mut r, field);
    push_str(&mut r, "') && (\n                <ValidationMessage>{form.errors.");
    push_str(&mut r, field);
    push_str(&mut r, "}</ValidationMessage>\n              )}\n            </FormControl>\n\n");
    r
}

pub open spec fn m_picker_state_spec(field: Seq<char>, fu: Seq<char>) -> Seq<char> {
    "  const ["@ + field + "PickerVisible, set"@ + fu + "PickerVisible] = useState(false);\n"@
}

fn m_picker_state(field: &str, fu: &str) -> (r: String)
    ensures
        r@ == m_picker_state_spec(field@, fu@),
{
    let mut r = String::new();
    push_str(&mut r, "  const [");
    push_str(&mut r, field);
    push_str(&mut r, "PickerVisible, set");
    push_str(&mut r, fu);
    push_str(&mut r, "PickerVisible] = useState(false);\n");
    r
}

pub open spec fn m_picker_modal_spec(field: Seq<char>, fu: Seq<char>) -> Seq<char> {
    "      {"@ + field + "PickerVisible && (\n        <DateTimePicker\n          value={form.values."@ + field + " ? new Date(form.values."@ + field + ") : new Date()}\n          mode=\"date\"\n          is24Hour={true}\n          onChange={(event, selectedDate) => {\n            set"@ + fu + "PickerVisible(false);\n            if (event && event.type === 'dismissed') {\n              return;\n            }\n            if (selectedDate) {\n              form.setFieldValue('"@ + field + "', selectedDate.toISOString(), true);\n            }\n          }}\n        />\n      )}\n"@
}

fn m_picker_modal(field: &str, fu: &str) -> (r: String)
    ensures
        r@ == m_picker_modal_spec(field@, fu@),
{
    let mut r = String::new();
    push_str(&mut r, "      {");
    push_str(&mut r, field);
    push_str(&mut r, "PickerVisible && (\n        <DateTimePicker\n          value={form.values.");
    push_str(&mut r, field);
    push_str(&mut r, " ? new Date(form.values.");
    push_str(&mut r, field);
    push_str(&mut r, ") : new Date()}\n          mode=\"date\"\n          is24Hour={true}\n          onChange={(event, selectedDate) => {\n            set");
    push_str(&mut r, fu);
    push_str(&mut r, "PickerVisible(false);\n            if (event && event.type === 'dismissed') {\n              return;\n            }\n            if (selectedDate) {\n              form.setFieldValue('");
    push_str(&mut r, field);
    push_str(&mut r, "', selectedDate.toISOString(), true);\n            }\n          }}\n        />\n      )}\n");
    r
}

pub open spec fn m_date_input_spec(rp: Seq<char>, field: Seq<char>, ds: Seq<char>, entity: Seq<char>, name: Seq<char>, fu: Seq<char>) -> Seq<char> {
    "            <FormControl"@ + rp + " isInvalid={isInvalidControl('"@ + field + "')}>\n              <FormControlLabel>\n                <FormControlLabelText>{i18n.t('"@ + ds + "::"@ + entity + ":"@ + name + "')}</FormControlLabelText>\n              </FormControlLabel>\n              <Input\n                bg={inputBg}\n                borderWidth={1}\n                borderColor={inputBorder}\n                borderRadius=\"$lg\"\n                _dark={{ bg: inputBgDark, borderColor: inputBorderDark }}\n              >\n                <InputField\n                  value={form.values."@ + field + " ? new Date(form.values."@ + field + ").toLocaleDateString() : ''}\n                  editable={false}\n                  placeholder={i18n.t('AbpUi::Select')}\n                />\n                <InputSlot pr=\"$3\" onPress={() => set"@ + fu + "PickerVisible(true)}>\n                  <Icon as={Ionicons} name=\"calendar-outline\" size=\"md\" color=\"$secondary500\" _dark={{ color: '$textDarkMuted' }} />\n                </InputSlot>\n              </Input>\n              {isInvalidControl('"@ + field + "') && (\n                <ValidationMessage>{form.errors."@ + field + "}</ValidationMessage>\n              )}\n            </FormControl>\n\n"@
}

fn m_date_input(rp: &str, field: &str, ds: &str, entity: &str, name: &str, fu: &str) -> (r: String)
    ensures
        r@ == m_date_input_spec(rp@, field@, ds@, entity@, name@, fu@),
{
    let mut r = String::new();
    push_str(&mut r, "            <FormControl");
    push_str(&mut r, rp);
    push_str(&mut r, " isInvalid={isInvalidControl('");
    push_str(&mut r, field);
    push_str(&mut r, "')}>\n              <FormControlLabel>\n                <FormControlLabelText>{i18n.t('");
    push_str(&mut r, ds);
    push_str(&mut r, "::");
    push_str(&mut r, entity);
    push_str(&mut r, ":");
    push_str(&mut r, name);
    push_str(&mut r, "')}</FormControlLabelText>\n              </FormControlLabel>\n              <Input\n                bg={inputBg}\n                borderWidth={1}\n                borderColor={inputBorder}\n                borderRadius=\"$lg\"\n                _dark={{ bg: inputBgDark, borderColor: inputBorderDark }}\n              >\n                <InputField\n                  value={form.values.");
    push_str(&mut r, field);
    push_str(&mut r, " ? new Date(form.values.");
    push_str(&mut r, field);
    push_str(&mut r, ").toLocaleDateString() : ''}\n                  editable={false}\n                  placeholder={i18n.t('AbpUi::Select')}\n                />\n                <InputSlot pr=\"$3\" onPress={() => set");
    push_str(&mut r, fu);
    push_str(&mut r, "PickerVisible(true)}>\n                  <Icon as={Ionicons} name=\"calendar-outline\" size=\"md\" color=\"$secondary500\" _dark={{ color: '$textDarkMuted' }} />\n                </InputSlot>\n              </Input>\n              {isInvalidControl('");
    push_str(&mut r, field);
    push_str(&mut r, "') && (\n                <ValidationMessage>{form.errors.");
    push_str(&mut r, field);
    push_str(&mut r, "}</ValidationMessage>\n              )}\n            </FormControl>\n\n");
    r
}

pub open spec fn m_textarea_input_spec(rp: Seq<char>, field: Seq<char>, ds: Seq<char>, entity: Seq<char>, name: Seq<char>) -> Seq<char> {
    "            <FormControl"@ + rp + " isInvalid={isInvalidControl('"@ + field + "')}>\n              <FormControlLabel>\n                <FormControlLabelText>{i18n.t('"@ + ds + "::"@ + entity + ":"@ + name + "')}</FormControlLabelText>\n              </FormControlLabel>\n              <Box\n                borderWidth={1}\n                borderColor={inputBorder}\n                borderRadius=\"$lg\"\n                bg={inputBg}\n                px=\"$3\"\n                py=\"$3\"\n                _dark={{ bg: inputBgDark, borderColor: inputBorderDark }}\n              >\n                <TextInput\n                  onChangeText={form.handleChange('"@ + field + "')}\n                  onBlur={form.handleBlur('"@ + field + "')}\n                  value={form.values."@ + field + "}\n                  autoCapitalize=\"none\"\n                  keyboardType=\"default\"\n                  multiline\n                  placeholder=\"\"\n                  style={styles.textAreaInput}\n                />\n              </Box>\n              {isInvalidControl('"@ + field + "') && (\n                <ValidationMessage>{form.errors."@ + field + "}</ValidationMessage>\n              )}\n            </FormControl>\n\n"@
}

fn m_textarea_input(rp: &str, field: &str, ds: &str, entity: &str, name: &str) -> (r: String)
    ensures
        r@ == m_textarea_input_spec(rp@, field@, ds@, entity@, name@),
{
    let mut r = String::new();
    push_str(&mut r, "            <FormControl");
    push_str(&mut r, rp);
    push_str(&mut r, " isInvalid={isInvalidControl('");
    push_str(&mut r, field);
    push_str(&mut r, "')}>\n              <FormControlLabel>\n                <FormControlLabelText>{i18n.t('");
    push_str(&mut r, ds);
    push_str(&mut r, "::");
    push_str(&mut r, entity);
    push_str(&mut r, ":");
    push_str(&mut r, name);
    push_str(&mut r, "')}</FormControlLabelText>\n              </FormControlLabel>\n              <Box\n                borderWidth={1}\n                borderColor={inputBorder}\n                borderRadius=\"$lg\"\n                bg={inputBg}\n                px=\"$3\"\n                py=\"$3\"\n                _dark={{ bg: inputBgDark, borderColor: inputBorderDark }}\n              >\n                <TextInput\n                  onChangeText={form.handleChange('");
    push_str(&mut r, field);
    push_str(&mut r, "')}\n                  onBlur={form.handleBlur('");
    push_str(&mut r, field);
    push_str(&mut r, "')}\n                  value={form.values.");
    push_str(&mut r, field);
    push_str(&mut r, "}\n                  autoCapitalize=\"none\"\n                  keyboardType=\"default\"\n                  multiline\n                  placeholder=\"\"\n                  style={styles.textAreaInput}\n                />\n              </Box>\n              {isInvalidControl('");
    push_str(&mut r, field);
    push_str(&mut r, "') && (\n                <ValidationMessage>{form.errors.");
    push_str(&mut r, field);
    push_str(&mut r, "}</ValidationMessage>\n              )}\n            </FormControl>\n\n");
    r
}

pub open spec fn m_checkbox_input_spec(field: Seq<char>, ds: Seq<char>, entity: Seq<char>, name: Seq<char>) -> Seq<char> {
    "            <FormControl isInvalid={isInvalidControl('"@ + field + "')} my=\"$2\">\n              <Checkbox\n                value=\""@ + field + "\"\n                isChecked={!!form.values."@ + field + "}\n                onChange={(value) => form.setFieldValue('"@ + field + "', value, true)}\n              >\n                <CheckboxIndicator>\n                  <CheckboxIcon as={CheckIcon} />\n                </CheckboxIndicator>\n                <CheckboxLabel> {i18n.t('"@ + ds + "::"@ + entity + ":"@ + name + "')} </CheckboxLabel>\n              </Checkbox>\n              {isInvalidControl('"@ + field + "') && (\n                <ValidationMessage>{form.errors."@ + field + "}</ValidationMessage>\n              )}\n            </FormControl>\n\n"@
}

fn m_checkbox_input(field: &str, ds: &str, entity: &str, name: &str) -> (r: String)
    ensures
        r@ == m_checkbox_input_spec(field@, ds@, entity@, name@),
{
    let mut r = String::new();
    push_str(&mut r, "            <FormControl isInvalid={isInvalidControl('");
    push_str(&mut r, field);
    push_str(&mut r, "')} my=\"$2\">\n              <Checkbox\n                value=\"");
    push_str(&mut r, field);
    push_str(&mut r, "\"\n                isChecked={!!form.values.");
    push_str(&mut r, field);
    push_str(&mut r, "}\n                onChange={(value) => form.setFieldValue('");
    push_str(&mut r, field);
    push_str(&mut r, "', value, true)}\n              >\n                <CheckboxIndicator>\n                  <CheckboxIcon as={CheckIcon} />\n                </CheckboxIndicator>\n                <CheckboxLabel> {i18n.t('");
    push_str(&mut r, ds);
    push_str(&mut r, "::");
    push_str(&mut r, entity);
    push_str(&mut r, ":");
    push_str(&mut r, name);
    push_str(&mut r, "')} </CheckboxLabel>\n              </Checkbox>\n              {isInvalidControl('");
    push_str(&mut r, field);
    push_str(&mut r, "') && (\n                <ValidationMessage>{form.errors.");
    push_str(&mut r, field);
    push_str(&mut r, "}</ValidationMessage>\n              )}\n            </FormControl>\n\n");
    r
}

pub open spec fn m_plain_input_spec(rp: Seq<char>, field: Seq<char>, ds: Seq<char>, entity: Seq<char>, name: Seq<char>, kb: Seq<char>) -> Seq<char> {
    "            <FormControl"@ + rp + " isInvalid={isInvalidControl('"@ + field + "')}>\n              <FormControlLabel>\n                <FormControlLabelText>{i18n.t('"@ + ds + "::"@ + entity + ":"@ + name + "')}</FormControlLabelText>\n              </FormControlLabel>\n              <Input\n                bg={inputBg}\n                borderWidth={1}\n                borderColor={inputBorder}\n                borderRadius=\"$lg\"\n                _dark={{ bg: inputBgDark, borderColor: inputBorderDark }}\n              >\n                <InputField\n                  onChangeText={form.handleChange('"@ + field + "')}\n                  onBlur={form.handleBlur('"@ + field + "')}\n                  value={form.values."@ + field + "}\n                  autoCapitalize=\"none\"\n                  keyboardType=\""@ + kb + "\"\n                />\n              </Input>\n              {isInvalidControl('"@ + field + "') && (\n                <ValidationMessage>{form.errors."@ + field + "}</ValidationMessage>\n              )}\n            </FormControl>\n\n"@
}

fn m_plain_input(rp: &str, field: &str, ds: &str, entity: &str, name: &str, kb: &str) -> (r: String)
    ensures
        r@ == m_plain_input_spec(rp@, field@, ds@, entity@, name@, kb@),
{
    let mut r = String::new();
    push_str(&mut r, "            <FormControl");
    push_str(&mut r, rp);
    push_str(&mut r, " isInvalid={isInvalidControl('");
    push_str(&mut r, field);
    push_str(&mut r, "')}>\n              <FormControlLabel>\n                <FormControlLabelText>{i18n.t('");
    push_str(&mut r, ds);
    push_str(&mut r, "::");
    push_str(&mut r, entity);
    push_str(&mut r, ":");
    push_str(&mut r, name);
    push_str(&mut r, "')}</FormControlLabelText>\n              </FormControlLabel>\n              <Input\n                bg={inputBg}\n                borderWidth={1}\n                borderColor={inputBorder}\n                borderRadius=\"$lg\"\n                _dark={{ bg: inputBgDark, borderColor: inputBorderDark }}\n              >\n                <InputField\n                  onChangeText={form.handleChange('");
    push_str(&mut r, field);
    push_str(&mut r, "')}\n                  onBlur={form.handleBlur('");
    push_str(&mut r, field);
    push_str(&mut r, "')}\n                  value={form.values.");
    push_str(&mut r, field);
    push_str(&mut r, "}\n                  autoCapitalize=\"none\"\n                  keyboardType=\"");
    push_str(&mut r, kb);
    push_str(&mut r, "\"\n                />\n              </Input>\n              {isInvalidControl('");
    push_str(&mut r, field);
    push_str(&mut r, "') && (\n                <ValidationMessage>{form.errors.");
    push_str(&mut r, field);
    push_str(&mut r, "}</ValidationMessage>\n              )}\n            </FormControl>\n\n");
    r
}

pub open spec fn m_list_line_spec(ds: Seq<char>, entity: Seq<char>, name: Seq<char>, val: Seq<char>) -> Seq<char> {
    "                  <Text color=\"$secondary500\">{t('"@ + ds + "::"@ + entity + ":"@ + name + "')}: { "@ + val + " }</Text>\n"@
}

fn m_list_line(ds: &str, entity: &str, name: &str, val: &str) -> (r: String)
    ensures
        r@ == m_list_line_spec(ds@, entity@, name@, val@),
{
    let mut r = String::new();
    push_str(&mut r, "                  <Text color=\"$secondary500\">{t('");
    push_str(&mut r, ds);
    push_str(&mut r, "::");
    push_str(&mut r, entity);
    push_str(&mut r, ":");
    push_str(&mut r, name);
    push_str(&mut r, "')}: { ");
    push_str(&mut r, val);
    push_str(&mut r, " }</Text>\n");
    r
}

pub open spec fn m_value_bool_spec(base: Seq<char>, field: Seq<char>) -> Seq<char> {
    base + "."@ + field + " ? t('AbpUi::Yes') : t('AbpUi::No')"@
}

fn m_value_bool(base: &str, field: &str) -> (r: String)
    ensures
        r@ == m_value_bool_spec(base@, field@),
{
    let mut r = String::new();
    push_str(&mut r, base);
    push_str(&mut r, ".");
    push_str(&mut r, field);
    push_str(&mut r, " ? t('AbpUi::Yes') : t('AbpUi::No')");
    r
}

pub open spec fn m_value_date_spec(base: Seq<char>, field: Seq<char>) -> Seq<char> {
    base + "."@ + field + " ? new Date("@ + base + "."@ + field + ").toLocaleDateString() : ''"@
}

fn m_value_date(base: &str, field: &str) -> (r: String)
    ensures
        r@ == m_value_date_spec(base@, field@),
{
    let mut r = String::new();
    push_str(&mut r, base);
    push_str(&mut r, ".");
    push_str(&mut r, field);
    push_str(&mut r, " ? new Date(");
    push_str(&mut r, base);
    push_str(&mut r, ".");
    push_str(&mut r, field);
    push_str(&mut r, ").toLocaleDateString() : ''");
    r
}

pub open spec fn m_value_number_spec(base: Seq<char>, field: Seq<char>) -> Seq<char> {
    base + "."@ + field + " ?? ''"@
}

fn m_value_number(base: &str, field: &str) -> (r: String)
    ensures
        r@ == m_value_number_spec(base@, field@),
{
    let mut r = String::new();
    push_str(&mut r, base);
    push_str(&mut r, ".");
    push_str(&mut r, field);
    push_str(&mut r, " ?? ''");
    r
}

pub open spec fn m_value_other_spec(base: Seq<char>, field: Seq<char>) -> Seq<char> {
    base + "."@ + field + " || ''"@
}

fn m_value_other(base: &str, field: &str) -> (r: String)
    ensures
        r@ == m_value_other_spec(base@, field@),
{
    let mut r = String::new();
    push_str(&mut r, base);
    push_str(&mut r, ".");
    push_str(&mut r, field);
    push_str(&mut r, " || ''");
    r
}

pub open spec fn m_value_nav_spec(ns: Seq<char>, field: Seq<char>) -> Seq<char> {
    "item."@ + ns + "?.name || entityItem."@ + field + " || ''"@
}

fn m_value_nav(ns: &str, field: &str) -> (r: String)
    ensures
        r@ == m_value_nav_spec(ns@, field@),
{
    let mut r = String::new();
    push_str(&mut r, "item.");
    push_str(&mut r, ns);
    push_str(&mut r, "?.name || entityItem.");
    push_str(&mut r, field);
    push_str(&mut r, " || ''");
    r
}

pub open spec fn m_initial_spread_spec(el: Seq<char>) -> Seq<char> {
    "      ..."@ + el + ",\n"@
}

fn m_initial_spread(el: &str) -> (r: String)
    ensures
        r@ == m_initial_spread_spec(el@),
{
    let mut r = String::new();
    push_str(&mut r, "      ...");
    push_str(&mut r, el);
    push_str(&mut r, ",\n");
    r
}

/* ------------------------------ FIELD FACTS ------------------------------ */

pub open spec fn is_ci(t: Seq<char>, w: Seq<char>) -> bool {
    lower(t) == lower(w)
}

/// Fields that get a form input: shown or navigating, and not `Id` or the
/// concurrency stamp.
pub open spec fn m_included(f: FieldV) -> bool {
    &&& (f.show_in_ui || f.navigation is Some)
    &&& !is_ci(f.name, "id"@)
    &&& !is_ci(f.name, "concurrencyStamp"@)
}

pub open spec fn m_bool(f: FieldV) -> bool {
    is_ci(f.ftype, "bool"@)
}

pub open spec fn m_numeric(f: FieldV) -> bool {
    is_ci(f.ftype, "int"@) || is_ci(f.ftype, "long"@) || is_ci(f.ftype, "decimal"@)
}

pub open spec fn m_datetime(f: FieldV) -> bool {
    is_ci(f.ftype, "datetime"@) || is_ci(f.ftype, "dateonly"@) || is_ci(f.ftype, "timeonly"@)
}

pub open spec fn m_textarea(f: FieldV) -> bool {
    is_ci(f.ftype, "textarea"@)
}

pub open spec fn m_nav(f: FieldV) -> bool {
    f.navigation is Some && is_ci(f.ftype, "guid"@)
}

pub open spec fn m_ns(f: FieldV) -> Seq<char> {
    match f.navigation {
        Some(n) => last_segment_spec(n),
        None => Seq::empty(),
    }
}

pub open spec fn m_field(f: FieldV) -> Seq<char> {
    lower_camel(f.name)
}

pub open spec fn m_rule(f: FieldV) -> Seq<char> {
    (if m_bool(f) {
        "Yup.boolean()"@
    } else if m_numeric(f) {
        "Yup.number()"@
    } else {
        "Yup.string()"@
    }) + if f.required {
        ".required('AbpValidation::ThisFieldIsRequired.')"@
    } else {
        ".nullable()"@
    }
}

pub open spec fn m_required_prop(f: FieldV) -> Seq<char> {
    if f.required {
        " isRequired"@
    } else {
        Seq::empty()
    }
}

/// The form input of an included field.
pub open spec fn m_input(ds: Seq<char>, entity: Seq<char>, f: FieldV) -> Seq<char> {
    let field = m_field(f);
    let rp = m_required_prop(f);
    if m_nav(f) {
        m_combo_input_spec(rp, field, ds, entity, f.name, lower_camel(m_ns(f)))
    } else if m_datetime(f) {
        m_date_input_spec(rp, field, ds, entity, f.name, upper_camel(field))
    } else if m_textarea(f) {
        m_textarea_input_spec(rp, field, ds, entity, f.name)
    } else if m_bool(f) {
        m_checkbox_input_spec(field, ds, entity, f.name)
    } else {
        m_plain_input_spec(
            rp,
            field,
            ds,
            entity,
            f.name,
            if m_numeric(f) {
                "numeric"@
            } else {
                "default"@
            },
        )
    }
}

/// How a list line shows a field's value.
pub open spec fn m_value(f: FieldV) -> Seq<char> {
    let field = m_field(f);
    let t = lower(f.ftype);
    match f.navigation {
        Some(n) => m_value_nav_spec(lower_camel(last_segment_spec(n)), field),
        None => if t == "bool"@ {
            m_value_bool_spec("entityItem"@, field)
        } else if t == "datetime"@ || t == "dateonly"@ || t == "timeonly"@ {
            m_value_date_spec("entityItem"@, field)
        } else if t == "int"@ || t == "long"@ || t == "decimal"@ {
            m_value_number_spec("entityItem"@, field)
        } else {
            m_value_other_spec("entityItem"@, field)
        },
    }
}

/// The title field's variable name: the search field, or `id`.
pub open spec fn m_title_lower(fs: Seq<FieldV>) -> Seq<char> {
    match search_field(fs) {
        Some(t) => if is_ci(t, "id"@) {
            "id"@
        } else {
            lower_camel(t)
        },
        None => "id"@,
    }
}

pub enum MobilePart {
    InitialValues,
    Validations,
    Inputs,
    FormState,
    FormModals,
    ListFields,
}

pub open spec fn mobile_part(
    ds: Seq<char>,
    entity: Seq<char>,
    title: Seq<char>,
    f: FieldV,
    p: MobilePart,
) -> Seq<char> {
    let field = m_field(f);
    if !m_included(f) {
        Seq::empty()
    } else {
        match p {
            MobilePart::InitialValues => if m_bool(f) {
                m_initial_bool_spec(field, lower_camel(entity))
            } else {
                Seq::empty()
            },
            MobilePart::Validations => m_validation_spec(field, m_rule(f)),
            MobilePart::Inputs => m_input(ds, entity, f),
            MobilePart::FormState => if !m_nav(f) && m_datetime(f) {
                m_picker_state_spec(field, upper_camel(field))
            } else {
                Seq::empty()
            },
            MobilePart::FormModals => if !m_nav(f) && m_datetime(f) {
                m_picker_modal_spec(field, upper_camel(field))
            } else {
                Seq::empty()
            },
            MobilePart::ListFields => if f.show_in_ui && field != title {
                m_list_line_spec(ds, entity, f.name, m_value(f))
            } else {
                Seq::empty()
            },
        }
    }
}

#[verifier::opaque]
pub open spec fn mobile_gather(
    ds: Seq<char>,
    entity: Seq<char>,
    title: Seq<char>,
    fs: Seq<FieldV>,
    p: MobilePart,
) -> Seq<char>
    decreases fs.len(),
{
    if fs.len() == 0 {
        Seq::empty()
    } else {
        mobile_gather(ds, entity, title, fs.drop_last(), p) + mobile_part(ds, entity, title, fs.last(), p)
    }
}

/// The texts that navigation fields extend, each piece added only where
/// the text does not already hold it.
pub struct NavTexts {
    pub lookups: Seq<char>,
    pub imports: Seq<char>,
    pub state: Seq<char>,
    pub loaders: Seq<char>,
    pub effects: Seq<char>,
    pub calls: Seq<char>,
    pub screen_props: Seq<char>,
    pub form_props: Seq<char>,
    pub prop_types: Seq<char>,
    pub external: Seq<char>,
}

pub open spec fn combo_import() -> Seq<char> {
    "import { ComboBox } from '../../../components/ComboBox';\n"@
}

pub open spec fn add_unless(t: Seq<char>, probe: Seq<char>, piece: Seq<char>) -> Seq<char> {
    if contains(t, probe) {
        t
    } else {
        t + piece
    }
}

/// What one navigation field adds.
pub open spec fn nav_step(st: NavTexts, entity: Seq<char>, f: FieldV) -> NavTexts {
    if !(m_included(f) && m_nav(f)) {
        st
    } else {
        let ns = m_ns(f);
        let var = lower_camel(ns);
        let endpoint = "api/app/"@ + kebab(crate::naming::plural(entity)) + "/"@ + kebab(ns) + "-lookup"@;
        let lf = "get"@ + ns + "Lookup"@;
        let lfn = "load"@ + ns + "Options"@;
        let fresh_state = !contains(st.state, var);
        let fresh_loader = fresh_state && !contains(st.loaders, lfn);
        NavTexts {
            lookups: add_unless(st.lookups, lf, m_lookup_export_spec(lf, endpoint)),
            imports: add_unless(st.imports, lf, m_import_line_spec(lf, entity)),
            state: if fresh_state {
                st.state + m_state_line_spec(var, ns)
            } else {
                st.state
            },
            loaders: if fresh_loader {
                st.loaders + m_loader_spec(lfn, lf, ns)
            } else {
                st.loaders
            },
            effects: if fresh_loader {
                st.effects + m_effect_spec(lfn)
            } else {
                st.effects
            },
            calls: if fresh_loader {
                add_unless(st.calls, lfn, m_call_line_spec(lfn))
            } else {
                st.calls
            },
            screen_props: if fresh_state {
                st.screen_props + m_screen_prop_spec(var)
            } else {
                st.screen_props
            },
            form_props: add_unless(st.form_props, var, m_form_prop_spec(var)),
            prop_types: if contains(st.form_props, var) {
                st.prop_types
            } else {
                st.prop_types + m_prop_type_spec(var)
            },
            external: add_unless(st.external, "ComboBox"@, combo_import()),
        }
    }
}

pub open spec fn empty_nav_texts() -> NavTexts {
    NavTexts {
        lookups: Seq::empty(),
        imports: Seq::empty(),
        state: Seq::empty(),
        loaders: Seq::empty(),
        effects: Seq::empty(),
        calls: Seq::empty(),
        screen_props: Seq::empty(),
        form_props: Seq::empty(),
        prop_types: Seq::empty(),
        external: Seq::empty(),
    }
}

#[verifier::opaque]
pub open spec fn nav_fold(entity: Seq<char>, fs: Seq<FieldV>) -> NavTexts
    decreases fs.len(),
{
    if fs.len() == 0 {
        empty_nav_texts()
    } else {
        nav_step(nav_fold(entity, fs.drop_last()), entity, fs.last())
    }
}

pub open spec fn has_checkbox(fs: Seq<FieldV>) -> bool {
    exists|i: int| 0 <= i < fs.len() && m_included(fs[i]) && is_checkbox(#[trigger] fs[i])
}

pub open spec fn has_picker(fs: Seq<FieldV>) -> bool {
    exists|i: int| 0 <= i < fs.len() && m_included(fs[i]) && is_picker(#[trigger] fs[i])
}

pub open spec fn has_combo(fs: Seq<FieldV>) -> bool {
    exists|i: int| 0 <= i < fs.len() && m_included(fs[i]) && m_nav(#[trigger] fs[i])
}

pub open spec fn is_checkbox(f: FieldV) -> bool {
    !m_nav(f) && !m_datetime(f) && !m_textarea(f) && m_bool(f)
}

pub open spec fn is_picker(f: FieldV) -> bool {
    !m_nav(f) && m_datetime(f)
}

pub open spec fn checkbox_imports() -> Seq<char> {
    "  Checkbox,\n  CheckboxIndicator,\n  CheckboxIcon,\n  CheckboxLabel,\n  CheckIcon,\n"@
}

/// The gluestack imports the form needs.
pub open spec fn extra_imports(fs: Seq<FieldV>) -> Seq<char> {
    let a = if has_checkbox(fs) {
        checkbox_imports()
    } else {
        Seq::empty()
    };
    if has_picker(fs) {
        add_unless(add_unless(a, "InputSlot"@, "  InputSlot,\n"@), "  Icon,"@, "  Icon,\n"@)
    } else {
        a
    }
}

/// The package imports the form needs.
pub open spec fn external_imports(entity: Seq<char>, fs: Seq<FieldV>) -> Seq<char> {
    let a = nav_fold(entity, fs).external;
    let b = if has_combo(fs) {
        add_unless(a, "ComboBox"@, combo_import())
    } else {
        a
    };
    if has_picker(fs) {
        add_unless(
            add_unless(
                b,
                "DateTimePicker"@,
                "import DateTimePicker from '@react-native-community/datetimepicker';\n"@,
            ),
            "@expo/vector-icons"@,
            "import { Ionicons } from '@expo/vector-icons';\n"@,
        )
    } else {
        b
    }
}

/* ------------------------------ COMPUTATION ------------------------------ */

fn included(f: &Field) -> (r: bool)
    ensures
        r == m_included(f@),
{
    (f.show_in_ui || f.navigation.is_some()) && !eq_ignore_case(f.name.as_str(), "id")
        && !eq_ignore_case(f.name.as_str(), "concurrencyStamp")
}

fn is_bool(f: &Field) -> (r: bool)
    ensures
        r == m_bool(f@),
{
    eq_ignore_case(f.ftype.as_str(), "bool")
}

fn is_numeric(f: &Field) -> (r: bool)
    ensures
        r == m_numeric(f@),
{
    let t = f.ftype.as_str();
    eq_ignore_case(t, "int") || eq_ignore_case(t, "long") || eq_ignore_case(t, "decimal")
}

fn is_datetime(f: &Field) -> (r: bool)
    ensures
        r == m_datetime(f@),
{
    let t = f.ftype.as_str();
    eq_ignore_case(t, "datetime") || eq_ignore_case(t, "dateonly") || eq_ignore_case(t, "timeonly")
}

fn is_textarea(f: &Field) -> (r: bool)
    ensures
        r == m_textarea(f@),
{
    eq_ignore_case(f.ftype.as_str(), "textarea")
}

fn is_nav(f: &Field) -> (r: bool)
    ensures
        r == m_nav(f@),
{
    f.navigation.is_some() && eq_ignore_case(f.ftype.as_str(), "guid")
}

fn ns_of_field(f: &Field) -> (r: String)
    ensures
        r@ == m_ns(f@),
{
    match &f.navigation {
        Some(n) => last_segment(n.as_str()),
        None => String::new(),
    }
}

fn rule_of(f: &Field) -> (r: String)
    ensures
        r@ == m_rule(f@),
{
    let mut r = if is_bool(f) {
        copy_str("Yup.boolean()")
    } else if is_numeric(f) {
        copy_str("Yup.number()")
    } else {
        copy_str("Yup.string()")
    };
    if f.required {
        push_str(&mut r, ".required('AbpValidation::ThisFieldIsRequired.')");
    } else {
        push_str(&mut r, ".nullable()");
    }
    r
}

fn input_of(ds: &str, entity: &str, f: &Field) -> (r: String)
    ensures
        r@ == m_input(ds@, entity@, f@),
{
    let field = to_lower_camel(f.name.as_str());
    let rp = if f.required {
        " isRequired"
    } else {
        ""
    };
    proof {
        reveal_strlit("");
    }
    if is_nav(f) {
        let ns = ns_of_field(f);
        let var = to_lower_camel(ns.as_str());
        m_combo_input(rp, field.as_str(), ds, entity, f.name.as_str(), var.as_str())
    } else if is_datetime(f) {
        let fu = to_upper_camel(field.as_str());
        m_date_input(rp, field.as_str(), ds, entity, f.name.as_str(), fu.as_str())
    } else if is_textarea(f) {
        m_textarea_input(rp, field.as_str(), ds, entity, f.name.as_str())
    } else if is_bool(f) {
        m_checkbox_input(field.as_str(), ds, entity, f.name.as_str())
    } else {
        let kb = if is_numeric(f) {
            "numeric"
        } else {
            "default"
        };
        m_plain_input(rp, field.as_str(), ds, entity, f.name.as_str(), kb)
    }
}

fn value_of(f: &Field) -> (r: String)
    ensures
        r@ == m_value(f@),
{
    let field = to_lower_camel(f.name.as_str());
    match &f.navigation {
        Some(n) => {
            let nl = to_lower_camel(last_segment(n.as_str()).as_str());
            m_value_nav(nl.as_str(), field.as_str())
        },
        None => {
            let t = crate::text::to_lower(f.ftype.as_str());
            let t = t.as_str();
            if str_eq(t, "bool") {
                m_value_bool("entityItem", field.as_str())
            } else if str_eq(t, "datetime") || str_eq(t, "dateonly") || str_eq(t, "timeonly") {
                m_value_date("entityItem", field.as_str())
            } else if str_eq(t, "int") || str_eq(t, "long") || str_eq(t, "decimal") {
                m_value_number("entityItem", field.as_str())
            } else {
                m_value_other("entityItem", field.as_str())
            }
        },
    }
}

/// The navigation texts as computed.
struct NavAcc {
    lookups: String,
    imports: String,
    state: String,
    loaders: String,
    effects: String,
    calls: String,
    screen_props: String,
    form_props: String,
    prop_types: String,
    external: String,
}

spec fn nav_view(a: NavAcc) -> NavTexts {
    NavTexts {
        lookups: a.lookups@,
        imports: a.imports@,
        state: a.state@,
        loaders: a.loaders@,
        effects: a.effects@,
        calls: a.calls@,
        screen_props: a.screen_props@,
        form_props: a.form_props@,
        prop_types: a.prop_types@,
        external: a.external@,
    }
}

fn add_unless_exec(t: &mut String, probe: &str, piece: &str)
    ensures
        final(t)@ == add_unless(old(t)@, probe@, piece@),
{
    if !str_contains(t.as_str(), probe) {
        push_str(t, piece);
    }
}

fn nav_step_exec(a: &mut NavAcc, entity: &str, f: &Field)
    ensures
        nav_view(*final(a)) == nav_step(nav_view(*old(a)), entity@, f@),
{
    if !(included(f) && is_nav(f)) {
        return;
    }
    let ns = ns_of_field(f);
    let var = to_lower_camel(ns.as_str());
    let mut endpoint = copy_str("api/app/");
    push_str(&mut endpoint, to_kebab(crate::naming::pluralize(entity).as_str()).as_str());
    push_str(&mut endpoint, "/");
    push_str(&mut endpoint, to_kebab(ns.as_str()).as_str());
    push_str(&mut endpoint, "-lookup");
    let mut lf = copy_str("get");
    push_str(&mut lf, ns.as_str());
    push_str(&mut lf, "Lookup");
    let mut lfn = copy_str("load");
    push_str(&mut lfn, ns.as_str());
    push_str(&mut lfn, "Options");
    add_unless_exec(&mut a.lookups, lf.as_str(), m_lookup_export(lf.as_str(), endpoint.as_str()).as_str());
    add_unless_exec(&mut a.imports, lf.as_str(), m_import_line(lf.as_str(), entity).as_str());
    if !str_contains(a.state.as_str(), var.as_str()) {
        push_str(&mut a.state, m_state_line(var.as_str(), ns.as_str()).as_str());
        if !str_contains(a.loaders.as_str(), lfn.as_str()) {
            push_str(&mut a.loaders, m_loader(lfn.as_str(), lf.as_str(), ns.as_str()).as_str());
            push_str(&mut a.effects, m_effect(lfn.as_str()).as_str());
            add_unless_exec(&mut a.calls, lfn.as_str(), m_call_line(lfn.as_str()).as_str());
        }
        push_str(&mut a.screen_props, m_screen_prop(var.as_str()).as_str());
    }
    if !str_contains(a.form_props.as_str(), var.as_str()) {
        push_str(&mut a.form_props, m_form_prop(var.as_str()).as_str());
        push_str(&mut a.prop_types, m_prop_type(var.as_str()).as_str());
    }
    add_unless_exec(
        &mut a.external,
        "ComboBox",
        "import { ComboBox } from '../../../components/ComboBox';\n",
    );
}

/// The contributions of the fields seen so far.
struct MobileAcc {
    initial: String,
    validations: String,
    inputs: String,
    state: String,
    modals: String,
    list: String,
    nav: NavAcc,
    checkbox: bool,
    picker: bool,
    combo: bool,
}

spec fn mobile_acc_holds(a: MobileAcc, ds: Seq<char>, e: Seq<char>, title: Seq<char>, fs: Seq<FieldV>) -> bool {
    &&& a.initial@ == mobile_gather(ds, e, title, fs, MobilePart::InitialValues)
    &&& a.validations@ == mobile_gather(ds, e, title, fs, MobilePart::Validations)
    &&& a.inputs@ == mobile_gather(ds, e, title, fs, MobilePart::Inputs)
    &&& a.state@ == mobile_gather(ds, e, title, fs, MobilePart::FormState)
    &&& a.modals@ == mobile_gather(ds, e, title, fs, MobilePart::FormModals)
    &&& a.list@ == mobile_gather(ds, e, title, fs, MobilePart::ListFields)
    &&& nav_view(a.nav) == nav_fold(e, fs)
    &&& a.checkbox == has_checkbox(fs)
    &&& a.picker == has_picker(fs)
    &&& a.combo == has_combo(fs)
}

fn add_mobile_field(
    a: &mut MobileAcc,
    ds: &str,
    entity: &str,
    title: &str,
    f: &Field,
    Ghost(fs): Ghost<Seq<FieldV>>,
)
    requires
        mobile_acc_holds(*old(a), ds@, entity@, title@, fs.drop_last()),
        fs.len() > 0,
        fs.last() == f@,
    ensures
        mobile_acc_holds(*final(a), ds@, entity@, title@, fs),
{
    reveal(mobile_gather);
    reveal(nav_fold);
    let ghost prev = fs.drop_last();
    assert forall|i: int| 0 <= i < prev.len() implies #[trigger] fs[i] == prev[i] by {}
    nav_step_exec(&mut a.nav, entity, f);
    if !included(f) {
        assert(has_checkbox(fs) == has_checkbox(prev));
        assert(has_picker(fs) == has_picker(prev));
        assert(has_combo(fs) == has_combo(prev));
        return;
    }
    let field = to_lower_camel(f.name.as_str());
    if is_bool(f) {
        let el = to_lower_camel(entity);
        push_str(&mut a.initial, m_initial_bool(field.as_str(), el.as_str()).as_str());
    }
    let rule = rule_of(f);
    push_str(&mut a.validations, m_validation(field.as_str(), rule.as_str()).as_str());
    push_str(&mut a.inputs, input_of(ds, entity, f).as_str());
    let nav = is_nav(f);
    let dt = is_datetime(f);
    if !nav && dt {
        let fu = to_upper_camel(field.as_str());
        push_str(&mut a.state, m_picker_state(field.as_str(), fu.as_str()).as_str());
        push_str(&mut a.modals, m_picker_modal(field.as_str(), fu.as_str()).as_str());
    }
    if f.show_in_ui && !str_eq(field.as_str(), title) {
        let v = value_of(f);
        push_str(&mut a.list, m_list_line(ds, entity, f.name.as_str(), v.as_str()).as_str());
    }
    let cb = !nav && !dt && !is_textarea(f) && is_bool(f);
    let ghost last = (fs.len() - 1) as int;
    if cb {
        assert(is_checkbox(fs[last]));
    }
    if !nav && dt {
        assert(is_picker(fs[last]));
    }
    if nav {
        assert(m_nav(fs[last]));
    }
    a.checkbox = a.checkbox || cb;
    a.picker = a.picker || (!nav && dt);
    a.combo = a.combo || nav;
}

/// The React Native fragments of an entity.
pub struct MobileFragments {
    pub mobile_lookup_methods: String,
    pub mobile_screen_extra_imports: String,
    pub mobile_screen_state: String,
    pub mobile_screen_lookup_loaders: String,
    pub mobile_screen_lookup_calls: String,
    pub mobile_screen_effects: String,
    pub mobile_screen_form_props: String,
    pub mobile_form_validations: String,
    pub mobile_form_props: String,
    pub mobile_form_state: String,
    pub mobile_form_initial_values: String,
    pub mobile_form_modals: String,
    pub mobile_form_inputs: String,
    pub mobile_form_prop_types: String,
    pub mobile_form_extra_imports: String,
    pub mobile_form_external_imports: String,
    pub mobile_list_title: String,
    pub mobile_list_fields: String,
}

pub open spec fn list_title(fs: Seq<FieldV>) -> Seq<char> {
    "entityItem."@ + lower_camel(
        match search_field(fs) {
            Some(t) => t,
            None => "Id"@,
        },
    )
}

pub open spec fn mobile_holds(r: MobileFragments, ds: Seq<char>, entity: Seq<char>, fields: Seq<FieldV>) -> bool {
    let e = entity;
    let fs = fields;
    let t = m_title_lower(fs);
    let n = nav_fold(e, fs);
    &&& r.mobile_lookup_methods@ == trim(n.lookups)
    &&& r.mobile_screen_extra_imports@ == trim(n.imports)
    &&& r.mobile_screen_state@ == trim(n.state)
    &&& r.mobile_screen_lookup_loaders@ == trim(n.loaders)
    &&& r.mobile_screen_lookup_calls@ == trim(n.calls)
    &&& r.mobile_screen_effects@ == trim(n.effects)
    &&& r.mobile_screen_form_props@ == trim(n.screen_props)
    &&& r.mobile_form_validations@ == trim(mobile_gather(ds, e, t, fs, MobilePart::Validations))
    &&& r.mobile_form_props@ == trim(n.form_props)
    &&& r.mobile_form_state@ == trim(mobile_gather(ds, e, t, fs, MobilePart::FormState))
    &&& r.mobile_form_initial_values@ == trim(
        mobile_gather(ds, e, t, fs, MobilePart::InitialValues) + m_initial_spread_spec(
            lower_camel(e),
        ),
    )
    &&& r.mobile_form_modals@ == trim(mobile_gather(ds, e, t, fs, MobilePart::FormModals))
    &&& r.mobile_form_inputs@ == trim(mobile_gather(ds, e, t, fs, MobilePart::Inputs))
    &&& r.mobile_form_prop_types@ == trim(n.prop_types)
    &&& r.mobile_form_extra_imports@ == trim_end(extra_imports(fs))
    &&& r.mobile_form_external_imports@ == trim_end(external_imports(e, fs))
    &&& r.mobile_list_title@ == list_title(fs)
    &&& r.mobile_list_fields@ == trim(mobile_gather(ds, e, t, fs, MobilePart::ListFields))
}

/// The React Native fragments of `entity` with `fields`, labelled in the
/// localization resource `ds`.
pub fn mobile_fragments(ds: &str, entity: &str, fields: &[Field]) -> (r: MobileFragments)
    ensures
        mobile_holds(r, ds@, entity@, fields_view(fields@)),
{
    let ghost fs = fields_view(fields@);
    let title_name = match crate::fragments::backend::search_field_exec(fields) {
        Some(t) => t,
        None => copy_str("Id"),
    };
    let title = if eq_ignore_case(title_name.as_str(), "id") {
        copy_str("id")
    } else {
        to_lower_camel(title_name.as_str())
    };
    proof {
        reveal_strlit("Id");
        reveal_strlit("id");
        assert(lower_camel("Id"@) =~= "id"@);
    }
    assert(title@ == m_title_lower(fs));
    let mut a = MobileAcc {
        initial: String::new(),
        validations: String::new(),
        inputs: String::new(),
        state: String::new(),
        modals: String::new(),
        list: String::new(),
        nav: NavAcc {
            lookups: String::new(),
            imports: String::new(),
            state: String::new(),
            loaders: String::new(),
            effects: String::new(),
            calls: String::new(),
            screen_props: String::new(),
            form_props: String::new(),
            prop_types: String::new(),
            external: String::new(),
        },
        checkbox: false,
        picker: false,
        combo: false,
    };
    proof {
        reveal(mobile_gather);
        reveal(nav_fold);
    }
    assert(fs.take(0) =~= Seq::<FieldV>::empty());
    assert(nav_view(a.nav) == empty_nav_texts());
    let mut i: usize = 0;
    while i < fields.len()
        invariant
            i <= fields.len(),
            fs == fields_view(fields@),
            mobile_acc_holds(a, ds@, entity@, title@, fs.take(i as int)),
        decreases fields.len() - i,
    {
        let ghost next = fs.take(i + 1);
        assert(next.drop_last() =~= fs.take(i as int));
        add_mobile_field(&mut a, ds, entity, title.as_str(), &fields[i], Ghost(next));
        i = i + 1;
    }
    assert(fs.take(fields.len() as int) =~= fs);
    let mut initial = copy_str(a.initial.as_str());
    push_str(&mut initial, m_initial_spread(to_lower_camel(entity).as_str()).as_str());
    let mut extra = if a.checkbox {
        copy_str("  Checkbox,\n  CheckboxIndicator,\n  CheckboxIcon,\n  CheckboxLabel,\n  CheckIcon,\n")
    } else {
        String::new()
    };
    let mut external = copy_str(a.nav.external.as_str());
    if a.combo {
        add_unless_exec(&mut external, "ComboBox", "import { ComboBox } from '../../../components/ComboBox';\n");
    }
    if a.picker {
        add_unless_exec(&mut extra, "InputSlot", "  InputSlot,\n");
        add_unless_exec(&mut extra, "  Icon,", "  Icon,\n");
        add_unless_exec(
            &mut external,
            "DateTimePicker",
            "import DateTimePicker from '@react-native-community/datetimepicker';\n",
        );
        add_unless_exec(&mut external, "@expo/vector-icons", "import { Ionicons } from '@expo/vector-icons';\n");
    }
    let mut list_title_text = copy_str("entityItem.");
    push_str(&mut list_title_text, to_lower_camel(title_name.as_str()).as_str());
    MobileFragments {
        mobile_lookup_methods: trim_exec(a.nav.lookups.as_str()),
        mobile_screen_extra_imports: trim_exec(a.nav.imports.as_str()),
        mobile_screen_state: trim_exec(a.nav.state.as_str()),
        mobile_screen_lookup_loaders: trim_exec(a.nav.loaders.as_str()),
        mobile_screen_lookup_calls: trim_exec(a.nav.calls.as_str()),
        mobile_screen_effects: trim_exec(a.nav.effects.as_str()),
        mobile_screen_form_props: trim_exec(a.nav.screen_props.as_str()),
        mobile_form_validations: trim_exec(a.validations.as_str()),
        mobile_form_props: trim_exec(a.nav.form_props.as_str()),
        mobile_form_state: trim_exec(a.state.as_str()),
        mobile_form_initial_values: trim_exec(initial.as_str()),
        mobile_form_modals: trim_exec(a.modals.as_str()),
        mobile_form_inputs: trim_exec(a.inputs.as_str()),
        mobile_form_prop_types: trim_exec(a.nav.prop_types.as_str()),
        mobile_form_extra_imports: trim_end_exec(extra.as_str()),
        mobile_form_external_imports: trim_end_exec(external.as_str()),
        mobile_list_title: list_title_text,
        mobile_list_fields: trim_exec(a.list.as_str()),
    }
}

} // verus!
