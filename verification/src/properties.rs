//! Configuration values and the properties that show and edit them: how a
//! value is rendered, which properties are listed, and how a pending
//! configuration splits into current and pending values.

use vstd::prelude::*;
use crate::text::opt_text;
use crate::text::{chars_of, push_char, same_text, texts};

verus! {

/// A configuration value, as the API sends it. Numbers, arrays and objects
/// are kept in their JSON text.
#[derive(Clone, Debug)]
pub enum PropertyValue {
    Null,
    Bool(bool),
    Number(String),
    Text(String),
    /// An array or object, as JSON text.
    Other(String),
}

/// The view of a configuration value.
pub enum ValueView {
    Null,
    Bool(bool),
    Number(Seq<char>),
    Text(Seq<char>),
    Other(Seq<char>),
}

impl View for PropertyValue {
    type V = ValueView;

    open spec fn view(&self) -> ValueView {
        match self {
            PropertyValue::Null => ValueView::Null,
            PropertyValue::Bool(b) => ValueView::Bool(*b),
            PropertyValue::Number(n) => ValueView::Number(n@),
            PropertyValue::Text(t) => ValueView::Text(t@),
            PropertyValue::Other(o) => ValueView::Other(o@),
        }
    }
}

/// A copy of a value.
pub fn clone_value(v: &PropertyValue) -> (r: PropertyValue)
    ensures
        r@ == v@,
{
    match v {
        PropertyValue::Null => PropertyValue::Null,
        PropertyValue::Bool(b) => PropertyValue::Bool(*b),
        PropertyValue::Number(n) => PropertyValue::Number(n.clone()),
        PropertyValue::Text(t) => PropertyValue::Text(t.clone()),
        PropertyValue::Other(o) => PropertyValue::Other(o.clone()),
    }
}

/// A configuration object: keys with values. A later entry for a key
/// replaces an earlier one.
pub struct PropertyMap {
    pub entries: Vec<(String, PropertyValue)>,
}

/// The object the entries describe.
pub open spec fn entries_map(e: Seq<(String, PropertyValue)>) -> Map<Seq<char>, ValueView>
    decreases e.len(),
{
    if e.len() == 0 {
        Map::empty()
    } else {
        entries_map(e.drop_last()).insert(e.last().0@, e.last().1@)
    }
}

impl View for PropertyMap {
    type V = Map<Seq<char>, ValueView>;

    open spec fn view(&self) -> Map<Seq<char>, ValueView> {
        entries_map(self.entries@)
    }
}

/// The value of `key` in a record, `Null` where absent.
pub open spec fn value_at(m: Map<Seq<char>, ValueView>, key: Seq<char>) -> ValueView {
    if m.contains_key(key) {
        m[key]
    } else {
        ValueView::Null
    }
}

impl PropertyMap {
    /// The empty object.
    pub fn new() -> (m: Self)
        ensures
            m@ == Map::<Seq<char>, ValueView>::empty(),
    {
        PropertyMap { entries: Vec::new() }
    }

    /// Sets `key` to `value`.
    pub fn insert(&mut self, key: String, value: PropertyValue)
        ensures
            final(self)@ == old(self)@.insert(key@, value@),
    {
        self.entries.push((key, value));
        assert(self.entries@.drop_last() =~= old(self).entries@);
    }

    /// The value of `key`, where present.
    pub fn get(&self, key: &str) -> (r: Option<&PropertyValue>)
        ensures
            match r {
                Some(v) => self@.contains_key(key@) && self@[key@] == v@,
                None => !self@.contains_key(key@),
            },
    {
        let mut i: usize = self.entries.len();
        assert(self.entries@.subrange(0, i as int) =~= self.entries@);
        while i > 0
            invariant
                i <= self.entries@.len(),
                entries_map(self.entries@).contains_key(key@) == entries_map(
                    self.entries@.subrange(0, i as int),
                ).contains_key(key@),
                entries_map(self.entries@).contains_key(key@) ==> entries_map(self.entries@)[key@]
                    == entries_map(self.entries@.subrange(0, i as int))[key@],
            decreases i,
        {
            let ghost pre = self.entries@.subrange(0, i as int);
            assert(pre.drop_last() =~= self.entries@.subrange(0, i - 1));
            assert(pre.last() == self.entries@[i - 1]);
            if same_text(self.entries[i - 1].0.as_str(), key) {
                return Some(&self.entries[i - 1].1);
            }
            i = i - 1;
        }
        assert(self.entries@.subrange(0, 0) =~= Seq::<(String, PropertyValue)>::empty());
        None
    }

    /// The value of `key`, `Null` where absent.
    pub fn value(&self, key: &str) -> (r: PropertyValue)
        ensures
            r@ == value_at(self@, key@),
    {
        match self.get(key) {
            Some(v) => clone_value(v),
            None => PropertyValue::Null,
        }
    }
}

/// How a flag reads: "Yes" or "No".
pub open spec fn boolean_text(b: bool) -> Seq<char> {
    if b {
        "Yes"@
    } else {
        "No"@
    }
}

/// Renders a flag as "Yes" or "No".
pub fn render_boolean(b: bool) -> (r: String)
    ensures
        r@ == boolean_text(b),
{
    if b {
        String::from_str("Yes")
    } else {
        String::from_str("No")
    }
}

/// The text of a value as a list shows it by default: the placeholder (or
/// "-") for a missing value, a text as is, a flag as "Yes"/"No", and any
/// other value in its JSON text.
pub open spec fn value_text(v: ValueView, placeholder: Option<Seq<char>>) -> Seq<char> {
    match v {
        ValueView::Null => match placeholder {
            Some(p) => p,
            None => "-"@,
        },
        ValueView::Text(t) => t,
        ValueView::Bool(b) => boolean_text(b),
        ValueView::Number(n) => n,
        ValueView::Other(o) => o,
    }
}

/// A value that is present shows the same whatever the placeholder: a
/// text as that very text, a flag as "Yes" or "No", a number as its
/// digits. Only a missing value shows the placeholder, or "-" without one.
pub proof fn law_placeholder_only_for_missing(v: ValueView, ph: Option<Seq<char>>, other: Option<Seq<char>>)
    ensures
        !(v is Null) ==> value_text(v, ph) == value_text(v, other),
        v is Text ==> value_text(v, ph) == v->Text_0,
        v is Number ==> value_text(v, ph) == v->Number_0,
        v is Bool ==> value_text(v, ph) == (if v->Bool_0 { "Yes"@ } else { "No"@ }),
        v is Null && ph is Some ==> value_text(v, ph) == ph->0,
        v is Null && ph is None ==> value_text(v, ph) == "-"@,
{
    reveal_strlit("Yes");
    reveal_strlit("No");
}

/// Renders a value by default.
pub fn render_value(v: &PropertyValue, placeholder: &Option<String>) -> (r: String)
    ensures
        r@ == value_text(v@, opt_text(*placeholder)),
        v@ is Text ==> r@ == v@->Text_0,
        !(v@ is Null) ==> r@ == value_text(v@, None),
{
    proof {
        law_placeholder_only_for_missing(v@, opt_text(*placeholder), None);
    }
    match v {
        PropertyValue::Null => match placeholder {
            Some(p) => p.clone(),
            None => String::from_str("-"),
        },
        PropertyValue::Text(t) => t.clone(),
        PropertyValue::Bool(b) => render_boolean(*b),
        PropertyValue::Number(n) => n.clone(),
        PropertyValue::Other(o) => o.clone(),
    }
}

/// Lower-case hexadecimal digit of `d < 16`.
pub open spec fn hex_lower(d: nat) -> char {
    if d < 10 {
        (48 + d) as char
    } else {
        (87 + d) as char
    }
}

/// A character inside a JSON string: quote and backslash escaped with a
/// backslash, the control characters by their short escapes (`\b`, `\t`,
/// `\n`, `\f`, `\r`) or as `\u00xx`, every other character as it is.
pub open spec fn json_char(c: char) -> Seq<char> {
    let n = c as u32;
    if c == '"' {
        seq!['\\', '"']
    } else if c == '\\' {
        seq!['\\', '\\']
    } else if n == 8 {
        seq!['\\', 'b']
    } else if n == 9 {
        seq!['\\', 't']
    } else if n == 10 {
        seq!['\\', 'n']
    } else if n == 12 {
        seq!['\\', 'f']
    } else if n == 13 {
        seq!['\\', 'r']
    } else if n < 32 {
        seq!['\\', 'u', '0', '0', hex_lower((n / 16) as nat), hex_lower((n % 16) as nat)]
    } else {
        seq![c]
    }
}

/// The escaped characters of a JSON string.
pub open spec fn json_escaped(s: Seq<char>) -> Seq<char>
    decreases s.len(),
{
    if s.len() == 0 {
        Seq::empty()
    } else {
        json_escaped(s.drop_last()) + json_char(s.last())
    }
}

/// The JSON text of a string: its escaped characters in double quotes.
pub open spec fn json_string(s: Seq<char>) -> Seq<char> {
    seq!['"'] + json_escaped(s) + seq!['"']
}

fn hex_lower_char(d: u32) -> (c: char)
    requires
        d < 16,
    ensures
        c == hex_lower(d as nat),
{
    let b = d as u8;
    if b < 10 {
        (48 + b) as char
    } else {
        (87 + b) as char
    }
}

/// The JSON text of a string, as `serde_json` writes it.
pub fn json_string_text(s: &str) -> (r: String)
    ensures
        r@ == json_string(s@),
{
    let cs = chars_of(s);
    let mut out = String::new();
    push_char(&mut out, '"');
    let mut i: usize = 0;
    while i < cs.len()
        invariant
            i <= cs@.len(),
            cs@ == s@,
            out@ == seq!['"'] + json_escaped(cs@.subrange(0, i as int)),
        decreases cs@.len() - i,
    {
        let c = cs[i];
        let n = c as u32;
        let ghost before = out@;
        if c == '"' {
            push_char(&mut out, '\\');
            push_char(&mut out, '"');
        } else if c == '\\' {
            push_char(&mut out, '\\');
            push_char(&mut out, '\\');
        } else if n == 8 {
            push_char(&mut out, '\\');
            push_char(&mut out, 'b');
        } else if n == 9 {
            push_char(&mut out, '\\');
            push_char(&mut out, 't');
        } else if n == 10 {
            push_char(&mut out, '\\');
            push_char(&mut out, 'n');
        } else if n == 12 {
            push_char(&mut out, '\\');
            push_char(&mut out, 'f');
        } else if n == 13 {
            push_char(&mut out, '\\');
            push_char(&mut out, 'r');
        } else if n < 32 {
            push_char(&mut out, '\\');
            push_char(&mut out, 'u');
            push_char(&mut out, '0');
            push_char(&mut out, '0');
            push_char(&mut out, hex_lower_char(n / 16));
            push_char(&mut out, hex_lower_char(n % 16));
        } else {
            push_char(&mut out, c);
        }
        assert(out@ =~= before + json_char(c));
        assert(cs@.subrange(0, i + 1).drop_last() =~= cs@.subrange(0, i as int));
        i = i + 1;
    }
    push_char(&mut out, '"');
    assert(cs@.subrange(0, cs@.len() as int) =~= cs@);
    assert(out@ =~= json_string(s@));
    out
}

/// The text of a flag property: a flag, or the numbers 0 and 1, as
/// "Yes"/"No"; a missing value as its default (or "-"); any other value in
/// its JSON text (a string in double quotes, escaped).
pub open spec fn bool_value_text(v: ValueView, default: Option<bool>) -> Seq<char> {
    match v {
        ValueView::Bool(b) => boolean_text(b),
        ValueView::Number(n) => if n == "0"@ {
            boolean_text(false)
        } else if n == "1"@ {
            boolean_text(true)
        } else {
            n
        },
        ValueView::Null => match default {
            Some(d) => boolean_text(d),
            None => "-"@,
        },
        ValueView::Text(t) => json_string(t),
        ValueView::Other(o) => o,
    }
}

/// Renders the value of a flag property.
pub fn render_bool_value(v: &PropertyValue, default: Option<bool>) -> (r: String)
    ensures
        r@ == bool_value_text(v@, default),
{
    match v {
        PropertyValue::Bool(b) => render_boolean(*b),
        PropertyValue::Number(n) => {
            if same_text(n.as_str(), "0") {
                render_boolean(false)
            } else if same_text(n.as_str(), "1") {
                render_boolean(true)
            } else {
                n.clone()
            }
        },
        PropertyValue::Null => match default {
            Some(d) => render_boolean(d),
            None => String::from_str("-"),
        },
        PropertyValue::Text(t) => json_string_text(t.as_str()),
        PropertyValue::Other(o) => o.clone(),
    }
}

/// How a property renders its value: by default, as a flag, or by a
/// renderer of its own (applied outside this crate).
#[derive(Clone, Copy, Debug, PartialEq, Eq, Structural)]
pub enum PropertyRenderer {
    Default,
    Bool { default: Option<bool> },
    Custom,
}

/// A configuration property that a list shows and an edit dialog changes.
#[derive(Clone, Debug)]
pub struct EditableProperty {
    pub name: String,
    pub title: String,
    pub required: bool,
    pub single_row: bool,
    pub advanced_checkbox: bool,
    pub placeholder: Option<String>,
    pub renderer: PropertyRenderer,
    /// The property has an input panel, so it can be edited.
    pub has_input_panel: bool,
    /// Keys a revert resets, where they are more than the property's own.
    pub revert_keys: Option<Vec<String>>,
    /// The property has a hook that changes the loaded data.
    pub has_load_hook: bool,
    /// The property has a hook that builds the data to submit.
    pub has_submit_hook: bool,
    /// The property has a callback for changes of its form.
    pub has_on_change: bool,
    /// The property has a submit callback of its own.
    pub has_on_submit: bool,
    /// The property has a loader of its own.
    pub has_loader: bool,
}

/// The property has none of the optional callbacks.
pub open spec fn no_callbacks(p: EditableProperty) -> bool {
    !p.has_load_hook && !p.has_submit_hook && !p.has_on_change && !p.has_on_submit && !p.has_loader
}

impl EditableProperty {
    /// A property with default rendering and no input panel.
    pub fn new(name: String, title: String) -> (p: Self)
        ensures
            p.name@ == name@,
            p.title@ == title@,
            !p.required && !p.single_row && !p.advanced_checkbox,
            p.placeholder is None,
            p.renderer == PropertyRenderer::Default,
            !p.has_input_panel,
            p.revert_keys is None,
            no_callbacks(p),
    {
        EditableProperty {
            name,
            title,
            required: false,
            single_row: false,
            advanced_checkbox: false,
            placeholder: None,
            renderer: PropertyRenderer::Default,
            has_input_panel: false,
            revert_keys: None,
            has_load_hook: false,
            has_submit_hook: false,
            has_on_change: false,
            has_on_submit: false,
            has_loader: false,
        }
    }

    /// A flag property: shown on one row, its default as placeholder,
    /// rendered as a flag, edited with a switch.
    pub fn new_bool(name: String, title: String, default: Option<bool>) -> (p: Self)
        ensures
            p.name@ == name@,
            p.title@ == title@,
            !p.required && p.single_row && !p.advanced_checkbox,
            opt_text(p.placeholder) == match default {
                Some(d) => Some(boolean_text(d)),
                None => None,
            },
            p.renderer == (PropertyRenderer::Bool { default }),
            p.has_input_panel,
            p.revert_keys is None,
            no_callbacks(p),
    {
        let mut p = EditableProperty::new(name, title);
        p.single_row = true;
        p.placeholder = match default {
            Some(d) => Some(render_boolean(d)),
            None => None,
        };
        p.renderer = PropertyRenderer::Bool { default };
        p.has_input_panel = true;
        p
    }

    /// A text property, edited in a text field.
    pub fn new_string(name: String, title: String) -> (p: Self)
        ensures
            p.name@ == name@,
            p.title@ == title@,
            !p.required && !p.single_row && !p.advanced_checkbox,
            p.placeholder is None,
            p.renderer == PropertyRenderer::Default,
            p.has_input_panel,
            p.revert_keys is None,
            no_callbacks(p),
    {
        let mut p = EditableProperty::new(name, title);
        p.has_input_panel = true;
        p
    }

    /// The property with a renderer of its own.
    pub fn set_renderer(&mut self)
        ensures
            final(self).renderer == PropertyRenderer::Custom,
            final(self).name == old(self).name,
            final(self).has_input_panel == old(self).has_input_panel,
    {
        self.renderer = PropertyRenderer::Custom;
    }

    /// The property with an input panel.
    pub fn set_render_input_panel(&mut self)
        ensures
            final(self).has_input_panel,
            final(self).name == old(self).name,
            final(self).renderer == old(self).renderer,
    {
        self.has_input_panel = true;
    }
}

/// The text a property shows for `record`, `None` where its own renderer
/// draws it and its value is present.
pub open spec fn property_text(p: EditableProperty, record: Map<Seq<char>, ValueView>) -> Option<Seq<char>> {
    let v = value_at(record, p.name@);
    match p.renderer {
        PropertyRenderer::Default => Some(value_text(v, opt_text(p.placeholder))),
        PropertyRenderer::Bool { default } => Some(bool_value_text(v, default)),
        PropertyRenderer::Custom => match v {
            ValueView::Null => Some(value_text(v, opt_text(p.placeholder))),
            _ => None,
        },
    }
}

/// The text of a property's value in a record; `None` where the property's
/// own renderer has to draw it.
pub fn render_property_text(p: &EditableProperty, record: &PropertyMap) -> (r: Option<String>)
    ensures
        opt_text(r) == property_text(*p, record@),
{
    let v = record.value(p.name.as_str());
    match p.renderer {
        PropertyRenderer::Default => Some(render_value(&v, &p.placeholder)),
        PropertyRenderer::Bool { default } => Some(render_bool_value(&v, default)),
        PropertyRenderer::Custom => match v {
            PropertyValue::Null => Some(render_value(&v, &p.placeholder)),
            _ => None,
        },
    }
}

/// A property is listed where it is required or its value is present.
pub open spec fn property_shown(p: EditableProperty, record: Map<Seq<char>, ValueView>) -> bool {
    p.required || !(value_at(record, p.name@) is Null)
}

/// Whether the list shows property `p` for `record`.
pub fn is_property_shown(p: &EditableProperty, record: &PropertyMap) -> (r: bool)
    ensures
        r == property_shown(*p, record@),
{
    if p.required {
        return true;
    }
    match record.get(p.name.as_str()) {
        None => false,
        Some(PropertyValue::Null) => false,
        Some(_) => true,
    }
}

/// The indices of the properties a list shows for `record`, in order.
pub open spec fn shown_indices(props: Seq<EditableProperty>, record: Map<Seq<char>, ValueView>) -> Seq<usize>
    decreases props.len(),
{
    if props.len() == 0 {
        Seq::empty()
    } else {
        let rest = shown_indices(props.drop_last(), record);
        if property_shown(props.last(), record) {
            rest.push((props.len() - 1) as usize)
        } else {
            rest
        }
    }
}

/// The properties a list shows for `record`, by index.
pub fn visible_properties(props: &Vec<EditableProperty>, record: &PropertyMap) -> (r: Vec<usize>)
    ensures
        r@ == shown_indices(props@, record@),
{
    let mut r: Vec<usize> = Vec::new();
    let mut i: usize = 0;
    while i < props.len()
        invariant
            i <= props@.len(),
            r@ == shown_indices(props@.subrange(0, i as int), record@),
        decreases props@.len() - i,
    {
        let ghost pre = props@.subrange(0, i + 1);
        assert(pre.drop_last() =~= props@.subrange(0, i as int));
        if is_property_shown(&props[i], record) {
            r.push(i);
        }
        i = i + 1;
    }
    assert(props@.subrange(0, props@.len() as int) =~= props@);
    r
}

/// What a pending list shows for a property: the current text, and the
/// pending text where it differs.
pub fn pending_display(current: String, pending: String) -> (r: (String, Option<String>))
    ensures
        r.0@ == current@,
        opt_text(r.1) == (if current@ == pending@ { None } else { Some(pending@) }),
{
    if same_text(current.as_str(), pending.as_str()) {
        (current, None)
    } else {
        (current, Some(pending))
    }
}

/// The keys a revert of property `p` resets: its revert keys, or its name.
pub open spec fn revert_key_list(p: EditableProperty) -> Seq<Seq<char>> {
    match p.revert_keys {
        Some(k) => texts(k@),
        None => seq![p.name@],
    }
}

/// The keys a revert of `p` resets.
pub fn revert_keys(p: &EditableProperty) -> (r: Vec<String>)
    ensures
        texts(r@) == revert_key_list(*p),
{
    match &p.revert_keys {
        Some(keys) => {
            let mut r: Vec<String> = Vec::new();
            let mut i: usize = 0;
            while i < keys.len()
                invariant
                    i <= keys@.len(),
                    r@.len() == i,
                    forall|j: int| 0 <= j < i ==> (#[trigger] r@[j])@ == keys@[j]@,
                decreases keys@.len() - i,
            {
                r.push(keys[i].clone());
                i = i + 1;
            }
            assert(texts(r@) =~= texts(keys@));
            r
        },
        None => {
            let mut r: Vec<String> = Vec::new();
            r.push(p.name.clone());
            assert(texts(r@) =~= seq![p.name@]);
            r
        },
    }
}

} // verus!
