//! The setting items of a filter plugin: their values, the colour value and
//! its text forms, groups, and the type tags by which the host tells the
//! kinds of item apart.

use vstd::prelude::*;
use crate::common::FileFilter;
use crate::text::{push_char, push_str, same_text};

verus! {

/// A check box.
#[derive(Debug, Clone)]
pub struct FilterConfigCheckbox {
    /// The setting's name.
    pub name: String,
    /// Whether it is checked.
    pub value: bool,
}

/// A colour choice.
#[derive(Debug, Clone)]
pub struct FilterConfigColor {
    /// The setting's name.
    pub name: String,
    /// The colour.
    pub value: FilterConfigColorValue,
}

/// A colour as the host stores it: `0xRRGGBB` in the low 24 bits.
#[derive(Debug, Clone, Copy, PartialEq, Eq, PartialOrd, Ord, Hash, Structural)]
pub struct FilterConfigColorValue(pub u32);

/// The red, green and blue parts of a colour code.
pub open spec fn color_parts(v: u32) -> (u8, u8, u8) {
    (((v >> 16u32) & 0xFFu32) as u8, ((v >> 8u32) & 0xFFu32) as u8, (v & 0xFFu32) as u8)
}

/// The colour code of red, green and blue parts.
pub open spec fn color_code(r: u8, g: u8, b: u8) -> u32 {
    ((r as u32) << 16u32) | ((g as u32) << 8u32) | (b as u32)
}

/// The hexadecimal digit of `d` (0 to 15), in upper or lower case.
pub open spec fn hex_digit(d: int, upper: bool) -> char {
    if d < 10 {
        (('0' as int) + d) as char
    } else if upper {
        (('A' as int) + d - 10) as char
    } else {
        (('a' as int) + d - 10) as char
    }
}

/// `v` (below 16 to the power `n`) as `n` hexadecimal digits.
pub open spec fn hex_digits(v: nat, n: nat, upper: bool) -> Seq<char>
    decreases n,
{
    if n == 0 {
        Seq::empty()
    } else {
        hex_digits(v / 16, (n - 1) as nat, upper).push(hex_digit((v % 16) as int, upper))
    }
}

/// The text of a colour: `#` and the three parts as two upper-case digits
/// each, such as `#FF8000`.
pub open spec fn color_text(v: u32) -> Seq<char> {
    let (r, g, b) = color_parts(v);
    seq!['#'] + hex_digits(r as nat, 2, true) + hex_digits(g as nat, 2, true) + hex_digits(
        b as nat,
        2,
        true,
    )
}

fn hex_digit_char(d: u32, upper: bool) -> (c: char)
    requires
        d < 16,
    ensures
        c == hex_digit(d as int, upper),
{
    let base: u32 = if d < 10 {
        48 + d
    } else if upper {
        55 + d
    } else {
        87 + d
    };
    let c = crate::text::char_from_u32(base);
    match c {
        Some(ch) => ch,
        None => '0',
    }
}

/// Appends the `n` low hexadecimal digits of `v`.
fn push_hex(s: &mut String, v: u32, n: u32, upper: bool)
    requires
        n <= 8,
    ensures
        final(s)@ == old(s)@ + hex_digits((v as nat) % pow16(n as nat), n as nat, upper),
    decreases n,
{
    if n == 0 {
        proof {
            assert(hex_digits((v as nat) % pow16(0), 0, upper) =~= Seq::<char>::empty());
        }
        return;
    }
    let ghost start = s@;
    push_hex(s, v / 16, n - 1, upper);
    push_char(s, hex_digit_char(v % 16, upper));
    proof {
        lemma_hex_step(v as nat, n as nat);
        let w = (v as nat) % pow16(n as nat);
        lemma_hex_digits_unfold(w, n as nat, upper);
        assert(w / 16 == ((v / 16) as nat) % pow16((n - 1) as nat));
        assert(s@ =~= start + hex_digits((v as nat) % pow16(n as nat), n as nat, upper));
    }
}

/// Sixteen to the power `n`.
pub open spec fn pow16(n: nat) -> nat
    decreases n,
{
    if n == 0 {
        1
    } else {
        16 * pow16((n - 1) as nat)
    }
}

proof fn lemma_hex_step(v: nat, n: nat)
    requires
        n > 0,
    ensures
        ((v % pow16(n)) / 16) == (v / 16) % pow16((n - 1) as nat),
        ((v % pow16(n)) % 16) == v % 16,
{
    let p = pow16((n - 1) as nat);
    assert(pow16(n) == 16 * p);
    assert(p > 0) by {
        lemma_pow16_positive((n - 1) as nat);
    }
    assert((v % (16 * p)) / 16 == (v / 16) % p) by (nonlinear_arith)
        requires
            p > 0,
    {
        vstd::arithmetic::div_mod::lemma_mod_breakdown(v as int, 16, p as int);
        vstd::arithmetic::div_mod::lemma_fundamental_div_mod(v as int, (16 * p) as int);
    }
    assert((v % (16 * p)) % 16 == v % 16) by (nonlinear_arith)
        requires
            p > 0,
    {
        vstd::arithmetic::div_mod::lemma_mod_mod(v as int, 16, p as int);
    }
}

proof fn lemma_hex_digits_unfold(w: nat, m: nat, upper: bool)
    requires
        m > 0,
    ensures
        hex_digits(w, m, upper) == hex_digits(w / 16, (m - 1) as nat, upper).push(
            hex_digit((w % 16) as int, upper),
        ),
{
}

proof fn lemma_pow16_positive(n: nat)
    ensures
        pow16(n) > 0,
    decreases n,
{
    if n > 0 {
        lemma_pow16_positive((n - 1) as nat);
    }
}

impl FilterConfigColorValue {
    /// The red, green and blue parts.
    pub fn to_rgb(&self) -> (r: (u8, u8, u8))
        ensures
            r == color_parts(self.0),
    {
        let v = self.0;
        let r = ((v >> 16) & 0xFF) as u8;
        let g = ((v >> 8) & 0xFF) as u8;
        let b = (v & 0xFF) as u8;
        (r, g, b)
    }

    /// The colour of red, green and blue parts.
    pub fn from_rgb(r: u8, g: u8, b: u8) -> (c: Self)
        ensures
            c.0 == color_code(r, g, b),
    {
        FilterConfigColorValue((r as u32) << 16 | (g as u32) << 8 | (b as u32))
    }

    /// The colour as `#RRGGBB`, with upper-case digits.
    pub fn to_display_string(&self) -> (s: String)
        ensures
            s@ == color_text(self.0),
    {
        let (r, g, b) = self.to_rgb();
        let mut s = String::new();
        push_char(&mut s, '#');
        push_hex(&mut s, r as u32, 2, true);
        push_hex(&mut s, g as u32, 2, true);
        push_hex(&mut s, b as u32, 2, true);
        proof {
            assert(pow16(2) == 256) by {
                reveal_with_fuel(pow16, 3);
            }
            assert((r as nat) % 256 == r as nat);
            assert((g as nat) % 256 == g as nat);
            assert((b as nat) % 256 == b as nat);
        }
        s
    }

    /// The low 24 bits as six lower-case hexadecimal digits.
    pub fn to_lower_hex(&self) -> (s: String)
        ensures
            s@ == hex_digits((self.0 as nat) % pow16(6), 6, false),
    {
        let mut s = String::new();
        push_hex(&mut s, self.0, 6, false);
        s
    }

    /// The low 24 bits as six upper-case hexadecimal digits.
    pub fn to_upper_hex(&self) -> (s: String)
        ensures
            s@ == hex_digits((self.0 as nat) % pow16(6), 6, true),
    {
        let mut s = String::new();
        push_hex(&mut s, self.0, 6, true);
        s
    }
}

impl From<u32> for FilterConfigColorValue {
    fn from(value: u32) -> (r: Self) {
        FilterConfigColorValue(value)
    }
}

impl vstd::std_specs::convert::FromSpecImpl<u32> for FilterConfigColorValue {
    open spec fn obeys_from_spec() -> bool {
        true
    }

    open spec fn from_spec(v: u32) -> Self {
        FilterConfigColorValue(v)
    }
}

impl From<FilterConfigColorValue> for u32 {
    fn from(value: FilterConfigColorValue) -> (r: Self) {
        value.0
    }
}

impl vstd::std_specs::convert::FromSpecImpl<FilterConfigColorValue> for u32 {
    open spec fn obeys_from_spec() -> bool {
        true
    }

    open spec fn from_spec(v: FilterConfigColorValue) -> Self {
        v.0
    }
}

/// Splitting a colour built from parts gives the parts back.
pub proof fn lemma_color_parts_roundtrip(r: u8, g: u8, b: u8)
    ensures
        color_parts(color_code(r, g, b)) == (r, g, b),
{
    let v = color_code(r, g, b);
    assert(((v >> 16u32) & 0xFFu32) as u8 == r && ((v >> 8u32) & 0xFFu32) as u8 == g && (v
        & 0xFFu32) as u8 == b) by (bit_vector)
        requires
            v == ((r as u32) << 16u32) | ((g as u32) << 8u32) | (b as u32),
    ;
}

/// Building a colour from its parts gives its low 24 bits.
pub proof fn lemma_color_code_roundtrip(v: u32)
    ensures
        ({
            let (r, g, b) = color_parts(v);
            color_code(r, g, b) == v & 0xFFFFFFu32
        }),
{
    assert(((((v >> 16u32) & 0xFFu32) as u8 as u32) << 16u32) | ((((v >> 8u32) & 0xFFu32) as u8
        as u32) << 8u32) | ((v & 0xFFu32) as u8 as u32) == v & 0xFFFFFFu32) by (bit_vector);
}

/// A choice from a list.
#[derive(Debug, Clone)]
pub struct FilterConfigSelect {
    /// The setting's name.
    pub name: String,
    /// The value of the chosen item.
    pub value: i32,
    /// The items to choose from.
    pub items: Vec<FilterConfigSelectItem>,
}

/// An item of a [`FilterConfigSelect`].
#[derive(Debug, Clone)]
pub struct FilterConfigSelectItem {
    /// The item's name.
    pub name: String,
    /// The item's value.
    pub value: i32,
}

/// The entries of a choice list as the host takes them: each item's name and
/// value in order, then a terminating entry with no name and the value 0.
pub fn select_item_entries(items: &[FilterConfigSelectItem]) -> (r: Vec<(Option<String>, i32)>)
    ensures
        r@.len() == items@.len() + 1,
        forall|i: int|
            0 <= i < items@.len() ==> ((#[trigger] r@[i]).0 matches Some(n) && n@
                == items@[i].name@ && r@[i].1 == items@[i].value),
        r@[items@.len() as int].0 is None,
        r@[items@.len() as int].1 == 0,
{
    let mut out: Vec<(Option<String>, i32)> = Vec::new();
    let n = items.len();
    let mut i: usize = 0;
    while i < n
        invariant
            n == items@.len(),
            i <= n,
            out@.len() == i,
            forall|k: int|
                0 <= k < i ==> ((#[trigger] out@[k]).0 matches Some(m) && m@
                    == items@[k].name@ && out@[k].1 == items@[k].value),
        decreases n - i,
    {
        let mut name = String::new();
        push_str(&mut name, items[i].name.as_str());
        out.push((Some(name), items[i].value));
        i = i + 1;
    }
    out.push((None, 0));
    out
}

/// The largest untyped data, in bytes, that the host keeps for a setting.
pub const MAX_DATA_SIZE: usize = 1024;

/// Reads the size the host reports for untyped data: `None` when it is
/// negative or larger than 1024 bytes.
pub fn data_size_from_raw(raw: i32) -> (r: Option<usize>)
    ensures
        r is Some <==> 0 <= raw <= MAX_DATA_SIZE,
        r matches Some(n) ==> n == raw,
{
    if raw < 0 || raw > 1024 {
        None
    } else {
        Some(raw as usize)
    }
}

/// Converts the size of untyped data for the host: `None` when it is larger
/// than 1024 bytes.
pub fn data_size_to_raw(size: usize) -> (r: Option<i32>)
    ensures
        r is Some <==> size <= MAX_DATA_SIZE,
        r matches Some(n) ==> n == size,
{
    if size > MAX_DATA_SIZE {
        None
    } else {
        Some(size as i32)
    }
}

/// A type whose values are the items of a choice list, converted to and
/// from the values the host stores.
pub trait FilterConfigSelectItems: Sized {
    /// The items of the list.
    fn to_select_items() -> Vec<FilterConfigSelectItem>;

    /// The value of an item's stored value.
    fn from_select_item_value(item: i32) -> Self;

    /// The stored value of this value.
    fn to_select_item_value(&self) -> i32;
}

/// A file choice.
#[derive(Debug, Clone)]
pub struct FilterConfigFile {
    /// The setting's name.
    pub name: String,
    /// The chosen path.
    pub value: String,
    /// The file-dialog filters.
    pub filters: Vec<FileFilter>,
}

/// A one-line string.
#[derive(Debug, Clone)]
pub struct FilterConfigString {
    /// The setting's name.
    pub name: String,
    /// The string.
    pub value: String,
}

/// A text.
#[derive(Debug, Clone)]
pub struct FilterConfigText {
    /// The setting's name.
    pub name: String,
    /// The text.
    pub value: String,
}

/// A folder choice.
#[derive(Debug, Clone)]
pub struct FilterConfigFolder {
    /// The setting's name.
    pub name: String,
    /// The chosen folder.
    pub value: String,
}

/// The start or the end of a group of setting items.
#[derive(Debug, Clone)]
pub struct FilterConfigGroup {
    /// The group's name; `None` marks the end of a group.
    pub name: Option<String>,
    /// Whether the group is open at first.
    pub opened: bool,
}

impl FilterConfigGroup {
    /// The start of a group that is open at first.
    pub fn start(name: String) -> (g: Self)
        ensures
            g.name == Some(name),
            g.opened,
    {
        Self::start_with_opened(name, true)
    }

    /// The start of a group, open at first or not.
    pub fn start_with_opened(name: String, opened: bool) -> (g: Self)
        ensures
            g.name == Some(name),
            g.opened == opened,
    {
        FilterConfigGroup { name: Some(name), opened }
    }

    /// The end of a group.
    pub fn end() -> (g: Self)
        ensures
            g.name is None,
            !g.opened,
    {
        FilterConfigGroup { name: None, opened: false }
    }
}

/// A separator line with a text.
#[derive(Debug, Clone)]
pub struct FilterConfigSeparator {
    /// The text shown on the separator.
    pub name: String,
}

/// The kinds of setting item.
#[derive(Debug, Clone, Copy, PartialEq, Eq, Structural)]
pub enum FilterConfigItemKind {
    /// A track bar.
    Track,
    /// A check box.
    Checkbox,
    /// A colour choice.
    Color,
    /// A choice from a list.
    Select,
    /// A file choice.
    File,
    /// A one-line string.
    String,
    /// A text.
    Text,
    /// A folder choice.
    Folder,
    /// Untyped data.
    Data,
    /// A group.
    Group,
    /// A separator.
    Separator,
    /// A button.
    Button,
}

/// The type tag by which the host names a kind of setting item.
pub open spec fn item_kind_tag(k: FilterConfigItemKind) -> Seq<char> {
    match k {
        FilterConfigItemKind::Track => "track"@,
        FilterConfigItemKind::Checkbox => "check"@,
        FilterConfigItemKind::Color => "color"@,
        FilterConfigItemKind::Select => "select"@,
        FilterConfigItemKind::File => "file"@,
        FilterConfigItemKind::String => "string"@,
        FilterConfigItemKind::Text => "text"@,
        FilterConfigItemKind::Folder => "folder"@,
        FilterConfigItemKind::Data => "data"@,
        FilterConfigItemKind::Group => "group"@,
        FilterConfigItemKind::Separator => "separator"@,
        FilterConfigItemKind::Button => "button"@,
    }
}

impl FilterConfigItemKind {
    /// The type tag of this kind, such as `check` for a check box.
    pub fn type_tag(&self) -> (r: &'static str)
        ensures
            r@ == item_kind_tag(*self),
    {
        match self {
            FilterConfigItemKind::Track => "track",
            FilterConfigItemKind::Checkbox => "check",
            FilterConfigItemKind::Color => "color",
            FilterConfigItemKind::Select => "select",
            FilterConfigItemKind::File => "file",
            FilterConfigItemKind::String => "string",
            FilterConfigItemKind::Text => "text",
            FilterConfigItemKind::Folder => "folder",
            FilterConfigItemKind::Data => "data",
            FilterConfigItemKind::Group => "group",
            FilterConfigItemKind::Separator => "separator",
            FilterConfigItemKind::Button => "button",
        }
    }

    /// The kind that a type tag names, if any.
    pub fn from_type_tag(tag: &str) -> (r: Option<Self>)
        ensures
            r matches Some(k) ==> item_kind_tag(k) == tag@,
            r is None ==> forall|k: FilterConfigItemKind| item_kind_tag(k) != tag@,
    {
        if same_text(tag, "track") {
            Some(FilterConfigItemKind::Track)
        } else if same_text(tag, "check") {
            Some(FilterConfigItemKind::Checkbox)
        } else if same_text(tag, "color") {
            Some(FilterConfigItemKind::Color)
        } else if same_text(tag, "select") {
            Some(FilterConfigItemKind::Select)
        } else if same_text(tag, "file") {
            Some(FilterConfigItemKind::File)
        } else if same_text(tag, "string") {
            Some(FilterConfigItemKind::String)
        } else if same_text(tag, "text") {
            Some(FilterConfigItemKind::Text)
        } else if same_text(tag, "folder") {
            Some(FilterConfigItemKind::Folder)
        } else if same_text(tag, "data") {
            Some(FilterConfigItemKind::Data)
        } else if same_text(tag, "group") {
            Some(FilterConfigItemKind::Group)
        } else if same_text(tag, "separator") {
            Some(FilterConfigItemKind::Separator)
        } else if same_text(tag, "button") {
            Some(FilterConfigItemKind::Button)
        } else {
            None
        }
    }
}

/// Each kind of setting item carries the host's fixed type name: a track bar
/// is `track`, a check box `check`, a colour `color`, a list `select`, a file
/// choice `file`, a string `string`, a text `text`, a folder choice `folder`,
/// untyped data `data`, a group `group`, a separator `separator` and a button
/// `button`; and no two kinds share a name, so a name read back gives the
/// kind it was written for.
pub proof fn lemma_item_kind_tags(a: FilterConfigItemKind, b: FilterConfigItemKind)
    ensures
        item_kind_tag(FilterConfigItemKind::Track) == "track"@,
        item_kind_tag(FilterConfigItemKind::Checkbox) == "check"@,
        item_kind_tag(FilterConfigItemKind::Color) == "color"@,
        item_kind_tag(FilterConfigItemKind::Select) == "select"@,
        item_kind_tag(FilterConfigItemKind::File) == "file"@,
        item_kind_tag(FilterConfigItemKind::String) == "string"@,
        item_kind_tag(FilterConfigItemKind::Text) == "text"@,
        item_kind_tag(FilterConfigItemKind::Folder) == "folder"@,
        item_kind_tag(FilterConfigItemKind::Data) == "data"@,
        item_kind_tag(FilterConfigItemKind::Group) == "group"@,
        item_kind_tag(FilterConfigItemKind::Separator) == "separator"@,
        item_kind_tag(FilterConfigItemKind::Button) == "button"@,
        item_kind_tag(a) == item_kind_tag(b) ==> a == b,
{
    reveal_strlit("track");
    reveal_strlit("check");
    reveal_strlit("color");
    reveal_strlit("select");
    reveal_strlit("file");
    reveal_strlit("string");
    reveal_strlit("text");
    reveal_strlit("folder");
    reveal_strlit("data");
    reveal_strlit("group");
    reveal_strlit("separator");
    reveal_strlit("button");
    if a != b {
        let ta = item_kind_tag(a);
        let tb = item_kind_tag(b);
        assert(ta.len() != tb.len() || ta[0] != tb[0] || ta[1] != tb[1]);
    }
}

} // verus!
