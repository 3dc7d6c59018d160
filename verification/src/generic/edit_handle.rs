//! What the host's edit handle reports: effects and their setting items,
//! modules, the editing state, and the host codes of each.

use vstd::prelude::*;
use crate::common::NullByteError;
use crate::generic::effect_flag::{effect_flags_of, EffectFlag};
use crate::text::{push_signed_decimal, push_str, signed_decimal};

verus! {

/// An error of a call through the edit handle.
#[derive(Debug)]
pub enum EditHandleError {
    /// The host reported that the call failed.
    ApiCallFailed,
    /// No effect has the given name.
    EffectNotFound,
    /// A string argument holds a NUL and cannot be passed to the host.
    InputCwstrContainsNull(NullByteError),
    /// The host reported an editing state with an unknown code.
    UnknownEditState(i32),
}

impl From<NullByteError> for EditHandleError {
    fn from(e: NullByteError) -> (r: Self) {
        EditHandleError::InputCwstrContainsNull(e)
    }
}

impl vstd::std_specs::convert::FromSpecImpl<NullByteError> for EditHandleError {
    open spec fn obeys_from_spec() -> bool {
        true
    }

    open spec fn from_spec(v: NullByteError) -> Self {
        EditHandleError::InputCwstrContainsNull(v)
    }
}

impl EditHandleError {
    /// The message that explains the error.
    pub fn message(&self) -> (r: String)
        ensures
            r@ == match self {
                EditHandleError::ApiCallFailed => "api call failed"@,
                EditHandleError::EffectNotFound => "effect does not exist"@,
                EditHandleError::InputCwstrContainsNull(
                    _,
                ) => "input utf-16 string contains null byte"@,
                EditHandleError::UnknownEditState(v) => "unknown edit state: "@ + signed_decimal(
                    *v as int,
                ),
            },
    {
        let mut s = String::new();
        match self {
            EditHandleError::ApiCallFailed => push_str(&mut s, "api call failed"),
            EditHandleError::EffectNotFound => push_str(&mut s, "effect does not exist"),
            EditHandleError::InputCwstrContainsNull(_) => push_str(
                &mut s,
                "input utf-16 string contains null byte",
            ),
            EditHandleError::UnknownEditState(v) => {
                push_str(&mut s, "unknown edit state: ");
                push_signed_decimal(&mut s, *v as i64);
            },
        }
        s
    }
}

/// An effect that the host knows.
#[derive(Debug, Clone, PartialEq, Eq)]
pub struct Effect {
    /// The effect's name.
    pub name: String,
    /// The kind of effect.
    pub effect_type: EffectType,
    /// What the effect supports.
    pub flag: EffectFlag,
}

/// A setting item of an effect.
#[derive(Debug, Clone, PartialEq, Eq)]
pub struct EffectItemInfo {
    /// The item's name.
    pub name: String,
    /// The kind of item.
    pub item_type: EffectItemType,
}

/// The kind of an effect.
#[derive(Debug, Clone, Copy, PartialEq, Eq, Structural)]
pub enum EffectType {
    /// A filter effect.
    Filter,
    /// A media input.
    Input,
    /// A scene change.
    SceneChange,
    /// An object control.
    Control,
    /// A media output.
    Output,
}

/// The kind of a setting item.
#[derive(Debug, Clone, Copy, PartialEq, Eq, Structural)]
pub enum EffectItemType {
    /// An integer.
    Integer,
    /// A number.
    Number,
    /// A check box.
    Check,
    /// A text.
    Text,
    /// A string.
    String,
    /// A file.
    File,
    /// A colour.
    Color,
    /// A choice from a list.
    Select,
    /// A scene.
    Scene,
    /// A layer range.
    Range,
    /// A list choice combined with text.
    Combo,
    /// A mask.
    Mask,
    /// A font.
    Font,
    /// A figure.
    Figure,
    /// Data.
    Data,
    /// A folder.
    Folder,
}

/// A module that the host has loaded.
#[derive(Debug, Clone, PartialEq, Eq)]
pub struct ModuleInfo {
    /// The kind of module.
    pub module_type: ModuleType,
    /// The module's name.
    pub name: String,
    /// The module's information text.
    pub information: String,
}

/// The kind of a module.
#[derive(Debug, Clone, Copy, PartialEq, Eq, Structural)]
pub enum ModuleType {
    /// A filter script.
    ScriptFilter,
    /// An object script.
    ScriptObject,
    /// A camera script.
    ScriptCamera,
    /// A track-bar script.
    ScriptTrack,
    /// A script module.
    ScriptModule,
    /// An input plugin.
    PluginInput,
    /// An output plugin.
    PluginOutput,
    /// A filter plugin.
    PluginFilter,
    /// A generic plugin.
    PluginGeneric,
}

/// What the host is doing.
#[derive(Debug, Clone, Copy, PartialEq, Eq, Structural)]
pub enum EditState {
    /// Editing.
    Edit,
    /// Playing a preview.
    Preview,
    /// Writing a file.
    Save,
}

/// The host code of an effect kind.
pub open spec fn effect_type_code(t: EffectType) -> i32 {
    match t {
        EffectType::Filter => 1,
        EffectType::Input => 2,
        EffectType::SceneChange => 3,
        EffectType::Control => 4,
        EffectType::Output => 5,
    }
}

/// The effect kind of a host code, if the code is known.
pub open spec fn effect_type_of(v: i32) -> Option<EffectType> {
    if v == 1 {
        Some(EffectType::Filter)
    } else if v == 2 {
        Some(EffectType::Input)
    } else if v == 3 {
        Some(EffectType::SceneChange)
    } else if v == 4 {
        Some(EffectType::Control)
    } else if v == 5 {
        Some(EffectType::Output)
    } else {
        None
    }
}

/// The host code of a setting item kind.
pub open spec fn effect_item_type_code(t: EffectItemType) -> i32 {
    match t {
        EffectItemType::Integer => 1,
        EffectItemType::Number => 2,
        EffectItemType::Check => 3,
        EffectItemType::Text => 4,
        EffectItemType::String => 5,
        EffectItemType::File => 6,
        EffectItemType::Color => 7,
        EffectItemType::Select => 8,
        EffectItemType::Scene => 9,
        EffectItemType::Range => 10,
        EffectItemType::Combo => 11,
        EffectItemType::Mask => 12,
        EffectItemType::Font => 13,
        EffectItemType::Figure => 14,
        EffectItemType::Data => 15,
        EffectItemType::Folder => 16,
    }
}

/// The setting item kind of a host code, if the code is known.
pub open spec fn effect_item_type_of(v: i32) -> Option<EffectItemType> {
    if v == 1 {
        Some(EffectItemType::Integer)
    } else if v == 2 {
        Some(EffectItemType::Number)
    } else if v == 3 {
        Some(EffectItemType::Check)
    } else if v == 4 {
        Some(EffectItemType::Text)
    } else if v == 5 {
        Some(EffectItemType::String)
    } else if v == 6 {
        Some(EffectItemType::File)
    } else if v == 7 {
        Some(EffectItemType::Color)
    } else if v == 8 {
        Some(EffectItemType::Select)
    } else if v == 9 {
        Some(EffectItemType::Scene)
    } else if v == 10 {
        Some(EffectItemType::Range)
    } else if v == 11 {
        Some(EffectItemType::Combo)
    } else if v == 12 {
        Some(EffectItemType::Mask)
    } else if v == 13 {
        Some(EffectItemType::Font)
    } else if v == 14 {
        Some(EffectItemType::Figure)
    } else if v == 15 {
        Some(EffectItemType::Data)
    } else if v == 16 {
        Some(EffectItemType::Folder)
    } else {
        None
    }
}

/// The host code of a module kind.
pub open spec fn module_type_code(t: ModuleType) -> i32 {
    match t {
        ModuleType::ScriptFilter => 1,
        ModuleType::ScriptObject => 2,
        ModuleType::ScriptCamera => 3,
        ModuleType::ScriptTrack => 4,
        ModuleType::ScriptModule => 5,
        ModuleType::PluginInput => 6,
        ModuleType::PluginOutput => 7,
        ModuleType::PluginFilter => 8,
        ModuleType::PluginGeneric => 9,
    }
}

/// The module kind of a host code, if the code is known.
pub open spec fn module_type_of(v: i32) -> Option<ModuleType> {
    if v == 1 {
        Some(ModuleType::ScriptFilter)
    } else if v == 2 {
        Some(ModuleType::ScriptObject)
    } else if v == 3 {
        Some(ModuleType::ScriptCamera)
    } else if v == 4 {
        Some(ModuleType::ScriptTrack)
    } else if v == 5 {
        Some(ModuleType::ScriptModule)
    } else if v == 6 {
        Some(ModuleType::PluginInput)
    } else if v == 7 {
        Some(ModuleType::PluginOutput)
    } else if v == 8 {
        Some(ModuleType::PluginFilter)
    } else if v == 9 {
        Some(ModuleType::PluginGeneric)
    } else {
        None
    }
}

/// The host code of an editing state.
pub open spec fn edit_state_code(s: EditState) -> i32 {
    match s {
        EditState::Edit => 0,
        EditState::Preview => 1,
        EditState::Save => 2,
    }
}

/// The editing state of a host code, if the code is known.
pub open spec fn edit_state_of(v: i32) -> Option<EditState> {
    if v == 0 {
        Some(EditState::Edit)
    } else if v == 1 {
        Some(EditState::Preview)
    } else if v == 2 {
        Some(EditState::Save)
    } else {
        None
    }
}

/// A known code as `Ok`, an unknown one as `Err(())`.
pub open spec fn known<T>(o: Option<T>) -> Result<T, ()> {
    match o {
        Some(t) => Ok(t),
        None => Err(()),
    }
}

impl TryFrom<i32> for EffectType {
    type Error = ();

    fn try_from(value: i32) -> (r: Result<Self, ()>)
        ensures
            r == known(effect_type_of(value)),
    {
        match value {
            1 => Ok(EffectType::Filter),
            2 => Ok(EffectType::Input),
            3 => Ok(EffectType::SceneChange),
            4 => Ok(EffectType::Control),
            5 => Ok(EffectType::Output),
            _ => Err(()),
        }
    }
}

impl vstd::std_specs::convert::TryFromSpecImpl<i32> for EffectType {
    open spec fn obeys_try_from_spec() -> bool {
        true
    }

    open spec fn try_from_spec(v: i32) -> Result<Self, ()> {
        known(effect_type_of(v))
    }
}

impl From<EffectType> for i32 {
    fn from(value: EffectType) -> (r: i32) {
        match value {
            EffectType::Filter => 1,
            EffectType::Input => 2,
            EffectType::SceneChange => 3,
            EffectType::Control => 4,
            EffectType::Output => 5,
        }
    }
}

impl vstd::std_specs::convert::FromSpecImpl<EffectType> for i32 {
    open spec fn obeys_from_spec() -> bool {
        true
    }

    open spec fn from_spec(v: EffectType) -> i32 {
        effect_type_code(v)
    }
}

impl TryFrom<i32> for EffectItemType {
    type Error = ();

    fn try_from(value: i32) -> (r: Result<Self, ()>)
        ensures
            r == known(effect_item_type_of(value)),
    {
        match value {
            1 => Ok(EffectItemType::Integer),
            2 => Ok(EffectItemType::Number),
            3 => Ok(EffectItemType::Check),
            4 => Ok(EffectItemType::Text),
            5 => Ok(EffectItemType::String),
            6 => Ok(EffectItemType::File),
            7 => Ok(EffectItemType::Color),
            8 => Ok(EffectItemType::Select),
            9 => Ok(EffectItemType::Scene),
            10 => Ok(EffectItemType::Range),
            11 => Ok(EffectItemType::Combo),
            12 => Ok(EffectItemType::Mask),
            13 => Ok(EffectItemType::Font),
            14 => Ok(EffectItemType::Figure),
            15 => Ok(EffectItemType::Data),
            16 => Ok(EffectItemType::Folder),
            _ => Err(()),
        }
    }
}

impl vstd::std_specs::convert::TryFromSpecImpl<i32> for EffectItemType {
    open spec fn obeys_try_from_spec() -> bool {
        true
    }

    open spec fn try_from_spec(v: i32) -> Result<Self, ()> {
        known(effect_item_type_of(v))
    }
}

impl From<EffectItemType> for i32 {
    fn from(value: EffectItemType) -> (r: i32) {
        match value {
            EffectItemType::Integer => 1,
            EffectItemType::Number => 2,
            EffectItemType::Check => 3,
            EffectItemType::Text => 4,
            EffectItemType::String => 5,
            EffectItemType::File => 6,
            EffectItemType::Color => 7,
            EffectItemType::Select => 8,
            EffectItemType::Scene => 9,
            EffectItemType::Range => 10,
            EffectItemType::Combo => 11,
            EffectItemType::Mask => 12,
            EffectItemType::Font => 13,
            EffectItemType::Figure => 14,
            EffectItemType::Data => 15,
            EffectItemType::Folder => 16,
        }
    }
}

impl vstd::std_specs::convert::FromSpecImpl<EffectItemType> for i32 {
    open spec fn obeys_from_spec() -> bool {
        true
    }

    open spec fn from_spec(v: EffectItemType) -> i32 {
        effect_item_type_code(v)
    }
}

impl TryFrom<i32> for ModuleType {
    type Error = ();

    fn try_from(value: i32) -> (r: Result<Self, ()>)
        ensures
            r == known(module_type_of(value)),
    {
        match value {
            1 => Ok(ModuleType::ScriptFilter),
            2 => Ok(ModuleType::ScriptObject),
            3 => Ok(ModuleType::ScriptCamera),
            4 => Ok(ModuleType::ScriptTrack),
            5 => Ok(ModuleType::ScriptModule),
            6 => Ok(ModuleType::PluginInput),
            7 => Ok(ModuleType::PluginOutput),
            8 => Ok(ModuleType::PluginFilter),
            9 => Ok(ModuleType::PluginGeneric),
            _ => Err(()),
        }
    }
}

impl vstd::std_specs::convert::TryFromSpecImpl<i32> for ModuleType {
    open spec fn obeys_try_from_spec() -> bool {
        true
    }

    open spec fn try_from_spec(v: i32) -> Result<Self, ()> {
        known(module_type_of(v))
    }
}

impl From<ModuleType> for i32 {
    fn from(value: ModuleType) -> (r: i32) {
        match value {
            ModuleType::ScriptFilter => 1,
            ModuleType::ScriptObject => 2,
            ModuleType::ScriptCamera => 3,
            ModuleType::ScriptTrack => 4,
            ModuleType::ScriptModule => 5,
            ModuleType::PluginInput => 6,
            ModuleType::PluginOutput => 7,
            ModuleType::PluginFilter => 8,
            ModuleType::PluginGeneric => 9,
        }
    }
}

impl vstd::std_specs::convert::FromSpecImpl<ModuleType> for i32 {
    open spec fn obeys_from_spec() -> bool {
        true
    }

    open spec fn from_spec(v: ModuleType) -> i32 {
        module_type_code(v)
    }
}

impl TryFrom<i32> for EditState {
    type Error = ();

    fn try_from(value: i32) -> (r: Result<Self, ()>)
        ensures
            r == known(edit_state_of(value)),
    {
        match value {
            0 => Ok(EditState::Edit),
            1 => Ok(EditState::Preview),
            2 => Ok(EditState::Save),
            _ => Err(()),
        }
    }
}

impl vstd::std_specs::convert::TryFromSpecImpl<i32> for EditState {
    open spec fn obeys_try_from_spec() -> bool {
        true
    }

    open spec fn try_from_spec(v: i32) -> Result<Self, ()> {
        known(edit_state_of(v))
    }
}

impl From<EditState> for i32 {
    fn from(value: EditState) -> (r: i32) {
        match value {
            EditState::Edit => 0,
            EditState::Preview => 1,
            EditState::Save => 2,
        }
    }
}

impl vstd::std_specs::convert::FromSpecImpl<EditState> for i32 {
    open spec fn obeys_from_spec() -> bool {
        true
    }

    open spec fn from_spec(v: EditState) -> i32 {
        edit_state_code(v)
    }
}

/// The setting item that the host lists with a name and a kind code, or
/// `None` when the kind code is unknown.
pub fn effect_item_info_from_raw(name: String, item_type: i32) -> (r: Option<EffectItemInfo>)
    ensures
        r is Some <==> effect_item_type_of(item_type) is Some,
        r matches Some(i) ==> i.name == name && Some(i.item_type) == effect_item_type_of(
            item_type,
        ),
{
    match EffectItemType::try_from(item_type) {
        Ok(item_type) => Some(EffectItemInfo { name, item_type }),
        Err(()) => None,
    }
}

/// The effect that the host lists with a name, a kind code and flag bits, or
/// `None` when the kind code is unknown.
pub fn effect_from_raw(name: String, effect_type: i32, flag: i32) -> (r: Option<Effect>)
    ensures
        r is Some <==> effect_type_of(effect_type) is Some,
        r matches Some(e) ==> e.name == name && Some(e.effect_type) == effect_type_of(effect_type)
            && e.flag == effect_flags_of(flag),
{
    match EffectType::try_from(effect_type) {
        Ok(effect_type) => Some(Effect { name, effect_type, flag: EffectFlag::from_bits(flag) }),
        Err(()) => None,
    }
}

/// The module that the host lists with a kind code, a name and an
/// information text, or `None` when the kind code is unknown.
pub fn module_info_from_raw(module_type: i32, name: String, information: String) -> (r: Option<
    ModuleInfo,
>)
    ensures
        r is Some <==> module_type_of(module_type) is Some,
        r matches Some(m) ==> m.name == name && m.information == information && Some(
            m.module_type,
        ) == module_type_of(module_type),
{
    match ModuleType::try_from(module_type) {
        Ok(module_type) => Some(ModuleInfo { module_type, name, information }),
        Err(()) => None,
    }
}

/// The editing state of a host code; an unknown code is the error
/// [`EditHandleError::UnknownEditState`] with the code.
pub fn edit_state_from_raw(state: i32) -> (r: Result<EditState, EditHandleError>)
    ensures
        r is Ok <==> edit_state_of(state) is Some,
        r matches Ok(s) ==> Some(s) == edit_state_of(state),
        r matches Err(e) ==> e == EditHandleError::UnknownEditState(state),
{
    match EditState::try_from(state) {
        Ok(s) => Ok(s),
        Err(()) => Err(EditHandleError::UnknownEditState(state)),
    }
}

/// Every effect kind reads back from its host code, and a code reads as a kind
/// exactly when it is that kind's code.
pub proof fn lemma_effect_type_codes(t: EffectType, v: i32)
    ensures
        effect_type_of(effect_type_code(t)) == Some(t),
        effect_type_of(v) matches Some(u) ==> effect_type_code(u) == v,
{
}

/// Every setting item kind reads back from its host code, and a code reads as
/// a kind exactly when it is that kind's code.
pub proof fn lemma_effect_item_type_codes(t: EffectItemType, v: i32)
    ensures
        effect_item_type_of(effect_item_type_code(t)) == Some(t),
        effect_item_type_of(v) matches Some(u) ==> effect_item_type_code(u) == v,
{
}

/// Every module kind reads back from its host code, and a code reads as a kind
/// exactly when it is that kind's code.
pub proof fn lemma_module_type_codes(t: ModuleType, v: i32)
    ensures
        module_type_of(module_type_code(t)) == Some(t),
        module_type_of(v) matches Some(u) ==> module_type_code(u) == v,
{
}

/// Every editing state reads back from its host code, and a code reads as a
/// state exactly when it is that state's code.
pub proof fn lemma_edit_state_codes(s: EditState, v: i32)
    ensures
        edit_state_of(edit_state_code(s)) == Some(s),
        edit_state_of(v) matches Some(u) ==> edit_state_code(u) == v,
{
}

/// The host numbers effect kinds from 1: filter 1, input 2, scene change 3,
/// control 4 and output 5; no other number names a kind.
pub proof fn lemma_effect_type_table(v: i32)
    ensures
        effect_type_code(EffectType::Filter) == 1,
        effect_type_code(EffectType::Input) == 2,
        effect_type_code(EffectType::SceneChange) == 3,
        effect_type_code(EffectType::Control) == 4,
        effect_type_code(EffectType::Output) == 5,
        effect_type_of(v) is Some <==> 1 <= v <= 5,
{
}

/// The host numbers setting item kinds from 1: integer 1, number 2, check 3,
/// text 4, string 5, file 6, colour 7, select 8, scene 9, range 10, combo 11,
/// mask 12, font 13, figure 14, data 15 and folder 16; no other number names
/// a kind.
pub proof fn lemma_effect_item_type_table(v: i32)
    ensures
        effect_item_type_code(EffectItemType::Integer) == 1,
        effect_item_type_code(EffectItemType::Number) == 2,
        effect_item_type_code(EffectItemType::Check) == 3,
        effect_item_type_code(EffectItemType::Text) == 4,
        effect_item_type_code(EffectItemType::String) == 5,
        effect_item_type_code(EffectItemType::File) == 6,
        effect_item_type_code(EffectItemType::Color) == 7,
        effect_item_type_code(EffectItemType::Select) == 8,
        effect_item_type_code(EffectItemType::Scene) == 9,
        effect_item_type_code(EffectItemType::Range) == 10,
        effect_item_type_code(EffectItemType::Combo) == 11,
        effect_item_type_code(EffectItemType::Mask) == 12,
        effect_item_type_code(EffectItemType::Font) == 13,
        effect_item_type_code(EffectItemType::Figure) == 14,
        effect_item_type_code(EffectItemType::Data) == 15,
        effect_item_type_code(EffectItemType::Folder) == 16,
        effect_item_type_of(v) is Some <==> 1 <= v <= 16,
{
}

/// The host numbers module kinds from 1: the five script kinds (filter 1,
/// object 2, camera 3, track 4, module 5), then the plugin kinds (input 6,
/// output 7, filter 8, generic 9); no other number names a kind.
pub proof fn lemma_module_type_table(v: i32)
    ensures
        module_type_code(ModuleType::ScriptFilter) == 1,
        module_type_code(ModuleType::ScriptObject) == 2,
        module_type_code(ModuleType::ScriptCamera) == 3,
        module_type_code(ModuleType::ScriptTrack) == 4,
        module_type_code(ModuleType::ScriptModule) == 5,
        module_type_code(ModuleType::PluginInput) == 6,
        module_type_code(ModuleType::PluginOutput) == 7,
        module_type_code(ModuleType::PluginFilter) == 8,
        module_type_code(ModuleType::PluginGeneric) == 9,
        module_type_of(v) is Some <==> 1 <= v <= 9,
{
}

/// The host numbers editing states from 0: editing 0, preview 1 and saving 2;
/// no other number names a state.
pub proof fn lemma_edit_state_table(v: i32)
    ensures
        edit_state_code(EditState::Edit) == 0,
        edit_state_code(EditState::Preview) == 1,
        edit_state_code(EditState::Save) == 2,
        edit_state_of(v) is Some <==> 0 <= v <= 2,
{
}

} // verus!
