//! The project as an edit section sees it: the editing information, objects'
//! places on the layers, palettes, and the walks over layers and objects.

use vstd::prelude::*;
use crate::common::rational::{fraction_parts_ok, new_fraction, reduced_fraction};
use crate::common::{NullByteError, Rational32};
use crate::text::{decimal, push_char, push_decimal, push_str};

verus! {

/// The editing information of the current scene.
///
/// Frame and layer numbers count from 0, unlike the numbers that the host's
/// interface shows.
#[derive(Debug, Clone, Copy)]
#[non_exhaustive]
pub struct EditInfo {
    /// The scene width.
    pub width: usize,
    /// The scene height.
    pub height: usize,
    /// The frame rate.
    pub fps: Rational32,
    /// The sample rate.
    pub sample_rate: usize,
    /// The frame under the cursor.
    pub frame: usize,
    /// The selected layer.
    pub layer: usize,
    /// The last frame that holds an object.
    pub frame_max: usize,
    /// The last layer that holds an object.
    pub layer_max: usize,
    /// The first frame shown in the layer editor.
    pub display_frame_start: usize,
    /// The first layer shown in the layer editor.
    pub display_layer_start: usize,
    /// About how many frames the layer editor shows.
    pub display_frame_num: usize,
    /// About how many layers the layer editor shows.
    pub display_layer_num: usize,
    /// The first frame of the selected range, if a range is selected.
    pub select_range_start: Option<usize>,
    /// The last frame of the selected range, if a range is selected.
    pub select_range_end: Option<usize>,
    /// The scene's ID.
    pub scene_id: i32,
}

/// The end of a selected range as the host reports it: a frame number, or a
/// negative number when nothing is selected.
pub open spec fn selected_frame(raw: i32) -> Option<usize> {
    if raw >= 0 {
        Some(raw as usize)
    } else {
        None
    }
}

/// Reads the end of a selected range: `None` for a negative number.
pub fn selected_frame_from_raw(raw: i32) -> (r: Option<usize>)
    ensures
        r == selected_frame(raw),
{
    if raw >= 0 {
        Some(raw as usize)
    } else {
        None
    }
}

/// The editing information as the host reports it, in its own numbers.
#[derive(Debug, Clone, Copy)]
pub struct RawEditInfo {
    /// The scene width.
    pub width: i32,
    /// The scene height.
    pub height: i32,
    /// The numerator of the frame rate.
    pub rate: i32,
    /// The denominator of the frame rate.
    pub scale: i32,
    /// The sample rate.
    pub sample_rate: i32,
    /// The frame under the cursor.
    pub frame: i32,
    /// The selected layer.
    pub layer: i32,
    /// The last frame that holds an object.
    pub frame_max: i32,
    /// The last layer that holds an object.
    pub layer_max: i32,
    /// The first frame shown in the layer editor.
    pub display_frame_start: i32,
    /// The first layer shown in the layer editor.
    pub display_layer_start: i32,
    /// About how many frames the layer editor shows.
    pub display_frame_num: i32,
    /// About how many layers the layer editor shows.
    pub display_layer_num: i32,
    /// The first frame of the selected range, negative when none is selected.
    pub select_range_start: i32,
    /// The last frame of the selected range, negative when none is selected.
    pub select_range_end: i32,
    /// The scene's ID.
    pub scene_id: i32,
}

impl EditInfo {
    /// The editing information that the host reports: each count is taken
    /// as it is (as `as` converts), the frame rate is the reduced fraction
    /// `rate / scale`, and a negative end of the selected range means that
    /// nothing is selected.
    pub fn from_raw(raw: &RawEditInfo) -> (r: Self)
        requires
            fraction_parts_ok(raw.rate, raw.scale),
        ensures
            r.width == raw.width as usize,
            r.height == raw.height as usize,
            r.fps == reduced_fraction(raw.rate, raw.scale),
            r.sample_rate == raw.sample_rate as usize,
            r.frame == raw.frame as usize,
            r.layer == raw.layer as usize,
            r.frame_max == raw.frame_max as usize,
            r.layer_max == raw.layer_max as usize,
            r.display_frame_start == raw.display_frame_start as usize,
            r.display_layer_start == raw.display_layer_start as usize,
            r.display_frame_num == raw.display_frame_num as usize,
            r.display_layer_num == raw.display_layer_num as usize,
            r.select_range_start == selected_frame(raw.select_range_start),
            r.select_range_end == selected_frame(raw.select_range_end),
            r.scene_id == raw.scene_id,
    {
        EditInfo {
            width: raw.width as usize,
            height: raw.height as usize,
            fps: new_fraction(raw.rate, raw.scale),
            sample_rate: raw.sample_rate as usize,
            frame: raw.frame as usize,
            layer: raw.layer as usize,
            frame_max: raw.frame_max as usize,
            layer_max: raw.layer_max as usize,
            display_frame_start: raw.display_frame_start as usize,
            display_layer_start: raw.display_layer_start as usize,
            display_frame_num: raw.display_frame_num as usize,
            display_layer_num: raw.display_layer_num as usize,
            select_range_start: selected_frame_from_raw(raw.select_range_start),
            select_range_end: selected_frame_from_raw(raw.select_range_end),
            scene_id: raw.scene_id,
        }
    }
}

/// Where an object lies: its layer and its first and last frame.
#[derive(Debug, Clone, Copy)]
pub struct ObjectLayerFrame {
    /// The layer.
    pub layer: usize,
    /// The first frame.
    pub start: usize,
    /// The last frame.
    pub end: usize,
}

impl ObjectLayerFrame {
    /// The frames of the object as a half-open range.
    pub fn frame_range(&self) -> (r: std::ops::Range<usize>)
        requires
            self.end < usize::MAX,
        ensures
            r.start == self.start,
            r.end == self.end + 1,
    {
        self.start..(self.end + 1)
    }

    /// The frames of the object as an inclusive range.
    pub fn frame_range_inclusive(&self) -> (r: std::ops::RangeInclusive<usize>)
        ensures
            r@.start == self.start,
            r@.end == self.end,
            !r@.exhausted,
    {
        self.start..=self.end
    }
}

/// A layer and a frame.
#[derive(Debug, Clone, Copy)]
pub struct LayerFrameData {
    /// The layer.
    pub layer: usize,
    /// The frame.
    pub frame: usize,
}

/// The colour palette of the host.
#[derive(Debug, Clone, PartialEq, Eq)]
pub struct PaletteInfo {
    /// The palette colours, in order.
    pub colors: Vec<PaletteColor>,
}

/// A palette colour.
#[derive(Debug, Clone, Copy, PartialEq, Eq, Hash)]
pub struct PaletteColor {
    /// Red.
    pub r: u8,
    /// Green.
    pub g: u8,
    /// Blue.
    pub b: u8,
    /// Alpha.
    pub a: u8,
}

/// How closely the host checks whether it can open a media file.
#[derive(Debug, Clone, Copy)]
pub enum MediaFileSupportMode {
    /// Only the file extension is checked.
    ExtensionOnly,
    /// The file is opened to check it.
    Strict,
}

/// The key by which the host names the `index`-th effect called `name` on an
/// object: the name, a colon and the index.
pub open spec fn effect_key_text(name: Seq<char>, index: nat) -> Seq<char> {
    name + seq![':'] + decimal(index)
}

/// The key by which the host names the `effect_index`-th effect called
/// `effect_name`, such as `Blur:0`.
pub fn effect_key(effect_name: &str, effect_index: usize) -> (r: String)
    ensures
        r@ == effect_key_text(effect_name@, effect_index as nat),
{
    let mut s = String::new();
    push_str(&mut s, effect_name);
    push_char(&mut s, ':');
    push_decimal(&mut s, effect_index as u64);
    s
}

/// A layer of an edit section, for calling the section's layer operations.
pub struct EditSectionLayerCaller<'a, S> {
    edit_section: &'a S,
    /// The layer number.
    pub index: usize,
}

impl<'a, S> EditSectionLayerCaller<'a, S> {
    /// The given layer of an edit section.
    pub fn new(edit_section: &'a S, layer: usize) -> (r: Self)
        ensures
            r.layer_number() == layer,
            r.section() == edit_section,
    {
        EditSectionLayerCaller { edit_section, index: layer }
    }

    /// The edit section.
    pub closed spec fn section(&self) -> &'a S {
        self.edit_section
    }

    /// The layer number.
    pub closed spec fn layer_number(&self) -> usize {
        self.index
    }

    /// The edit section.
    pub fn edit_section(&self) -> (r: &'a S)
        ensures
            r == self.section(),
    {
        self.edit_section
    }

    /// A walk over the objects of this layer, by ascending first frame.
    pub fn objects(&self) -> (r: EditSectionLayerObjectsIterator<'a, S>)
        ensures
            r.layer() == self.layer_number(),
            r.next_frame() == 0,
            r.section() == self.section(),
    {
        EditSectionLayerObjectsIterator {
            edit_section: self.edit_section,
            layer: self.index,
            next_frame: 0,
        }
    }
}

/// A walk over the objects of one layer: each search for the next object
/// starts after the end of the object found before.
pub struct EditSectionLayerObjectsIterator<'a, S> {
    edit_section: &'a S,
    layer: usize,
    next_frame: usize,
}

impl<'a, S> EditSectionLayerObjectsIterator<'a, S> {
    /// The layer that is walked.
    pub closed spec fn layer(&self) -> usize {
        self.layer
    }

    /// The frame from which the next search starts.
    pub closed spec fn next_frame(&self) -> usize {
        self.next_frame
    }

    /// The edit section.
    pub closed spec fn section(&self) -> &'a S {
        self.edit_section
    }

    /// The edit section.
    pub fn edit_section(&self) -> (r: &'a S)
        ensures
            r == self.section(),
    {
        self.edit_section
    }

    /// The layer that is walked.
    pub fn layer_index(&self) -> (r: usize)
        ensures
            r == self.layer(),
    {
        self.layer
    }

    /// The frame from which the next search starts.
    pub fn search_frame(&self) -> (r: usize)
        ensures
            r == self.next_frame(),
    {
        self.next_frame
    }

    /// Records the object that the last search found: the next search starts
    /// on the frame after its end (or stays on the last frame there is).
    pub fn record_found(&mut self, found: &ObjectLayerFrame)
        ensures
            final(self).layer() == old(self).layer(),
            final(self).section() == old(self).section(),
            final(self).next_frame() == (if found.end < usize::MAX {
                found.end + 1
            } else {
                usize::MAX as int
            }),
    {
        self.next_frame = found.end.saturating_add(1);
    }
}

/// A walk over the layers of an edit section, from the first layer to the
/// last layer that holds an object, from either end.
pub struct EditSectionLayersIterator<'a, S> {
    edit_section: &'a S,
    current: usize,
    end: usize,
}

impl<'a, S> EditSectionLayersIterator<'a, S> {
    /// The next layer from the front.
    pub closed spec fn front(&self) -> usize {
        self.current
    }

    /// One past the next layer from the back.
    pub closed spec fn back(&self) -> usize {
        self.end
    }

    /// The layers that are left, from the front.
    pub open spec fn remaining(&self) -> nat {
        if self.front() < self.back() {
            (self.back() - self.front()) as nat
        } else {
            0
        }
    }

    /// A walk over the layers `0..=layer_max` of an edit section.
    pub fn new(edit_section: &'a S, layer_max: usize) -> (r: Self)
        ensures
            r.front() == 0,
            r.back() == (if layer_max < usize::MAX {
                layer_max + 1
            } else {
                usize::MAX as int
            }),
    {
        EditSectionLayersIterator { edit_section, current: 0, end: layer_max.saturating_add(1) }
    }

    /// The next layer from the front, if any is left.
    pub fn next_layer(&mut self) -> (r: Option<EditSectionLayerCaller<'a, S>>)
        ensures
            old(self).front() < old(self).back() ==> (r matches Some(c) && c.layer_number() == old(
                self,
            ).front() && final(self).front() == old(self).front() + 1 && final(self).back()
                == old(self).back()),
            old(self).front() >= old(self).back() ==> (r is None && *final(self) == *old(self)),
    {
        if self.current >= self.end {
            return None;
        }
        let layer = self.current;
        self.current = self.current + 1;
        Some(EditSectionLayerCaller::new(self.edit_section, layer))
    }

    /// The next layer from the back, if any is left.
    pub fn next_back_layer(&mut self) -> (r: Option<EditSectionLayerCaller<'a, S>>)
        ensures
            old(self).front() < old(self).back() ==> (r matches Some(c) && c.layer_number() == old(
                self,
            ).back() - 1 && final(self).back() == old(self).back() - 1 && final(self).front()
                == old(self).front()),
            old(self).front() >= old(self).back() ==> (r is None && *final(self) == *old(self)),
    {
        if self.current >= self.end {
            return None;
        }
        self.end = self.end - 1;
        Some(EditSectionLayerCaller::new(self.edit_section, self.end))
    }

    /// How many layers are left: the same number as lower and upper bound.
    pub fn size_hint(&self) -> (r: (usize, Option<usize>))
        ensures
            r.0 == self.remaining(),
            r.1 == Some(r.0),
    {
        let len = self.end.saturating_sub(self.current);
        (len, Some(len))
    }
}

/// An error of a call through an edit section.
#[derive(Debug)]
pub enum EditSectionError {
    /// The host reported that the call failed.
    ApiCallFailed,
    /// The object is not in the project.
    ObjectDoesNotExist,
    /// The effect is not in the project.
    EffectDoesNotExist,
    /// A UTF-8 string argument holds a NUL, at the given byte position.
    InputCstrContainsNull(usize),
    /// A string argument holds a NUL and cannot be passed to the host as a
    /// wide string.
    InputCwstrContainsNull(NullByteError),
    /// A number does not fit what the host takes or gives.
    ValueOutOfRange,
    /// The host returned bytes that are not UTF-8; the length of their valid
    /// prefix.
    NonUtf8Data(usize),
}

impl From<NullByteError> for EditSectionError {
    fn from(e: NullByteError) -> (r: Self) {
        EditSectionError::InputCwstrContainsNull(e)
    }
}

impl vstd::std_specs::convert::FromSpecImpl<NullByteError> for EditSectionError {
    open spec fn obeys_from_spec() -> bool {
        true
    }

    open spec fn from_spec(v: NullByteError) -> Self {
        EditSectionError::InputCwstrContainsNull(v)
    }
}

impl EditSectionError {
    /// The message that explains the error.
    pub fn message(&self) -> (r: String)
        ensures
            r@ == match self {
                EditSectionError::ApiCallFailed => "api call failed"@,
                EditSectionError::ObjectDoesNotExist => "object does not exist"@,
                EditSectionError::EffectDoesNotExist => "effect does not exist"@,
                EditSectionError::InputCstrContainsNull(
                    _,
                ) => "input utf-8 string contains null byte"@,
                EditSectionError::InputCwstrContainsNull(
                    _,
                ) => "input utf-16 string contains null byte"@,
                EditSectionError::ValueOutOfRange => "value is out of range"@,
                EditSectionError::NonUtf8Data(_) => "api returned non-utf8 data"@,
            },
    {
        let mut s = String::new();
        match self {
            EditSectionError::ApiCallFailed => push_str(&mut s, "api call failed"),
            EditSectionError::ObjectDoesNotExist => push_str(&mut s, "object does not exist"),
            EditSectionError::EffectDoesNotExist => push_str(&mut s, "effect does not exist"),
            EditSectionError::InputCstrContainsNull(_) => push_str(
                &mut s,
                "input utf-8 string contains null byte",
            ),
            EditSectionError::InputCwstrContainsNull(_) => push_str(
                &mut s,
                "input utf-16 string contains null byte",
            ),
            EditSectionError::ValueOutOfRange => push_str(&mut s, "value is out of range"),
            EditSectionError::NonUtf8Data(_) => push_str(&mut s, "api returned non-utf8 data"),
        }
        s
    }
}

/// Reads a count or an index that the host reports: a negative number is
/// out of range.
pub fn index_from_raw(raw: i32) -> (r: Result<usize, EditSectionError>)
    ensures
        r is Ok <==> raw >= 0,
        r matches Ok(n) ==> n == raw,
        r matches Err(e) ==> e is ValueOutOfRange,
{
    if raw >= 0 {
        Ok(raw as usize)
    } else {
        Err(EditSectionError::ValueOutOfRange)
    }
}

/// Converts a count or an index for the host, which takes an `i32`.
pub fn index_to_raw(n: usize) -> (r: Result<i32, EditSectionError>)
    ensures
        r is Ok <==> n <= i32::MAX,
        r matches Ok(v) ==> v == n,
        r matches Err(e) ==> e is ValueOutOfRange,
{
    if n <= i32::MAX as usize {
        Ok(n as i32)
    } else {
        Err(EditSectionError::ValueOutOfRange)
    }
}

/// Reads an index that the host reports as -1 when there is none, such as
/// the first frame of a section or the focused section.
pub fn optional_index_from_raw(raw: i32) -> (r: Result<Option<usize>, EditSectionError>)
    ensures
        raw == -1 ==> r matches Ok(None),
        raw >= 0 ==> (r matches Ok(Some(n)) && n == raw),
        raw < -1 ==> r matches Err(EditSectionError::ValueOutOfRange),
{
    if raw == -1 {
        Ok(None)
    } else {
        match index_from_raw(raw) {
            Ok(n) => Ok(Some(n)),
            Err(e) => Err(e),
        }
    }
}

/// Reads where the host says an object lies; each number must not be
/// negative.
pub fn object_layer_frame_from_raw(layer: i32, start: i32, end: i32) -> (r: Result<
    ObjectLayerFrame,
    EditSectionError,
>)
    ensures
        r is Ok <==> layer >= 0 && start >= 0 && end >= 0,
        r matches Ok(f) ==> f.layer == layer && f.start == start && f.end == end,
        r matches Err(e) ==> e is ValueOutOfRange,
{
    if layer < 0 || start < 0 || end < 0 {
        return Err(EditSectionError::ValueOutOfRange);
    }
    Ok(ObjectLayerFrame { layer: layer as usize, start: start as usize, end: end as usize })
}

/// The length of a list that the host fills in two calls, the first for its
/// length and the second for its items: the first answer must be positive
/// and the second must repeat it.
pub fn listed_len(first: i32, second: i32) -> (r: Result<usize, EditSectionError>)
    ensures
        r is Ok <==> first > 0 && second == first,
        r matches Ok(n) ==> n == first,
        r matches Err(e) ==> e is ApiCallFailed,
{
    if first <= 0 || second != first {
        Err(EditSectionError::ApiCallFailed)
    } else {
        Ok(first as usize)
    }
}

/// The number of items the host says it wrote into a buffer of
/// `buffer_len` slots: a negative number is out of range, and more items
/// than the buffer holds means that the call failed.
pub fn written_len(buffer_len: usize, actual: i32) -> (r: Result<usize, EditSectionError>)
    ensures
        r is Ok <==> 0 <= actual <= buffer_len,
        r matches Ok(n) ==> n == actual,
        actual < 0 ==> r matches Err(EditSectionError::ValueOutOfRange),
        actual > buffer_len ==> r matches Err(EditSectionError::ApiCallFailed),
{
    if actual < 0 {
        Err(EditSectionError::ValueOutOfRange)
    } else if actual as usize > buffer_len {
        Err(EditSectionError::ApiCallFailed)
    } else {
        Ok(actual as usize)
    }
}

/// The number of BPM entries the host reports in its first answer: `None`
/// when it reports none (0 or less), so that the list is empty and nothing
/// more is asked.
pub fn grid_bpm_count(first: i32) -> (r: Option<usize>)
    ensures
        r is Some <==> first > 0,
        r matches Some(n) ==> n == first,
{
    if first <= 0 {
        None
    } else {
        Some(first as usize)
    }
}

} // verus!
