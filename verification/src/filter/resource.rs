//! Image resources: the names by which drawing calls refer to images, and the
//! conversions between the four kinds of resource.

use vstd::prelude::*;
use crate::text::{has_prefix, push_str, same_text, starts_with, text_after};

verus! {

/// An image resource to draw from.
#[derive(Debug, Clone, PartialEq, Eq)]
pub enum DrawImageResource {
    /// The current image of the object.
    Object,
    /// A standard resource, by name.
    Resource(String),
    /// The temporary buffer.
    TempBuffer,
    /// A cache buffer, by name.
    CacheBuffer(String),
    /// An image file, by path.
    ImageFile(String),
}

/// An image resource to write to.
#[derive(Debug, Clone, PartialEq, Eq)]
pub enum WritableImageResource {
    /// The current image of the object.
    Object,
    /// A standard resource, by name.
    Resource(String),
    /// The temporary buffer.
    TempBuffer,
    /// A cache buffer, by name.
    CacheBuffer(String),
}

/// An image resource to read from.
#[derive(Debug, Clone, PartialEq, Eq)]
pub enum ReadableImageResource {
    /// The current image of the object.
    Object,
    /// A standard resource, by name.
    Resource(String),
    /// The frame buffer.
    Framebuffer,
    /// The temporary buffer.
    TempBuffer,
    /// A cache buffer, by name.
    CacheBuffer(String),
    /// An image file, by path.
    ImageFile(String),
    /// The random-number buffer.
    Random,
}

/// An image resource that a shader writes its output to.
#[derive(Debug, Clone, PartialEq, Eq)]
pub enum ShaderTargetResource {
    /// The current image of the object.
    Object,
    /// A standard resource, by name.
    Resource(String),
    /// The frame buffer.
    Framebuffer,
    /// The temporary buffer.
    TempBuffer,
    /// A cache buffer, by name.
    CacheBuffer(String),
}

/// The text by which the host names a draw resource.
pub open spec fn draw_text(r: DrawImageResource) -> Seq<char> {
    match r {
        DrawImageResource::Object => "object"@,
        DrawImageResource::Resource(n) => "resource:"@ + n@,
        DrawImageResource::TempBuffer => "tempbuffer"@,
        DrawImageResource::CacheBuffer(n) => "cache:"@ + n@,
        DrawImageResource::ImageFile(p) => "image:"@ + p@,
    }
}

/// The text by which the host names a writable resource.
pub open spec fn writable_text(r: WritableImageResource) -> Seq<char> {
    match r {
        WritableImageResource::Object => "object"@,
        WritableImageResource::Resource(n) => "resource:"@ + n@,
        WritableImageResource::TempBuffer => "tempbuffer"@,
        WritableImageResource::CacheBuffer(n) => "cache:"@ + n@,
    }
}

/// The text by which the host names a readable resource.
pub open spec fn readable_text(r: ReadableImageResource) -> Seq<char> {
    match r {
        ReadableImageResource::Object => "object"@,
        ReadableImageResource::Resource(n) => "resource:"@ + n@,
        ReadableImageResource::Framebuffer => "framebuffer"@,
        ReadableImageResource::TempBuffer => "tempbuffer"@,
        ReadableImageResource::CacheBuffer(n) => "cache:"@ + n@,
        ReadableImageResource::ImageFile(p) => "image:"@ + p@,
        ReadableImageResource::Random => "random"@,
    }
}

/// The text by which the host names a shader target.
pub open spec fn shader_text(r: ShaderTargetResource) -> Seq<char> {
    match r {
        ShaderTargetResource::Object => "object"@,
        ShaderTargetResource::Resource(n) => "resource:"@ + n@,
        ShaderTargetResource::Framebuffer => "framebuffer"@,
        ShaderTargetResource::TempBuffer => "tempbuffer"@,
        ShaderTargetResource::CacheBuffer(n) => "cache:"@ + n@,
    }
}

/// Whether a text names a draw resource.
pub open spec fn names_draw(t: Seq<char>) -> bool {
    ||| t == "object"@
    ||| t == "tempbuffer"@
    ||| starts_with(t, "resource:"@)
    ||| starts_with(t, "cache:"@)
    ||| starts_with(t, "image:"@)
}

/// Whether a text names a writable resource.
pub open spec fn names_writable(t: Seq<char>) -> bool {
    ||| t == "object"@
    ||| t == "tempbuffer"@
    ||| starts_with(t, "resource:"@)
    ||| starts_with(t, "cache:"@)
}

/// Whether a text names a readable resource.
pub open spec fn names_readable(t: Seq<char>) -> bool {
    ||| t == "object"@
    ||| t == "framebuffer"@
    ||| t == "tempbuffer"@
    ||| t == "random"@
    ||| starts_with(t, "resource:"@)
    ||| starts_with(t, "cache:"@)
    ||| starts_with(t, "image:"@)
}

/// Whether a text names a shader target.
pub open spec fn names_shader(t: Seq<char>) -> bool {
    ||| t == "object"@
    ||| t == "framebuffer"@
    ||| t == "tempbuffer"@
    ||| starts_with(t, "resource:"@)
    ||| starts_with(t, "cache:"@)
}

/// `r` is what reading `t` as a draw resource gives: the resource that `t`
/// names, or `None` when `t` names none.
pub open spec fn parsed_draw(t: Seq<char>, r: Option<DrawImageResource>) -> bool {
    match r {
        Some(d) => names_draw(t) && draw_text(d) == t,
        None => !names_draw(t),
    }
}

/// `r` is what reading `t` as a writable resource gives.
pub open spec fn parsed_writable(t: Seq<char>, r: Option<WritableImageResource>) -> bool {
    match r {
        Some(d) => names_writable(t) && writable_text(d) == t,
        None => !names_writable(t),
    }
}

/// `r` is what reading `t` as a readable resource gives.
pub open spec fn parsed_readable(t: Seq<char>, r: Option<ReadableImageResource>) -> bool {
    match r {
        Some(d) => names_readable(t) && readable_text(d) == t,
        None => !names_readable(t),
    }
}

/// `r` is what reading `t` as a shader target gives.
pub open spec fn parsed_shader(t: Seq<char>, r: Option<ShaderTargetResource>) -> bool {
    match r {
        Some(d) => names_shader(t) && shader_text(d) == t,
        None => !names_shader(t),
    }
}

/// The name that follows a prefix of `s`, when `s` begins with it.
fn name_after(s: &str, prefix: &str) -> (r: String)
    requires
        starts_with(s@, prefix@),
    ensures
        prefix@ + r@ == s@,
{
    let k = prefix.unicode_len();
    let r = text_after(s, k);
    assert(prefix@ + r@ =~= s@);
    r
}

/// Reads a text as a draw resource; `None` when it names none.
pub fn parse_draw(s: &str) -> (r: Option<DrawImageResource>)
    ensures
        parsed_draw(s@, r),
{
    if same_text(s, "object") {
        Some(DrawImageResource::Object)
    } else if same_text(s, "tempbuffer") {
        Some(DrawImageResource::TempBuffer)
    } else if has_prefix(s, "resource:") {
        Some(DrawImageResource::Resource(name_after(s, "resource:")))
    } else if has_prefix(s, "cache:") {
        Some(DrawImageResource::CacheBuffer(name_after(s, "cache:")))
    } else if has_prefix(s, "image:") {
        Some(DrawImageResource::ImageFile(name_after(s, "image:")))
    } else {
        None
    }
}

/// Reads a text as a writable resource; `None` when it names none.
pub fn parse_writable(s: &str) -> (r: Option<WritableImageResource>)
    ensures
        parsed_writable(s@, r),
{
    if same_text(s, "object") {
        Some(WritableImageResource::Object)
    } else if same_text(s, "tempbuffer") {
        Some(WritableImageResource::TempBuffer)
    } else if has_prefix(s, "resource:") {
        Some(WritableImageResource::Resource(name_after(s, "resource:")))
    } else if has_prefix(s, "cache:") {
        Some(WritableImageResource::CacheBuffer(name_after(s, "cache:")))
    } else {
        None
    }
}

/// Reads a text as a readable resource; `None` when it names none.
pub fn parse_readable(s: &str) -> (r: Option<ReadableImageResource>)
    ensures
        parsed_readable(s@, r),
{
    if same_text(s, "object") {
        Some(ReadableImageResource::Object)
    } else if same_text(s, "framebuffer") {
        Some(ReadableImageResource::Framebuffer)
    } else if same_text(s, "tempbuffer") {
        Some(ReadableImageResource::TempBuffer)
    } else if same_text(s, "random") {
        Some(ReadableImageResource::Random)
    } else if has_prefix(s, "resource:") {
        Some(ReadableImageResource::Resource(name_after(s, "resource:")))
    } else if has_prefix(s, "cache:") {
        Some(ReadableImageResource::CacheBuffer(name_after(s, "cache:")))
    } else if has_prefix(s, "image:") {
        Some(ReadableImageResource::ImageFile(name_after(s, "image:")))
    } else {
        None
    }
}

/// Reads a text as a shader target; `None` when it names none.
pub fn parse_shader(s: &str) -> (r: Option<ShaderTargetResource>)
    ensures
        parsed_shader(s@, r),
{
    if same_text(s, "object") {
        Some(ShaderTargetResource::Object)
    } else if same_text(s, "framebuffer") {
        Some(ShaderTargetResource::Framebuffer)
    } else if same_text(s, "tempbuffer") {
        Some(ShaderTargetResource::TempBuffer)
    } else if has_prefix(s, "resource:") {
        Some(ShaderTargetResource::Resource(name_after(s, "resource:")))
    } else if has_prefix(s, "cache:") {
        Some(ShaderTargetResource::CacheBuffer(name_after(s, "cache:")))
    } else {
        None
    }
}

impl DrawImageResource {
    /// The text by which the host names this resource, such as `object` or
    /// `cache:name`.
    pub fn to_string(&self) -> (r: String)
        ensures
            r@ == draw_text(*self),
    {
        let mut s = String::new();
        match self {
            DrawImageResource::Object => push_str(&mut s, "object"),
            DrawImageResource::Resource(n) => {
                push_str(&mut s, "resource:");
                push_str(&mut s, n.as_str());
            },
            DrawImageResource::TempBuffer => push_str(&mut s, "tempbuffer"),
            DrawImageResource::CacheBuffer(n) => {
                push_str(&mut s, "cache:");
                push_str(&mut s, n.as_str());
            },
            DrawImageResource::ImageFile(p) => {
                push_str(&mut s, "image:");
                push_str(&mut s, p.as_str());
            },
        }
        s
    }
}

impl WritableImageResource {
    /// The text by which the host names this resource.
    pub fn to_string(&self) -> (r: String)
        ensures
            r@ == writable_text(*self),
    {
        let mut s = String::new();
        match self {
            WritableImageResource::Object => push_str(&mut s, "object"),
            WritableImageResource::Resource(n) => {
                push_str(&mut s, "resource:");
                push_str(&mut s, n.as_str());
            },
            WritableImageResource::TempBuffer => push_str(&mut s, "tempbuffer"),
            WritableImageResource::CacheBuffer(n) => {
                push_str(&mut s, "cache:");
                push_str(&mut s, n.as_str());
            },
        }
        s
    }
}

impl ReadableImageResource {
    /// The text by which the host names this resource.
    pub fn to_string(&self) -> (r: String)
        ensures
            r@ == readable_text(*self),
    {
        let mut s = String::new();
        match self {
            ReadableImageResource::Object => push_str(&mut s, "object"),
            ReadableImageResource::Resource(n) => {
                push_str(&mut s, "resource:");
                push_str(&mut s, n.as_str());
            },
            ReadableImageResource::Framebuffer => push_str(&mut s, "framebuffer"),
            ReadableImageResource::TempBuffer => push_str(&mut s, "tempbuffer"),
            ReadableImageResource::CacheBuffer(n) => {
                push_str(&mut s, "cache:");
                push_str(&mut s, n.as_str());
            },
            ReadableImageResource::ImageFile(p) => {
                push_str(&mut s, "image:");
                push_str(&mut s, p.as_str());
            },
            ReadableImageResource::Random => push_str(&mut s, "random"),
        }
        s
    }
}

impl ShaderTargetResource {
    /// The text by which the host names this resource.
    pub fn to_string(&self) -> (r: String)
        ensures
            r@ == shader_text(*self),
    {
        let mut s = String::new();
        match self {
            ShaderTargetResource::Object => push_str(&mut s, "object"),
            ShaderTargetResource::Resource(n) => {
                push_str(&mut s, "resource:");
                push_str(&mut s, n.as_str());
            },
            ShaderTargetResource::Framebuffer => push_str(&mut s, "framebuffer"),
            ShaderTargetResource::TempBuffer => push_str(&mut s, "tempbuffer"),
            ShaderTargetResource::CacheBuffer(n) => {
                push_str(&mut s, "cache:");
                push_str(&mut s, n.as_str());
            },
        }
        s
    }
}

/// Conversion of an image resource to the other kinds of resource, by the
/// text that names it: a kind that has a resource of that name gives it,
/// another gives `None`.
pub trait AsImageResource {
    /// The text by which the host names this resource.
    spec fn resource_text(&self) -> Seq<char>;

    /// The draw resource of the same name.
    fn as_draw_image_resource(&self) -> (r: Option<DrawImageResource>)
        ensures
            parsed_draw(self.resource_text(), r),
    ;

    /// The writable resource of the same name.
    fn as_writable_image_resource(&self) -> (r: Option<WritableImageResource>)
        ensures
            parsed_writable(self.resource_text(), r),
    ;

    /// The readable resource of the same name.
    fn as_readable_image_resource(&self) -> (r: Option<ReadableImageResource>)
        ensures
            parsed_readable(self.resource_text(), r),
    ;

    /// The shader target of the same name.
    fn as_shader_target_resource(&self) -> (r: Option<ShaderTargetResource>)
        ensures
            parsed_shader(self.resource_text(), r),
    ;
}

impl AsImageResource for str {
    open spec fn resource_text(&self) -> Seq<char> {
        self@
    }

    fn as_draw_image_resource(&self) -> (r: Option<DrawImageResource>) {
        parse_draw(self)
    }

    fn as_writable_image_resource(&self) -> (r: Option<WritableImageResource>) {
        parse_writable(self)
    }

    fn as_readable_image_resource(&self) -> (r: Option<ReadableImageResource>) {
        parse_readable(self)
    }

    fn as_shader_target_resource(&self) -> (r: Option<ShaderTargetResource>) {
        parse_shader(self)
    }
}

impl AsImageResource for String {
    open spec fn resource_text(&self) -> Seq<char> {
        self@
    }

    fn as_draw_image_resource(&self) -> (r: Option<DrawImageResource>) {
        parse_draw(self.as_str())
    }

    fn as_writable_image_resource(&self) -> (r: Option<WritableImageResource>) {
        parse_writable(self.as_str())
    }

    fn as_readable_image_resource(&self) -> (r: Option<ReadableImageResource>) {
        parse_readable(self.as_str())
    }

    fn as_shader_target_resource(&self) -> (r: Option<ShaderTargetResource>) {
        parse_shader(self.as_str())
    }
}

impl AsImageResource for DrawImageResource {
    open spec fn resource_text(&self) -> Seq<char> {
        draw_text(*self)
    }

    fn as_draw_image_resource(&self) -> (r: Option<DrawImageResource>) {
        let s = self.to_string();
        parse_draw(s.as_str())
    }

    fn as_writable_image_resource(&self) -> (r: Option<WritableImageResource>) {
        let s = self.to_string();
        parse_writable(s.as_str())
    }

    fn as_readable_image_resource(&self) -> (r: Option<ReadableImageResource>) {
        let s = self.to_string();
        parse_readable(s.as_str())
    }

    fn as_shader_target_resource(&self) -> (r: Option<ShaderTargetResource>) {
        let s = self.to_string();
        parse_shader(s.as_str())
    }
}

impl AsImageResource for WritableImageResource {
    open spec fn resource_text(&self) -> Seq<char> {
        writable_text(*self)
    }

    fn as_draw_image_resource(&self) -> (r: Option<DrawImageResource>) {
        let s = self.to_string();
        parse_draw(s.as_str())
    }

    fn as_writable_image_resource(&self) -> (r: Option<WritableImageResource>) {
        let s = self.to_string();
        parse_writable(s.as_str())
    }

    fn as_readable_image_resource(&self) -> (r: Option<ReadableImageResource>) {
        let s = self.to_string();
        parse_readable(s.as_str())
    }

    fn as_shader_target_resource(&self) -> (r: Option<ShaderTargetResource>) {
        let s = self.to_string();
        parse_shader(s.as_str())
    }
}

impl AsImageResource for ReadableImageResource {
    open spec fn resource_text(&self) -> Seq<char> {
        readable_text(*self)
    }

    fn as_draw_image_resource(&self) -> (r: Option<DrawImageResource>) {
        let s = self.to_string();
        parse_draw(s.as_str())
    }

    fn as_writable_image_resource(&self) -> (r: Option<WritableImageResource>) {
        let s = self.to_string();
        parse_writable(s.as_str())
    }

    fn as_readable_image_resource(&self) -> (r: Option<ReadableImageResource>) {
        let s = self.to_string();
        parse_readable(s.as_str())
    }

    fn as_shader_target_resource(&self) -> (r: Option<ShaderTargetResource>) {
        let s = self.to_string();
        parse_shader(s.as_str())
    }
}

impl AsImageResource for ShaderTargetResource {
    open spec fn resource_text(&self) -> Seq<char> {
        shader_text(*self)
    }

    fn as_draw_image_resource(&self) -> (r: Option<DrawImageResource>) {
        let s = self.to_string();
        parse_draw(s.as_str())
    }

    fn as_writable_image_resource(&self) -> (r: Option<WritableImageResource>) {
        let s = self.to_string();
        parse_writable(s.as_str())
    }

    fn as_readable_image_resource(&self) -> (r: Option<ReadableImageResource>) {
        let s = self.to_string();
        parse_readable(s.as_str())
    }

    fn as_shader_target_resource(&self) -> (r: Option<ShaderTargetResource>) {
        let s = self.to_string();
        parse_shader(s.as_str())
    }
}

/// Two draw resources are of the same kind and carry the same name.
pub open spec fn same_draw(a: DrawImageResource, b: DrawImageResource) -> bool {
    match (a, b) {
        (DrawImageResource::Object, DrawImageResource::Object) => true,
        (DrawImageResource::Resource(x), DrawImageResource::Resource(y)) => x@ == y@,
        (DrawImageResource::TempBuffer, DrawImageResource::TempBuffer) => true,
        (DrawImageResource::CacheBuffer(x), DrawImageResource::CacheBuffer(y)) => x@ == y@,
        (DrawImageResource::ImageFile(x), DrawImageResource::ImageFile(y)) => x@ == y@,
        _ => false,
    }
}

proof fn lemma_literals()
    ensures
        "object"@ =~= seq!['o', 'b', 'j', 'e', 'c', 't'],
        "tempbuffer"@ =~= seq!['t', 'e', 'm', 'p', 'b', 'u', 'f', 'f', 'e', 'r'],
        "framebuffer"@ =~= seq!['f', 'r', 'a', 'm', 'e', 'b', 'u', 'f', 'f', 'e', 'r'],
        "random"@ =~= seq!['r', 'a', 'n', 'd', 'o', 'm'],
        "resource:"@ =~= seq!['r', 'e', 's', 'o', 'u', 'r', 'c', 'e', ':'],
        "cache:"@ =~= seq!['c', 'a', 'c', 'h', 'e', ':'],
        "image:"@ =~= seq!['i', 'm', 'a', 'g', 'e', ':'],
{
    reveal_strlit("object");
    reveal_strlit("tempbuffer");
    reveal_strlit("framebuffer");
    reveal_strlit("random");
    reveal_strlit("resource:");
    reveal_strlit("cache:");
    reveal_strlit("image:");
}

/// A prefixed name determines the name.
proof fn lemma_prefixed_names(p: Seq<char>, x: Seq<char>, y: Seq<char>)
    requires
        p + x == p + y,
    ensures
        x == y,
{
    assert(x =~= (p + x).subrange(p.len() as int, (p + x).len() as int));
    assert(y =~= (p + y).subrange(p.len() as int, (p + y).len() as int));
}

proof fn lemma_prefixed_starts_with(p: Seq<char>, x: Seq<char>)
    ensures
        starts_with(p + x, p),
{
    assert((p + x).subrange(0, p.len() as int) =~= p);
}

/// The text of a draw resource determines the resource.
pub proof fn lemma_draw_text_injective(a: DrawImageResource, b: DrawImageResource)
    requires
        draw_text(a) == draw_text(b),
    ensures
        same_draw(a, b),
{
    lemma_literals();
    let t = draw_text(a);
    assert(t.len() > 0);
    match (a, b) {
        (DrawImageResource::Resource(x), DrawImageResource::Resource(y)) => {
            lemma_prefixed_names("resource:"@, x@, y@);
        },
        (DrawImageResource::CacheBuffer(x), DrawImageResource::CacheBuffer(y)) => {
            lemma_prefixed_names("cache:"@, x@, y@);
        },
        (DrawImageResource::ImageFile(x), DrawImageResource::ImageFile(y)) => {
            lemma_prefixed_names("image:"@, x@, y@);
        },
        _ => {
            assert(draw_text(a)[0] == draw_text(b)[0]);
        },
    }
}

/// Two writable resources are of the same kind and carry the same name.
pub open spec fn same_writable(a: WritableImageResource, b: WritableImageResource) -> bool {
    match (a, b) {
        (WritableImageResource::Object, WritableImageResource::Object) => true,
        (WritableImageResource::Resource(x), WritableImageResource::Resource(y)) => x@ == y@,
        (WritableImageResource::TempBuffer, WritableImageResource::TempBuffer) => true,
        (WritableImageResource::CacheBuffer(x), WritableImageResource::CacheBuffer(y)) => x@ == y@,
        _ => false,
    }
}

/// Two readable resources are of the same kind and carry the same name.
pub open spec fn same_readable(a: ReadableImageResource, b: ReadableImageResource) -> bool {
    match (a, b) {
        (ReadableImageResource::Object, ReadableImageResource::Object) => true,
        (ReadableImageResource::Resource(x), ReadableImageResource::Resource(y)) => x@ == y@,
        (ReadableImageResource::Framebuffer, ReadableImageResource::Framebuffer) => true,
        (ReadableImageResource::TempBuffer, ReadableImageResource::TempBuffer) => true,
        (ReadableImageResource::CacheBuffer(x), ReadableImageResource::CacheBuffer(y)) => x@ == y@,
        (ReadableImageResource::ImageFile(x), ReadableImageResource::ImageFile(y)) => x@ == y@,
        (ReadableImageResource::Random, ReadableImageResource::Random) => true,
        _ => false,
    }
}

/// Two shader targets are of the same kind and carry the same name.
pub open spec fn same_shader(a: ShaderTargetResource, b: ShaderTargetResource) -> bool {
    match (a, b) {
        (ShaderTargetResource::Object, ShaderTargetResource::Object) => true,
        (ShaderTargetResource::Resource(x), ShaderTargetResource::Resource(y)) => x@ == y@,
        (ShaderTargetResource::Framebuffer, ShaderTargetResource::Framebuffer) => true,
        (ShaderTargetResource::TempBuffer, ShaderTargetResource::TempBuffer) => true,
        (ShaderTargetResource::CacheBuffer(x), ShaderTargetResource::CacheBuffer(y)) => x@ == y@,
        _ => false,
    }
}

/// The text of a writable resource determines the resource.
pub proof fn lemma_writable_text_injective(a: WritableImageResource, b: WritableImageResource)
    requires
        writable_text(a) == writable_text(b),
    ensures
        same_writable(a, b),
{
    lemma_literals();
    let ta = writable_text(a);
    let tb = writable_text(b);
    match a {
        WritableImageResource::Object => assert(ta[0] == 'o'),
        WritableImageResource::Resource(x) => assert(ta[0] == 'r'),
        WritableImageResource::TempBuffer => assert(ta[0] == 't'),
        WritableImageResource::CacheBuffer(x) => assert(ta[0] == 'c'),
    }
    match b {
        WritableImageResource::Object => assert(tb[0] == 'o'),
        WritableImageResource::Resource(x) => assert(tb[0] == 'r'),
        WritableImageResource::TempBuffer => assert(tb[0] == 't'),
        WritableImageResource::CacheBuffer(x) => assert(tb[0] == 'c'),
    }
    match (a, b) {
        (WritableImageResource::Resource(x), WritableImageResource::Resource(y)) => {
            lemma_prefixed_names("resource:"@, x@, y@);
        },
        (WritableImageResource::CacheBuffer(x), WritableImageResource::CacheBuffer(y)) => {
            lemma_prefixed_names("cache:"@, x@, y@);
        },
        _ => {},
    }
}

/// The text of a readable resource determines the resource.
pub proof fn lemma_readable_text_injective(a: ReadableImageResource, b: ReadableImageResource)
    requires
        readable_text(a) == readable_text(b),
    ensures
        same_readable(a, b),
{
    lemma_literals();
    let ta = readable_text(a);
    let tb = readable_text(b);
    match a {
        ReadableImageResource::Object => assert(ta[0] == 'o'),
        ReadableImageResource::Resource(x) => assert(ta[0] == 'r' && ta[1] == 'e'),
        ReadableImageResource::Framebuffer => assert(ta[0] == 'f'),
        ReadableImageResource::TempBuffer => assert(ta[0] == 't'),
        ReadableImageResource::CacheBuffer(x) => assert(ta[0] == 'c'),
        ReadableImageResource::ImageFile(x) => assert(ta[0] == 'i'),
        ReadableImageResource::Random => assert(ta[0] == 'r' && ta[1] == 'a'),
    }
    match b {
        ReadableImageResource::Object => assert(tb[0] == 'o'),
        ReadableImageResource::Resource(x) => assert(tb[0] == 'r' && tb[1] == 'e'),
        ReadableImageResource::Framebuffer => assert(tb[0] == 'f'),
        ReadableImageResource::TempBuffer => assert(tb[0] == 't'),
        ReadableImageResource::CacheBuffer(x) => assert(tb[0] == 'c'),
        ReadableImageResource::ImageFile(x) => assert(tb[0] == 'i'),
        ReadableImageResource::Random => assert(tb[0] == 'r' && tb[1] == 'a'),
    }
    match (a, b) {
        (ReadableImageResource::Resource(x), ReadableImageResource::Resource(y)) => {
            lemma_prefixed_names("resource:"@, x@, y@);
        },
        (ReadableImageResource::CacheBuffer(x), ReadableImageResource::CacheBuffer(y)) => {
            lemma_prefixed_names("cache:"@, x@, y@);
        },
        (ReadableImageResource::ImageFile(x), ReadableImageResource::ImageFile(y)) => {
            lemma_prefixed_names("image:"@, x@, y@);
        },
        _ => {},
    }
}

/// The text of a shader target determines the target.
pub proof fn lemma_shader_text_injective(a: ShaderTargetResource, b: ShaderTargetResource)
    requires
        shader_text(a) == shader_text(b),
    ensures
        same_shader(a, b),
{
    lemma_literals();
    let ta = shader_text(a);
    let tb = shader_text(b);
    match a {
        ShaderTargetResource::Object => assert(ta[0] == 'o'),
        ShaderTargetResource::Resource(x) => assert(ta[0] == 'r'),
        ShaderTargetResource::Framebuffer => assert(ta[0] == 'f'),
        ShaderTargetResource::TempBuffer => assert(ta[0] == 't'),
        ShaderTargetResource::CacheBuffer(x) => assert(ta[0] == 'c'),
    }
    match b {
        ShaderTargetResource::Object => assert(tb[0] == 'o'),
        ShaderTargetResource::Resource(x) => assert(tb[0] == 'r'),
        ShaderTargetResource::Framebuffer => assert(tb[0] == 'f'),
        ShaderTargetResource::TempBuffer => assert(tb[0] == 't'),
        ShaderTargetResource::CacheBuffer(x) => assert(tb[0] == 'c'),
    }
    match (a, b) {
        (ShaderTargetResource::Resource(x), ShaderTargetResource::Resource(y)) => {
            lemma_prefixed_names("resource:"@, x@, y@);
        },
        (ShaderTargetResource::CacheBuffer(x), ShaderTargetResource::CacheBuffer(y)) => {
            lemma_prefixed_names("cache:"@, x@, y@);
        },
        _ => {},
    }
}

/// Converting a draw resource to a draw resource gives the same resource.
pub proof fn lemma_draw_converts_to_itself(d: DrawImageResource, r: Option<DrawImageResource>)
    requires
        parsed_draw(draw_text(d), r),
    ensures
        r matches Some(e) && same_draw(e, d),
{
    lemma_literals();
    match d {
        DrawImageResource::Resource(n) => lemma_prefixed_starts_with("resource:"@, n@),
        DrawImageResource::CacheBuffer(n) => lemma_prefixed_starts_with("cache:"@, n@),
        DrawImageResource::ImageFile(n) => lemma_prefixed_starts_with("image:"@, n@),
        _ => {},
    }
    if let Some(e) = r {
        lemma_draw_text_injective(e, d);
    }
}

/// Converting a writable resource to a writable resource gives the same
/// resource.
pub proof fn lemma_writable_converts_to_itself(
    w: WritableImageResource,
    r: Option<WritableImageResource>,
)
    requires
        parsed_writable(writable_text(w), r),
    ensures
        r matches Some(e) && same_writable(e, w),
{
    lemma_literals();
    match w {
        WritableImageResource::Resource(n) => lemma_prefixed_starts_with("resource:"@, n@),
        WritableImageResource::CacheBuffer(n) => lemma_prefixed_starts_with("cache:"@, n@),
        _ => {},
    }
    if let Some(e) = r {
        lemma_writable_text_injective(e, w);
    }
}

/// Converting a readable resource to a readable resource gives the same
/// resource.
pub proof fn lemma_readable_converts_to_itself(
    d: ReadableImageResource,
    r: Option<ReadableImageResource>,
)
    requires
        parsed_readable(readable_text(d), r),
    ensures
        r matches Some(e) && same_readable(e, d),
{
    lemma_literals();
    match d {
        ReadableImageResource::Resource(n) => lemma_prefixed_starts_with("resource:"@, n@),
        ReadableImageResource::CacheBuffer(n) => lemma_prefixed_starts_with("cache:"@, n@),
        ReadableImageResource::ImageFile(n) => lemma_prefixed_starts_with("image:"@, n@),
        _ => {},
    }
    if let Some(e) = r {
        lemma_readable_text_injective(e, d);
    }
}

/// Converting a shader target to a shader target gives the same target.
pub proof fn lemma_shader_converts_to_itself(
    d: ShaderTargetResource,
    r: Option<ShaderTargetResource>,
)
    requires
        parsed_shader(shader_text(d), r),
    ensures
        r matches Some(e) && same_shader(e, d),
{
    lemma_literals();
    match d {
        ShaderTargetResource::Resource(n) => lemma_prefixed_starts_with("resource:"@, n@),
        ShaderTargetResource::CacheBuffer(n) => lemma_prefixed_starts_with("cache:"@, n@),
        _ => {},
    }
    if let Some(e) = r {
        lemma_shader_text_injective(e, d);
    }
}

/// A writable resource converts to each of the other kinds, keeping its name.
pub proof fn lemma_writable_converts_everywhere(
    w: WritableImageResource,
    d: Option<DrawImageResource>,
    rd: Option<ReadableImageResource>,
    st: Option<ShaderTargetResource>,
)
    requires
        parsed_draw(writable_text(w), d),
        parsed_readable(writable_text(w), rd),
        parsed_shader(writable_text(w), st),
    ensures
        d is Some,
        rd is Some,
        st is Some,
{
    lemma_literals();
    match w {
        WritableImageResource::Resource(n) => lemma_prefixed_starts_with("resource:"@, n@),
        WritableImageResource::CacheBuffer(n) => lemma_prefixed_starts_with("cache:"@, n@),
        _ => {},
    }
}

} // verus!
