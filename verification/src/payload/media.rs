//! Messages and types for the media namespace, as used by the Default Media Receiver app.

use crate::message::Namespace;
use crate::text::{i32_text, spec_i32_from_text, spec_i32_text};
use crate::payload::{MessageType, RequestInner, ResponseInner};
use vstd::prelude::*;
use vstd::string::*;

verus! {

pub const CHANNEL_NAMESPACE: &'static str = "urn:x-cast:com.google.cast.media";

pub const MESSAGE_REQUEST_TYPE_GET_STATUS: &'static str = "GET_STATUS";

pub const MESSAGE_REQUEST_TYPE_LOAD: &'static str = "LOAD";

pub const MESSAGE_REQUEST_TYPE_PLAY: &'static str = "PLAY";

pub const MESSAGE_REQUEST_TYPE_PAUSE: &'static str = "PAUSE";

pub const MESSAGE_REQUEST_TYPE_STOP: &'static str = "STOP";

pub const MESSAGE_REQUEST_TYPE_SEEK: &'static str = "SEEK";

pub const MESSAGE_REQUEST_TYPE_EDIT_TRACKS_INFO: &'static str = "EDIT_TRACKS_INFO";

pub const MESSAGE_REQUEST_TYPE_QUEUE_GET_ITEM_IDS: &'static str = "QUEUE_GET_ITEM_IDS";

pub const MESSAGE_REQUEST_TYPE_QUEUE_GET_ITEMS: &'static str = "QUEUE_GET_ITEMS";

pub const MESSAGE_REQUEST_TYPE_QUEUE_INSERT: &'static str = "QUEUE_INSERT";

pub const MESSAGE_REQUEST_TYPE_QUEUE_LOAD: &'static str = "QUEUE_LOAD";

pub const MESSAGE_REQUEST_TYPE_QUEUE_REMOVE: &'static str = "QUEUE_REMOVE";

pub const MESSAGE_REQUEST_TYPE_QUEUE_REORDER: &'static str = "QUEUE_REORDER";

pub const MESSAGE_REQUEST_TYPE_QUEUE_UPDATE: &'static str = "QUEUE_UPDATE";

pub const MESSAGE_REQUEST_TYPE_SET_PLAYBACK_RATE: &'static str = "SET_PLAYBACK_RATE";

pub const MESSAGE_RESPONSE_TYPE_MEDIA_STATUS: &'static str = "MEDIA_STATUS";

pub const MESSAGE_RESPONSE_TYPE_LOAD_CANCELLED: &'static str = "LOAD_CANCELLED";

pub const MESSAGE_RESPONSE_TYPE_LOAD_FAILED: &'static str = "LOAD_FAILED";

pub const MESSAGE_RESPONSE_TYPE_INVALID_PLAYER_STATE: &'static str = "INVALID_PLAYER_STATE";

pub const MESSAGE_RESPONSE_TYPE_INVALID_REQUEST: &'static str = "INVALID_REQUEST";

pub const MESSAGE_RESPONSE_TYPE_QUEUE_ITEM_IDS: &'static str = "QUEUE_ITEM_IDS";

pub const MESSAGE_RESPONSE_TYPE_QUEUE_ITEMS: &'static str = "QUEUE_ITEMS";

pub const MESSAGE_EVENT_TYPE_QUEUE_CHANGE: &'static str = "QUEUE_CHANGE";

/// Unique ID for the playback of an item in this app session.
/// This ID is set by the receiver when processing a `LOAD` message.
#[derive(Clone, Copy, Debug, Hash, PartialEq, Eq, PartialOrd, Ord, Structural)]
pub struct MediaSessionId(pub i32);

impl MediaSessionId {
    pub fn to_i32(self) -> (r: i32)
        ensures
            r == self.0,
    {
        self.0
    }

    /// The id written in decimal, as `Display` writes it; `from_str` reads it back.
    pub fn to_string(&self) -> (r: String)
        ensures
            r@ == spec_i32_text(self.0),
    {
        i32_text(self.0)
    }
}

impl From<i32> for MediaSessionId {
    fn from(id: i32) -> (r: MediaSessionId) {
        MediaSessionId(id)
    }
}

impl vstd::std_specs::convert::FromSpecImpl<i32> for MediaSessionId {
    open spec fn obeys_from_spec() -> bool {
        true
    }

    open spec fn from_spec(id: i32) -> MediaSessionId {
        MediaSessionId(id)
    }
}

impl From<MediaSessionId> for i32 {
    fn from(id: MediaSessionId) -> (r: i32) {
        id.0
    }
}

impl vstd::std_specs::convert::FromSpecImpl<MediaSessionId> for i32 {
    open spec fn obeys_from_spec() -> bool {
        true
    }

    open spec fn from_spec(id: MediaSessionId) -> i32 {
        id.0
    }
}

/// The id of an item in a media queue, assigned by the receiver.
#[derive(Clone, Copy, Debug, Hash, PartialEq, Eq, PartialOrd, Ord, Structural)]
pub struct ItemId(pub i32);

impl ItemId {
    pub fn to_i32(self) -> (r: i32)
        ensures
            r == self.0,
    {
        self.0
    }

    /// The id written in decimal, as `Display` writes it; `from_str` reads it back.
    pub fn to_string(&self) -> (r: String)
        ensures
            r@ == spec_i32_text(self.0),
    {
        i32_text(self.0)
    }
}

impl From<i32> for ItemId {
    fn from(id: i32) -> (r: ItemId) {
        ItemId(id)
    }
}

impl vstd::std_specs::convert::FromSpecImpl<i32> for ItemId {
    open spec fn obeys_from_spec() -> bool {
        true
    }

    open spec fn from_spec(id: i32) -> ItemId {
        ItemId(id)
    }
}

impl From<ItemId> for i32 {
    fn from(id: ItemId) -> (r: i32) {
        id.0
    }
}

impl vstd::std_specs::convert::FromSpecImpl<ItemId> for i32 {
    open spec fn obeys_from_spec() -> bool {
        true
    }

    open spec fn from_spec(id: ItemId) -> i32 {
        id.0
    }
}

/// `core::num::ParseIntError`, the error of reading an integer from text.
#[verifier::external_type_specification]
#[verifier::external_body]
pub struct ExParseIntError(core::num::ParseIntError);

/// `i32::from_str`: the integer the text denotes in decimal, with an optional
/// sign; an error for any other text or a value that does not fit.
#[verifier::external_body]
fn parse_i32(s: &str) -> (r: Result<i32, core::num::ParseIntError>)
    ensures
        r is Ok <==> spec_i32_from_text(s@) is Some,
        r matches Ok(v) ==> spec_i32_from_text(s@) == Some(v),
{
    <i32 as core::str::FromStr>::from_str(s)
}

impl core::str::FromStr for ItemId {
    type Err = core::num::ParseIntError;

    fn from_str(s: &str) -> (r: Result<ItemId, core::num::ParseIntError>)
        ensures
            r is Ok <==> spec_i32_from_text(s@) is Some,
            r matches Ok(id) ==> spec_i32_from_text(s@) == Some(id.0),
    {
        match parse_i32(s) {
            Ok(v) => Ok(ItemId(v)),
            Err(e) => Err(e),
        }
    }
}

impl core::str::FromStr for TrackId {
    type Err = core::num::ParseIntError;

    fn from_str(s: &str) -> (r: Result<TrackId, core::num::ParseIntError>)
        ensures
            r is Ok <==> spec_i32_from_text(s@) is Some,
            r matches Ok(id) ==> spec_i32_from_text(s@) == Some(id.0),
    {
        match parse_i32(s) {
            Ok(v) => Ok(TrackId(v)),
            Err(e) => Err(e),
        }
    }
}

/// The id of a track of a media item.
#[derive(Clone, Copy, Debug, Hash, PartialEq, Eq, PartialOrd, Ord, Structural)]
pub struct TrackId(pub i32);

impl TrackId {
    /// The value of the id given to the first track of a media item.
    pub const FIRST_I32: i32 = 1;

    pub fn to_i32(self) -> (r: i32)
        ensures
            r == self.0,
    {
        self.0
    }

    /// The id written in decimal, as `Display` writes it; `from_str` reads it back.
    pub fn to_string(&self) -> (r: String)
        ensures
            r@ == spec_i32_text(self.0),
    {
        i32_text(self.0)
    }

    /// The id given to the first track of a media item.
    pub fn first() -> (r: TrackId)
        ensures
            r.0 == TrackId::FIRST_I32,
    {
        TrackId(TrackId::FIRST_I32)
    }
}

impl From<i32> for TrackId {
    fn from(id: i32) -> (r: TrackId) {
        TrackId(id)
    }
}

impl vstd::std_specs::convert::FromSpecImpl<i32> for TrackId {
    open spec fn obeys_from_spec() -> bool {
        true
    }

    open spec fn from_spec(id: i32) -> TrackId {
        TrackId(id)
    }
}

impl From<TrackId> for i32 {
    fn from(id: TrackId) -> (r: i32) {
        id.0
    }
}

impl vstd::std_specs::convert::FromSpecImpl<TrackId> for i32 {
    open spec fn obeys_from_spec() -> bool {
        true
    }

    open spec fn from_spec(id: TrackId) -> i32 {
        id.0
    }
}

/// The sequence number of a queue change event.
#[derive(Clone, Copy, Debug, PartialEq, Eq, PartialOrd, Ord, Structural)]
pub struct SequenceNumber(pub i32);

impl SequenceNumber {
    /// The number written in decimal, as `Display` writes it.
    pub fn to_string(&self) -> (r: String)
        ensures
            r@ == spec_i32_text(self.0),
    {
        i32_text(self.0)
    }
}

impl From<i32> for SequenceNumber {
    fn from(n: i32) -> (r: SequenceNumber) {
        SequenceNumber(n)
    }
}

impl vstd::std_specs::convert::FromSpecImpl<i32> for SequenceNumber {
    open spec fn obeys_from_spec() -> bool {
        true
    }

    open spec fn from_spec(n: i32) -> SequenceNumber {
        SequenceNumber(n)
    }
}

impl From<SequenceNumber> for i32 {
    fn from(seq: SequenceNumber) -> (r: i32) {
        seq.0
    }
}

impl vstd::std_specs::convert::FromSpecImpl<SequenceNumber> for i32 {
    open spec fn obeys_from_spec() -> bool {
        true
    }

    open spec fn from_spec(seq: SequenceNumber) -> i32 {
        seq.0
    }
}

/// A MIME type, such as the content type of a media item.
#[derive(Clone, Debug, Hash, PartialEq, Eq, PartialOrd, Ord)]
pub struct MimeType(pub String);

impl View for MimeType {
    type V = Seq<char>;

    open spec fn view(&self) -> Seq<char> {
        self.0@
    }
}

impl MimeType {
    /// The empty MIME type, which lets the receiver guess.
    pub const EMPTY: &'static str = "";

    /// WebVTT subtitles.
    pub const TEXT_VTT: &'static str = "text/vtt";

    pub fn as_str(&self) -> (r: &str)
        ensures
            r@ == self@,
    {
        self.0.as_str()
    }

    pub fn from_const(s: &'static str) -> (r: MimeType)
        ensures
            r@ == s@,
    {
        MimeType(String::from_str(s))
    }

    pub fn to_string(&self) -> (r: String)
        ensures
            r@ == self@,
    {
        self.0.clone()
    }
}

impl From<String> for MimeType {
    fn from(s: String) -> (r: MimeType) {
        MimeType(s)
    }
}

impl vstd::std_specs::convert::FromSpecImpl<String> for MimeType {
    open spec fn obeys_from_spec() -> bool {
        true
    }

    open spec fn from_spec(s: String) -> MimeType {
        MimeType(s)
    }
}

impl From<MimeType> for String {
    fn from(m: MimeType) -> (r: String) {
        m.0
    }
}

impl vstd::std_specs::convert::FromSpecImpl<MimeType> for String {
    open spec fn obeys_from_spec() -> bool {
        true
    }

    open spec fn from_spec(m: MimeType) -> String {
        m.0
    }
}

/// An image of a media item, such as a poster or album art.
#[derive(Clone, Debug)]
pub struct Image {
    pub url: String,
    pub width: Option<u32>,
    pub height: Option<u32>,
}

/// The generic font family of text tracks.
#[derive(Clone, Debug, PartialEq, Eq)]
pub enum FontGenericFamily {
    SansSerif,
    MonospacedSansSerif,
    Serif,
    MonospacedSerif,
    Casual,
    Cursive,
    SmallCapitals,
    /// A value this library does not know, with its name as the Chromecast sent it.
    Unknown(String),
}

impl FontGenericFamily {
    /// The name of this value on the wire.
    pub open spec fn spec_wire(&self) -> Seq<char> {
        match self {
            FontGenericFamily::SansSerif => "SANS_SERIF"@,
            FontGenericFamily::MonospacedSansSerif => "MONOSPACED_SANS_SERIF"@,
            FontGenericFamily::Serif => "SERIF"@,
            FontGenericFamily::MonospacedSerif => "MONOSPACED_SERIF"@,
            FontGenericFamily::Casual => "CASUAL"@,
            FontGenericFamily::Cursive => "CURSIVE"@,
            FontGenericFamily::SmallCapitals => "SMALL_CAPITALS"@,
            FontGenericFamily::Unknown(s) => s@,
        }
    }

    /// Whether `s` is the wire name of a value this library knows.
    pub open spec fn spec_is_known(s: Seq<char>) -> bool {
        s == "SANS_SERIF"@ || s == "MONOSPACED_SANS_SERIF"@ || s == "SERIF"@ || s == "MONOSPACED_SERIF"@ || s == "CASUAL"@ || s == "CURSIVE"@ || s == "SMALL_CAPITALS"@
    }

    /// `r` is what reading the wire name `s` gives: the known value with that
    /// name, or `Unknown` carrying the name.
    pub open spec fn spec_read_as(s: Seq<char>, r: Self) -> bool {
        &&& r.spec_wire() == s
        &&& (r is Unknown <==> !FontGenericFamily::spec_is_known(s))
    }

    /// Reads a value from its wire name.
    pub fn from_wire(s: &str) -> (r: FontGenericFamily)
        ensures
            FontGenericFamily::spec_read_as(s@, r),
    {
        let t = s.to_owned();
        if t == String::from_str("SANS_SERIF") {
            FontGenericFamily::SansSerif
        } else if t == String::from_str("MONOSPACED_SANS_SERIF") {
            FontGenericFamily::MonospacedSansSerif
        } else if t == String::from_str("SERIF") {
            FontGenericFamily::Serif
        } else if t == String::from_str("MONOSPACED_SERIF") {
            FontGenericFamily::MonospacedSerif
        } else if t == String::from_str("CASUAL") {
            FontGenericFamily::Casual
        } else if t == String::from_str("CURSIVE") {
            FontGenericFamily::Cursive
        } else if t == String::from_str("SMALL_CAPITALS") {
            FontGenericFamily::SmallCapitals
        } else {
            FontGenericFamily::Unknown(t)
        }
    }

    /// The wire name of this value.
    pub fn as_wire(&self) -> (r: String)
        ensures
            r@ == self.spec_wire(),
    {
        match self {
            FontGenericFamily::SansSerif => String::from_str("SANS_SERIF"),
            FontGenericFamily::MonospacedSansSerif => String::from_str("MONOSPACED_SANS_SERIF"),
            FontGenericFamily::Serif => String::from_str("SERIF"),
            FontGenericFamily::MonospacedSerif => String::from_str("MONOSPACED_SERIF"),
            FontGenericFamily::Casual => String::from_str("CASUAL"),
            FontGenericFamily::Cursive => String::from_str("CURSIVE"),
            FontGenericFamily::SmallCapitals => String::from_str("SMALL_CAPITALS"),
            FontGenericFamily::Unknown(s) => s.clone(),
        }
    }
}

/// The protocol name of each known `FontGenericFamily`: writing the value gives that
/// text, and reading that text gives the value.
pub proof fn lemma_font_generic_family_wire_names()
    ensures
        FontGenericFamily::SansSerif.spec_wire() == "SANS_SERIF"@,
        forall|r: FontGenericFamily| FontGenericFamily::spec_read_as("SANS_SERIF"@, r) ==> r == FontGenericFamily::SansSerif,
        FontGenericFamily::MonospacedSansSerif.spec_wire() == "MONOSPACED_SANS_SERIF"@,
        forall|r: FontGenericFamily| FontGenericFamily::spec_read_as("MONOSPACED_SANS_SERIF"@, r) ==> r == FontGenericFamily::MonospacedSansSerif,
        FontGenericFamily::Serif.spec_wire() == "SERIF"@,
        forall|r: FontGenericFamily| FontGenericFamily::spec_read_as("SERIF"@, r) ==> r == FontGenericFamily::Serif,
        FontGenericFamily::MonospacedSerif.spec_wire() == "MONOSPACED_SERIF"@,
        forall|r: FontGenericFamily| FontGenericFamily::spec_read_as("MONOSPACED_SERIF"@, r) ==> r == FontGenericFamily::MonospacedSerif,
        FontGenericFamily::Casual.spec_wire() == "CASUAL"@,
        forall|r: FontGenericFamily| FontGenericFamily::spec_read_as("CASUAL"@, r) ==> r == FontGenericFamily::Casual,
        FontGenericFamily::Cursive.spec_wire() == "CURSIVE"@,
        forall|r: FontGenericFamily| FontGenericFamily::spec_read_as("CURSIVE"@, r) ==> r == FontGenericFamily::Cursive,
        FontGenericFamily::SmallCapitals.spec_wire() == "SMALL_CAPITALS"@,
        forall|r: FontGenericFamily| FontGenericFamily::spec_read_as("SMALL_CAPITALS"@, r) ==> r == FontGenericFamily::SmallCapitals,
{
    reveal_strlit("SANS_SERIF");
    reveal_strlit("MONOSPACED_SANS_SERIF");
    reveal_strlit("SERIF");
    reveal_strlit("MONOSPACED_SERIF");
    reveal_strlit("CASUAL");
    reveal_strlit("CURSIVE");
    reveal_strlit("SMALL_CAPITALS");
    assert("SANS_SERIF"@.len() != "MONOSPACED_SANS_SERIF"@.len());
    assert("SANS_SERIF"@.len() != "SERIF"@.len());
    assert("SANS_SERIF"@.len() != "MONOSPACED_SERIF"@.len());
    assert("SANS_SERIF"@.len() != "CASUAL"@.len());
    assert("SANS_SERIF"@.len() != "CURSIVE"@.len());
    assert("SANS_SERIF"@.len() != "SMALL_CAPITALS"@.len());
    assert("MONOSPACED_SANS_SERIF"@.len() != "SERIF"@.len());
    assert("MONOSPACED_SANS_SERIF"@.len() != "MONOSPACED_SERIF"@.len());
    assert("MONOSPACED_SANS_SERIF"@.len() != "CASUAL"@.len());
    assert("MONOSPACED_SANS_SERIF"@.len() != "CURSIVE"@.len());
    assert("MONOSPACED_SANS_SERIF"@.len() != "SMALL_CAPITALS"@.len());
    assert("SERIF"@.len() != "MONOSPACED_SERIF"@.len());
    assert("SERIF"@.len() != "CASUAL"@.len());
    assert("SERIF"@.len() != "CURSIVE"@.len());
    assert("SERIF"@.len() != "SMALL_CAPITALS"@.len());
    assert("MONOSPACED_SERIF"@.len() != "CASUAL"@.len());
    assert("MONOSPACED_SERIF"@.len() != "CURSIVE"@.len());
    assert("MONOSPACED_SERIF"@.len() != "SMALL_CAPITALS"@.len());
    assert("CASUAL"@.len() != "CURSIVE"@.len());
    assert("CASUAL"@.len() != "SMALL_CAPITALS"@.len());
    assert("CURSIVE"@.len() != "SMALL_CAPITALS"@.len());
}

/// Writing out what was read from a wire name gives that name back: a `FontGenericFamily`
/// passes on whatever the Chromecast sent, known or not.
pub proof fn lemma_font_generic_family_wire_text_round_trip(s: Seq<char>, r: FontGenericFamily)
    requires
        FontGenericFamily::spec_read_as(s, r),
    ensures
        r.spec_wire() == s,
{
}

/// Reading back the wire name of a `FontGenericFamily` gives the same value, unless it is
/// an `Unknown` that carries the name of a known value.
pub proof fn lemma_font_generic_family_wire_round_trip(x: FontGenericFamily, r: FontGenericFamily)
    requires
        FontGenericFamily::spec_read_as(x.spec_wire(), r),
        x is Unknown ==> !FontGenericFamily::spec_is_known(x.spec_wire()),
    ensures
        x !is Unknown ==> r == x,
        x is Unknown ==> r is Unknown && r->Unknown_0@ == x->Unknown_0@,
{
    reveal_strlit("SANS_SERIF");
    reveal_strlit("MONOSPACED_SANS_SERIF");
    reveal_strlit("SERIF");
    reveal_strlit("MONOSPACED_SERIF");
    reveal_strlit("CASUAL");
    reveal_strlit("CURSIVE");
    reveal_strlit("SMALL_CAPITALS");
    assert("SANS_SERIF"@.len() != "MONOSPACED_SANS_SERIF"@.len());
    assert("SANS_SERIF"@.len() != "SERIF"@.len());
    assert("SANS_SERIF"@.len() != "MONOSPACED_SERIF"@.len());
    assert("SANS_SERIF"@.len() != "CASUAL"@.len());
    assert("SANS_SERIF"@.len() != "CURSIVE"@.len());
    assert("SANS_SERIF"@.len() != "SMALL_CAPITALS"@.len());
    assert("MONOSPACED_SANS_SERIF"@.len() != "SERIF"@.len());
    assert("MONOSPACED_SANS_SERIF"@.len() != "MONOSPACED_SERIF"@.len());
    assert("MONOSPACED_SANS_SERIF"@.len() != "CASUAL"@.len());
    assert("MONOSPACED_SANS_SERIF"@.len() != "CURSIVE"@.len());
    assert("MONOSPACED_SANS_SERIF"@.len() != "SMALL_CAPITALS"@.len());
    assert("SERIF"@.len() != "MONOSPACED_SERIF"@.len());
    assert("SERIF"@.len() != "CASUAL"@.len());
    assert("SERIF"@.len() != "CURSIVE"@.len());
    assert("SERIF"@.len() != "SMALL_CAPITALS"@.len());
    assert("MONOSPACED_SERIF"@.len() != "CASUAL"@.len());
    assert("MONOSPACED_SERIF"@.len() != "CURSIVE"@.len());
    assert("MONOSPACED_SERIF"@.len() != "SMALL_CAPITALS"@.len());
    assert("CASUAL"@.len() != "CURSIVE"@.len());
    assert("CASUAL"@.len() != "SMALL_CAPITALS"@.len());
    assert("CURSIVE"@.len() != "SMALL_CAPITALS"@.len());
}

/// The font style of text tracks.
#[derive(Clone, Debug, PartialEq, Eq)]
pub enum FontStyle {
    Normal,
    Bold,
    BoldItalic,
    Italic,
    /// A value this library does not know, with its name as the Chromecast sent it.
    Unknown(String),
}

impl FontStyle {
    /// The name of this value on the wire.
    pub open spec fn spec_wire(&self) -> Seq<char> {
        match self {
            FontStyle::Normal => "NORMAL"@,
            FontStyle::Bold => "BOLD"@,
            FontStyle::BoldItalic => "BOLD_ITALIC"@,
            FontStyle::Italic => "ITALIC"@,
            FontStyle::Unknown(s) => s@,
        }
    }

    /// Whether `s` is the wire name of a value this library knows.
    pub open spec fn spec_is_known(s: Seq<char>) -> bool {
        s == "NORMAL"@ || s == "BOLD"@ || s == "BOLD_ITALIC"@ || s == "ITALIC"@
    }

    /// `r` is what reading the wire name `s` gives: the known value with that
    /// name, or `Unknown` carrying the name.
    pub open spec fn spec_read_as(s: Seq<char>, r: Self) -> bool {
        &&& r.spec_wire() == s
        &&& (r is Unknown <==> !FontStyle::spec_is_known(s))
    }

    /// Reads a value from its wire name.
    pub fn from_wire(s: &str) -> (r: FontStyle)
        ensures
            FontStyle::spec_read_as(s@, r),
    {
        let t = s.to_owned();
        if t == String::from_str("NORMAL") {
            FontStyle::Normal
        } else if t == String::from_str("BOLD") {
            FontStyle::Bold
        } else if t == String::from_str("BOLD_ITALIC") {
            FontStyle::BoldItalic
        } else if t == String::from_str("ITALIC") {
            FontStyle::Italic
        } else {
            FontStyle::Unknown(t)
        }
    }

    /// The wire name of this value.
    pub fn as_wire(&self) -> (r: String)
        ensures
            r@ == self.spec_wire(),
    {
        match self {
            FontStyle::Normal => String::from_str("NORMAL"),
            FontStyle::Bold => String::from_str("BOLD"),
            FontStyle::BoldItalic => String::from_str("BOLD_ITALIC"),
            FontStyle::Italic => String::from_str("ITALIC"),
            FontStyle::Unknown(s) => s.clone(),
        }
    }
}

/// The protocol name of each known `FontStyle`: writing the value gives that
/// text, and reading that text gives the value.
pub proof fn lemma_font_style_wire_names()
    ensures
        FontStyle::Normal.spec_wire() == "NORMAL"@,
        forall|r: FontStyle| FontStyle::spec_read_as("NORMAL"@, r) ==> r == FontStyle::Normal,
        FontStyle::Bold.spec_wire() == "BOLD"@,
        forall|r: FontStyle| FontStyle::spec_read_as("BOLD"@, r) ==> r == FontStyle::Bold,
        FontStyle::BoldItalic.spec_wire() == "BOLD_ITALIC"@,
        forall|r: FontStyle| FontStyle::spec_read_as("BOLD_ITALIC"@, r) ==> r == FontStyle::BoldItalic,
        FontStyle::Italic.spec_wire() == "ITALIC"@,
        forall|r: FontStyle| FontStyle::spec_read_as("ITALIC"@, r) ==> r == FontStyle::Italic,
{
    reveal_strlit("NORMAL");
    reveal_strlit("BOLD");
    reveal_strlit("BOLD_ITALIC");
    reveal_strlit("ITALIC");
    assert("NORMAL"@.len() != "BOLD"@.len());
    assert("NORMAL"@.len() != "BOLD_ITALIC"@.len());
    assert("NORMAL"@[0] != "ITALIC"@[0]);
    assert("BOLD"@.len() != "BOLD_ITALIC"@.len());
    assert("BOLD"@.len() != "ITALIC"@.len());
    assert("BOLD_ITALIC"@.len() != "ITALIC"@.len());
}

/// Writing out what was read from a wire name gives that name back: a `FontStyle`
/// passes on whatever the Chromecast sent, known or not.
pub proof fn lemma_font_style_wire_text_round_trip(s: Seq<char>, r: FontStyle)
    requires
        FontStyle::spec_read_as(s, r),
    ensures
        r.spec_wire() == s,
{
}

/// Reading back the wire name of a `FontStyle` gives the same value, unless it is
/// an `Unknown` that carries the name of a known value.
pub proof fn lemma_font_style_wire_round_trip(x: FontStyle, r: FontStyle)
    requires
        FontStyle::spec_read_as(x.spec_wire(), r),
        x is Unknown ==> !FontStyle::spec_is_known(x.spec_wire()),
    ensures
        x !is Unknown ==> r == x,
        x is Unknown ==> r is Unknown && r->Unknown_0@ == x->Unknown_0@,
{
    reveal_strlit("NORMAL");
    reveal_strlit("BOLD");
    reveal_strlit("BOLD_ITALIC");
    reveal_strlit("ITALIC");
    assert("NORMAL"@.len() != "BOLD"@.len());
    assert("NORMAL"@.len() != "BOLD_ITALIC"@.len());
    assert("NORMAL"@[0] != "ITALIC"@[0]);
    assert("BOLD"@.len() != "BOLD_ITALIC"@.len());
    assert("BOLD"@.len() != "ITALIC"@.len());
    assert("BOLD_ITALIC"@.len() != "ITALIC"@.len());
}

/// Why a player went idle.
#[derive(Clone, Debug, PartialEq, Eq)]
pub enum IdleReason {
    Cancelled,
    Interrupted,
    Finished,
    Error,
    /// A value this library does not know, with its name as the Chromecast sent it.
    Unknown(String),
}

impl IdleReason {
    /// The name of this value on the wire.
    pub open spec fn spec_wire(&self) -> Seq<char> {
        match self {
            IdleReason::Cancelled => "CANCELLED"@,
            IdleReason::Interrupted => "INTERRUPTED"@,
            IdleReason::Finished => "FINISHED"@,
            IdleReason::Error => "ERROR"@,
            IdleReason::Unknown(s) => s@,
        }
    }

    /// Whether `s` is the wire name of a value this library knows.
    pub open spec fn spec_is_known(s: Seq<char>) -> bool {
        s == "CANCELLED"@ || s == "INTERRUPTED"@ || s == "FINISHED"@ || s == "ERROR"@
    }

    /// `r` is what reading the wire name `s` gives: the known value with that
    /// name, or `Unknown` carrying the name.
    pub open spec fn spec_read_as(s: Seq<char>, r: Self) -> bool {
        &&& r.spec_wire() == s
        &&& (r is Unknown <==> !IdleReason::spec_is_known(s))
    }

    /// Reads a value from its wire name.
    pub fn from_wire(s: &str) -> (r: IdleReason)
        ensures
            IdleReason::spec_read_as(s@, r),
    {
        let t = s.to_owned();
        if t == String::from_str("CANCELLED") {
            IdleReason::Cancelled
        } else if t == String::from_str("INTERRUPTED") {
            IdleReason::Interrupted
        } else if t == String::from_str("FINISHED") {
            IdleReason::Finished
        } else if t == String::from_str("ERROR") {
            IdleReason::Error
        } else {
            IdleReason::Unknown(t)
        }
    }

    /// The wire name of this value.
    pub fn as_wire(&self) -> (r: String)
        ensures
            r@ == self.spec_wire(),
    {
        match self {
            IdleReason::Cancelled => String::from_str("CANCELLED"),
            IdleReason::Interrupted => String::from_str("INTERRUPTED"),
            IdleReason::Finished => String::from_str("FINISHED"),
            IdleReason::Error => String::from_str("ERROR"),
            IdleReason::Unknown(s) => s.clone(),
        }
    }
}

/// The protocol name of each known `IdleReason`: writing the value gives that
/// text, and reading that text gives the value.
pub proof fn lemma_idle_reason_wire_names()
    ensures
        IdleReason::Cancelled.spec_wire() == "CANCELLED"@,
        forall|r: IdleReason| IdleReason::spec_read_as("CANCELLED"@, r) ==> r == IdleReason::Cancelled,
        IdleReason::Interrupted.spec_wire() == "INTERRUPTED"@,
        forall|r: IdleReason| IdleReason::spec_read_as("INTERRUPTED"@, r) ==> r == IdleReason::Interrupted,
        IdleReason::Finished.spec_wire() == "FINISHED"@,
        forall|r: IdleReason| IdleReason::spec_read_as("FINISHED"@, r) ==> r == IdleReason::Finished,
        IdleReason::Error.spec_wire() == "ERROR"@,
        forall|r: IdleReason| IdleReason::spec_read_as("ERROR"@, r) ==> r == IdleReason::Error,
{
    reveal_strlit("CANCELLED");
    reveal_strlit("INTERRUPTED");
    reveal_strlit("FINISHED");
    reveal_strlit("ERROR");
    assert("CANCELLED"@.len() != "INTERRUPTED"@.len());
    assert("CANCELLED"@.len() != "FINISHED"@.len());
    assert("CANCELLED"@.len() != "ERROR"@.len());
    assert("INTERRUPTED"@.len() != "FINISHED"@.len());
    assert("INTERRUPTED"@.len() != "ERROR"@.len());
    assert("FINISHED"@.len() != "ERROR"@.len());
}

/// Writing out what was read from a wire name gives that name back: a `IdleReason`
/// passes on whatever the Chromecast sent, known or not.
pub proof fn lemma_idle_reason_wire_text_round_trip(s: Seq<char>, r: IdleReason)
    requires
        IdleReason::spec_read_as(s, r),
    ensures
        r.spec_wire() == s,
{
}

/// Reading back the wire name of a `IdleReason` gives the same value, unless it is
/// an `Unknown` that carries the name of a known value.
pub proof fn lemma_idle_reason_wire_round_trip(x: IdleReason, r: IdleReason)
    requires
        IdleReason::spec_read_as(x.spec_wire(), r),
        x is Unknown ==> !IdleReason::spec_is_known(x.spec_wire()),
    ensures
        x !is Unknown ==> r == x,
        x is Unknown ==> r is Unknown && r->Unknown_0@ == x->Unknown_0@,
{
    reveal_strlit("CANCELLED");
    reveal_strlit("INTERRUPTED");
    reveal_strlit("FINISHED");
    reveal_strlit("ERROR");
    assert("CANCELLED"@.len() != "INTERRUPTED"@.len());
    assert("CANCELLED"@.len() != "FINISHED"@.len());
    assert("CANCELLED"@.len() != "ERROR"@.len());
    assert("INTERRUPTED"@.len() != "FINISHED"@.len());
    assert("INTERRUPTED"@.len() != "ERROR"@.len());
    assert("FINISHED"@.len() != "ERROR"@.len());
}

/// The category of a media item.
#[derive(Clone, Debug, PartialEq, Eq)]
pub enum MediaCategory {
    Audio,
    Video,
    Image,
    /// A value this library does not know, with its name as the Chromecast sent it.
    Unknown(String),
}

impl MediaCategory {
    /// The name of this value on the wire.
    pub open spec fn spec_wire(&self) -> Seq<char> {
        match self {
            MediaCategory::Audio => "AUDIO"@,
            MediaCategory::Video => "VIDEO"@,
            MediaCategory::Image => "IMAGE"@,
            MediaCategory::Unknown(s) => s@,
        }
    }

    /// Whether `s` is the wire name of a value this library knows.
    pub open spec fn spec_is_known(s: Seq<char>) -> bool {
        s == "AUDIO"@ || s == "VIDEO"@ || s == "IMAGE"@
    }

    /// `r` is what reading the wire name `s` gives: the known value with that
    /// name, or `Unknown` carrying the name.
    pub open spec fn spec_read_as(s: Seq<char>, r: Self) -> bool {
        &&& r.spec_wire() == s
        &&& (r is Unknown <==> !MediaCategory::spec_is_known(s))
    }

    /// Reads a value from its wire name.
    pub fn from_wire(s: &str) -> (r: MediaCategory)
        ensures
            MediaCategory::spec_read_as(s@, r),
    {
        let t = s.to_owned();
        if t == String::from_str("AUDIO") {
            MediaCategory::Audio
        } else if t == String::from_str("VIDEO") {
            MediaCategory::Video
        } else if t == String::from_str("IMAGE") {
            MediaCategory::Image
        } else {
            MediaCategory::Unknown(t)
        }
    }

    /// The wire name of this value.
    pub fn as_wire(&self) -> (r: String)
        ensures
            r@ == self.spec_wire(),
    {
        match self {
            MediaCategory::Audio => String::from_str("AUDIO"),
            MediaCategory::Video => String::from_str("VIDEO"),
            MediaCategory::Image => String::from_str("IMAGE"),
            MediaCategory::Unknown(s) => s.clone(),
        }
    }
}

/// The protocol name of each known `MediaCategory`: writing the value gives that
/// text, and reading that text gives the value.
pub proof fn lemma_media_category_wire_names()
    ensures
        MediaCategory::Audio.spec_wire() == "AUDIO"@,
        forall|r: MediaCategory| MediaCategory::spec_read_as("AUDIO"@, r) ==> r == MediaCategory::Audio,
        MediaCategory::Video.spec_wire() == "VIDEO"@,
        forall|r: MediaCategory| MediaCategory::spec_read_as("VIDEO"@, r) ==> r == MediaCategory::Video,
        MediaCategory::Image.spec_wire() == "IMAGE"@,
        forall|r: MediaCategory| MediaCategory::spec_read_as("IMAGE"@, r) ==> r == MediaCategory::Image,
{
    reveal_strlit("AUDIO");
    reveal_strlit("VIDEO");
    reveal_strlit("IMAGE");
    assert("AUDIO"@[0] != "VIDEO"@[0]);
    assert("AUDIO"@[0] != "IMAGE"@[0]);
    assert("VIDEO"@[0] != "IMAGE"@[0]);
}

/// Writing out what was read from a wire name gives that name back: a `MediaCategory`
/// passes on whatever the Chromecast sent, known or not.
pub proof fn lemma_media_category_wire_text_round_trip(s: Seq<char>, r: MediaCategory)
    requires
        MediaCategory::spec_read_as(s, r),
    ensures
        r.spec_wire() == s,
{
}

/// Reading back the wire name of a `MediaCategory` gives the same value, unless it is
/// an `Unknown` that carries the name of a known value.
pub proof fn lemma_media_category_wire_round_trip(x: MediaCategory, r: MediaCategory)
    requires
        MediaCategory::spec_read_as(x.spec_wire(), r),
        x is Unknown ==> !MediaCategory::spec_is_known(x.spec_wire()),
    ensures
        x !is Unknown ==> r == x,
        x is Unknown ==> r is Unknown && r->Unknown_0@ == x->Unknown_0@,
{
    reveal_strlit("AUDIO");
    reveal_strlit("VIDEO");
    reveal_strlit("IMAGE");
    assert("AUDIO"@[0] != "VIDEO"@[0]);
    assert("AUDIO"@[0] != "IMAGE"@[0]);
    assert("VIDEO"@[0] != "IMAGE"@[0]);
}

/// The state of a media player.
#[derive(Clone, Debug, PartialEq, Eq)]
pub enum PlayerState {
    Idle,
    Playing,
    Paused,
    Buffering,
    /// A value this library does not know, with its name as the Chromecast sent it.
    Unknown(String),
}

impl PlayerState {
    /// The name of this value on the wire.
    pub open spec fn spec_wire(&self) -> Seq<char> {
        match self {
            PlayerState::Idle => "IDLE"@,
            PlayerState::Playing => "PLAYING"@,
            PlayerState::Paused => "PAUSED"@,
            PlayerState::Buffering => "BUFFERING"@,
            PlayerState::Unknown(s) => s@,
        }
    }

    /// Whether `s` is the wire name of a value this library knows.
    pub open spec fn spec_is_known(s: Seq<char>) -> bool {
        s == "IDLE"@ || s == "PLAYING"@ || s == "PAUSED"@ || s == "BUFFERING"@
    }

    /// `r` is what reading the wire name `s` gives: the known value with that
    /// name, or `Unknown` carrying the name.
    pub open spec fn spec_read_as(s: Seq<char>, r: Self) -> bool {
        &&& r.spec_wire() == s
        &&& (r is Unknown <==> !PlayerState::spec_is_known(s))
    }

    /// Reads a value from its wire name.
    pub fn from_wire(s: &str) -> (r: PlayerState)
        ensures
            PlayerState::spec_read_as(s@, r),
    {
        let t = s.to_owned();
        if t == String::from_str("IDLE") {
            PlayerState::Idle
        } else if t == String::from_str("PLAYING") {
            PlayerState::Playing
        } else if t == String::from_str("PAUSED") {
            PlayerState::Paused
        } else if t == String::from_str("BUFFERING") {
            PlayerState::Buffering
        } else {
            PlayerState::Unknown(t)
        }
    }

    /// The wire name of this value.
    pub fn as_wire(&self) -> (r: String)
        ensures
            r@ == self.spec_wire(),
    {
        match self {
            PlayerState::Idle => String::from_str("IDLE"),
            PlayerState::Playing => String::from_str("PLAYING"),
            PlayerState::Paused => String::from_str("PAUSED"),
            PlayerState::Buffering => String::from_str("BUFFERING"),
            PlayerState::Unknown(s) => s.clone(),
        }
    }
}

/// The protocol name of each known `PlayerState`: writing the value gives that
/// text, and reading that text gives the value.
pub proof fn lemma_player_state_wire_names()
    ensures
        PlayerState::Idle.spec_wire() == "IDLE"@,
        forall|r: PlayerState| PlayerState::spec_read_as("IDLE"@, r) ==> r == PlayerState::Idle,
        PlayerState::Playing.spec_wire() == "PLAYING"@,
        forall|r: PlayerState| PlayerState::spec_read_as("PLAYING"@, r) ==> r == PlayerState::Playing,
        PlayerState::Paused.spec_wire() == "PAUSED"@,
        forall|r: PlayerState| PlayerState::spec_read_as("PAUSED"@, r) ==> r == PlayerState::Paused,
        PlayerState::Buffering.spec_wire() == "BUFFERING"@,
        forall|r: PlayerState| PlayerState::spec_read_as("BUFFERING"@, r) ==> r == PlayerState::Buffering,
{
    reveal_strlit("IDLE");
    reveal_strlit("PLAYING");
    reveal_strlit("PAUSED");
    reveal_strlit("BUFFERING");
    assert("IDLE"@.len() != "PLAYING"@.len());
    assert("IDLE"@.len() != "PAUSED"@.len());
    assert("IDLE"@.len() != "BUFFERING"@.len());
    assert("PLAYING"@.len() != "PAUSED"@.len());
    assert("PLAYING"@.len() != "BUFFERING"@.len());
    assert("PAUSED"@.len() != "BUFFERING"@.len());
}

/// Writing out what was read from a wire name gives that name back: a `PlayerState`
/// passes on whatever the Chromecast sent, known or not.
pub proof fn lemma_player_state_wire_text_round_trip(s: Seq<char>, r: PlayerState)
    requires
        PlayerState::spec_read_as(s, r),
    ensures
        r.spec_wire() == s,
{
}

/// Reading back the wire name of a `PlayerState` gives the same value, unless it is
/// an `Unknown` that carries the name of a known value.
pub proof fn lemma_player_state_wire_round_trip(x: PlayerState, r: PlayerState)
    requires
        PlayerState::spec_read_as(x.spec_wire(), r),
        x is Unknown ==> !PlayerState::spec_is_known(x.spec_wire()),
    ensures
        x !is Unknown ==> r == x,
        x is Unknown ==> r is Unknown && r->Unknown_0@ == x->Unknown_0@,
{
    reveal_strlit("IDLE");
    reveal_strlit("PLAYING");
    reveal_strlit("PAUSED");
    reveal_strlit("BUFFERING");
    assert("IDLE"@.len() != "PLAYING"@.len());
    assert("IDLE"@.len() != "PAUSED"@.len());
    assert("IDLE"@.len() != "BUFFERING"@.len());
    assert("PLAYING"@.len() != "PAUSED"@.len());
    assert("PLAYING"@.len() != "BUFFERING"@.len());
    assert("PAUSED"@.len() != "BUFFERING"@.len());
}

/// How a media queue repeats.
#[derive(Clone, Debug, PartialEq, Eq)]
pub enum RepeatMode {
    Off,
    All,
    AllAndShuffle,
    Single,
    /// A value this library does not know, with its name as the Chromecast sent it.
    Unknown(String),
}

impl RepeatMode {
    /// The name of this value on the wire.
    pub open spec fn spec_wire(&self) -> Seq<char> {
        match self {
            RepeatMode::Off => "REPEAT_OFF"@,
            RepeatMode::All => "REPEAT_ALL"@,
            RepeatMode::AllAndShuffle => "REPEAT_ALL_AND_SHUFFLE"@,
            RepeatMode::Single => "REPEAT_SINGLE"@,
            RepeatMode::Unknown(s) => s@,
        }
    }

    /// Whether `s` is the wire name of a value this library knows.
    pub open spec fn spec_is_known(s: Seq<char>) -> bool {
        s == "REPEAT_OFF"@ || s == "REPEAT_ALL"@ || s == "REPEAT_ALL_AND_SHUFFLE"@ || s == "REPEAT_SINGLE"@
    }

    /// `r` is what reading the wire name `s` gives: the known value with that
    /// name, or `Unknown` carrying the name.
    pub open spec fn spec_read_as(s: Seq<char>, r: Self) -> bool {
        &&& r.spec_wire() == s
        &&& (r is Unknown <==> !RepeatMode::spec_is_known(s))
    }

    /// Reads a value from its wire name.
    pub fn from_wire(s: &str) -> (r: RepeatMode)
        ensures
            RepeatMode::spec_read_as(s@, r),
    {
        let t = s.to_owned();
        if t == String::from_str("REPEAT_OFF") {
            RepeatMode::Off
        } else if t == String::from_str("REPEAT_ALL") {
            RepeatMode::All
        } else if t == String::from_str("REPEAT_ALL_AND_SHUFFLE") {
            RepeatMode::AllAndShuffle
        } else if t == String::from_str("REPEAT_SINGLE") {
            RepeatMode::Single
        } else {
            RepeatMode::Unknown(t)
        }
    }

    /// The wire name of this value.
    pub fn as_wire(&self) -> (r: String)
        ensures
            r@ == self.spec_wire(),
    {
        match self {
            RepeatMode::Off => String::from_str("REPEAT_OFF"),
            RepeatMode::All => String::from_str("REPEAT_ALL"),
            RepeatMode::AllAndShuffle => String::from_str("REPEAT_ALL_AND_SHUFFLE"),
            RepeatMode::Single => String::from_str("REPEAT_SINGLE"),
            RepeatMode::Unknown(s) => s.clone(),
        }
    }
}

/// The protocol name of each known `RepeatMode`: writing the value gives that
/// text, and reading that text gives the value.
pub proof fn lemma_repeat_mode_wire_names()
    ensures
        RepeatMode::Off.spec_wire() == "REPEAT_OFF"@,
        forall|r: RepeatMode| RepeatMode::spec_read_as("REPEAT_OFF"@, r) ==> r == RepeatMode::Off,
        RepeatMode::All.spec_wire() == "REPEAT_ALL"@,
        forall|r: RepeatMode| RepeatMode::spec_read_as("REPEAT_ALL"@, r) ==> r == RepeatMode::All,
        RepeatMode::AllAndShuffle.spec_wire() == "REPEAT_ALL_AND_SHUFFLE"@,
        forall|r: RepeatMode| RepeatMode::spec_read_as("REPEAT_ALL_AND_SHUFFLE"@, r) ==> r == RepeatMode::AllAndShuffle,
        RepeatMode::Single.spec_wire() == "REPEAT_SINGLE"@,
        forall|r: RepeatMode| RepeatMode::spec_read_as("REPEAT_SINGLE"@, r) ==> r == RepeatMode::Single,
{
    reveal_strlit("REPEAT_OFF");
    reveal_strlit("REPEAT_ALL");
    reveal_strlit("REPEAT_ALL_AND_SHUFFLE");
    reveal_strlit("REPEAT_SINGLE");
    assert("REPEAT_OFF"@[7] != "REPEAT_ALL"@[7]);
    assert("REPEAT_OFF"@.len() != "REPEAT_ALL_AND_SHUFFLE"@.len());
    assert("REPEAT_OFF"@.len() != "REPEAT_SINGLE"@.len());
    assert("REPEAT_ALL"@.len() != "REPEAT_ALL_AND_SHUFFLE"@.len());
    assert("REPEAT_ALL"@.len() != "REPEAT_SINGLE"@.len());
    assert("REPEAT_ALL_AND_SHUFFLE"@.len() != "REPEAT_SINGLE"@.len());
}

/// Writing out what was read from a wire name gives that name back: a `RepeatMode`
/// passes on whatever the Chromecast sent, known or not.
pub proof fn lemma_repeat_mode_wire_text_round_trip(s: Seq<char>, r: RepeatMode)
    requires
        RepeatMode::spec_read_as(s, r),
    ensures
        r.spec_wire() == s,
{
}

/// Reading back the wire name of a `RepeatMode` gives the same value, unless it is
/// an `Unknown` that carries the name of a known value.
pub proof fn lemma_repeat_mode_wire_round_trip(x: RepeatMode, r: RepeatMode)
    requires
        RepeatMode::spec_read_as(x.spec_wire(), r),
        x is Unknown ==> !RepeatMode::spec_is_known(x.spec_wire()),
    ensures
        x !is Unknown ==> r == x,
        x is Unknown ==> r is Unknown && r->Unknown_0@ == x->Unknown_0@,
{
    reveal_strlit("REPEAT_OFF");
    reveal_strlit("REPEAT_ALL");
    reveal_strlit("REPEAT_ALL_AND_SHUFFLE");
    reveal_strlit("REPEAT_SINGLE");
    assert("REPEAT_OFF"@[7] != "REPEAT_ALL"@[7]);
    assert("REPEAT_OFF"@.len() != "REPEAT_ALL_AND_SHUFFLE"@.len());
    assert("REPEAT_OFF"@.len() != "REPEAT_SINGLE"@.len());
    assert("REPEAT_ALL"@.len() != "REPEAT_ALL_AND_SHUFFLE"@.len());
    assert("REPEAT_ALL"@.len() != "REPEAT_SINGLE"@.len());
    assert("REPEAT_ALL_AND_SHUFFLE"@.len() != "REPEAT_SINGLE"@.len());
}

/// The kind of media stream.
#[derive(Clone, Debug, PartialEq, Eq)]
pub enum StreamType {
    Buffered,
    Live,
    Other,
    /// A value this library does not know, with its name as the Chromecast sent it.
    Unknown(String),
}

impl StreamType {
    /// The name of this value on the wire.
    pub open spec fn spec_wire(&self) -> Seq<char> {
        match self {
            StreamType::Buffered => "BUFFERED"@,
            StreamType::Live => "LIVE"@,
            StreamType::Other => "OTHER"@,
            StreamType::Unknown(s) => s@,
        }
    }

    /// Whether `s` is the wire name of a value this library knows.
    pub open spec fn spec_is_known(s: Seq<char>) -> bool {
        s == "BUFFERED"@ || s == "LIVE"@ || s == "OTHER"@
    }

    /// `r` is what reading the wire name `s` gives: the known value with that
    /// name, or `Unknown` carrying the name.
    pub open spec fn spec_read_as(s: Seq<char>, r: Self) -> bool {
        &&& r.spec_wire() == s
        &&& (r is Unknown <==> !StreamType::spec_is_known(s))
    }

    /// Reads a value from its wire name.
    pub fn from_wire(s: &str) -> (r: StreamType)
        ensures
            StreamType::spec_read_as(s@, r),
    {
        let t = s.to_owned();
        if t == String::from_str("BUFFERED") {
            StreamType::Buffered
        } else if t == String::from_str("LIVE") {
            StreamType::Live
        } else if t == String::from_str("OTHER") {
            StreamType::Other
        } else {
            StreamType::Unknown(t)
        }
    }

    /// The wire name of this value.
    pub fn as_wire(&self) -> (r: String)
        ensures
            r@ == self.spec_wire(),
    {
        match self {
            StreamType::Buffered => String::from_str("BUFFERED"),
            StreamType::Live => String::from_str("LIVE"),
            StreamType::Other => String::from_str("OTHER"),
            StreamType::Unknown(s) => s.clone(),
        }
    }
}

/// The protocol name of each known `StreamType`: writing the value gives that
/// text, and reading that text gives the value.
pub proof fn lemma_stream_type_wire_names()
    ensures
        StreamType::Buffered.spec_wire() == "BUFFERED"@,
        forall|r: StreamType| StreamType::spec_read_as("BUFFERED"@, r) ==> r == StreamType::Buffered,
        StreamType::Live.spec_wire() == "LIVE"@,
        forall|r: StreamType| StreamType::spec_read_as("LIVE"@, r) ==> r == StreamType::Live,
        StreamType::Other.spec_wire() == "OTHER"@,
        forall|r: StreamType| StreamType::spec_read_as("OTHER"@, r) ==> r == StreamType::Other,
{
    reveal_strlit("BUFFERED");
    reveal_strlit("LIVE");
    reveal_strlit("OTHER");
    assert("BUFFERED"@.len() != "LIVE"@.len());
    assert("BUFFERED"@.len() != "OTHER"@.len());
    assert("LIVE"@.len() != "OTHER"@.len());
}

/// Writing out what was read from a wire name gives that name back: a `StreamType`
/// passes on whatever the Chromecast sent, known or not.
pub proof fn lemma_stream_type_wire_text_round_trip(s: Seq<char>, r: StreamType)
    requires
        StreamType::spec_read_as(s, r),
    ensures
        r.spec_wire() == s,
{
}

/// Reading back the wire name of a `StreamType` gives the same value, unless it is
/// an `Unknown` that carries the name of a known value.
pub proof fn lemma_stream_type_wire_round_trip(x: StreamType, r: StreamType)
    requires
        StreamType::spec_read_as(x.spec_wire(), r),
        x is Unknown ==> !StreamType::spec_is_known(x.spec_wire()),
    ensures
        x !is Unknown ==> r == x,
        x is Unknown ==> r is Unknown && r->Unknown_0@ == x->Unknown_0@,
{
    reveal_strlit("BUFFERED");
    reveal_strlit("LIVE");
    reveal_strlit("OTHER");
    assert("BUFFERED"@.len() != "LIVE"@.len());
    assert("BUFFERED"@.len() != "OTHER"@.len());
    assert("LIVE"@.len() != "OTHER"@.len());
}

/// The edge type of text track characters.
#[derive(Clone, Debug, PartialEq, Eq)]
pub enum TextTrackEdgeType {
    /// Wire name `NONE`.
    NoEdge,
    Outline,
    DropShadow,
    Raised,
    Depressed,
    /// A value this library does not know, with its name as the Chromecast sent it.
    Unknown(String),
}

impl TextTrackEdgeType {
    /// The name of this value on the wire.
    pub open spec fn spec_wire(&self) -> Seq<char> {
        match self {
            TextTrackEdgeType::NoEdge => "NONE"@,
            TextTrackEdgeType::Outline => "OUTLINE"@,
            TextTrackEdgeType::DropShadow => "DROP_SHADOW"@,
            TextTrackEdgeType::Raised => "RAISED"@,
            TextTrackEdgeType::Depressed => "DEPRESSED"@,
            TextTrackEdgeType::Unknown(s) => s@,
        }
    }

    /// Whether `s` is the wire name of a value this library knows.
    pub open spec fn spec_is_known(s: Seq<char>) -> bool {
        s == "NONE"@ || s == "OUTLINE"@ || s == "DROP_SHADOW"@ || s == "RAISED"@ || s == "DEPRESSED"@
    }

    /// `r` is what reading the wire name `s` gives: the known value with that
    /// name, or `Unknown` carrying the name.
    pub open spec fn spec_read_as(s: Seq<char>, r: Self) -> bool {
        &&& r.spec_wire() == s
        &&& (r is Unknown <==> !TextTrackEdgeType::spec_is_known(s))
    }

    /// Reads a value from its wire name.
    pub fn from_wire(s: &str) -> (r: TextTrackEdgeType)
        ensures
            TextTrackEdgeType::spec_read_as(s@, r),
    {
        let t = s.to_owned();
        if t == String::from_str("NONE") {
            TextTrackEdgeType::NoEdge
        } else if t == String::from_str("OUTLINE") {
            TextTrackEdgeType::Outline
        } else if t == String::from_str("DROP_SHADOW") {
            TextTrackEdgeType::DropShadow
        } else if t == String::from_str("RAISED") {
            TextTrackEdgeType::Raised
        } else if t == String::from_str("DEPRESSED") {
            TextTrackEdgeType::Depressed
        } else {
            TextTrackEdgeType::Unknown(t)
        }
    }

    /// The wire name of this value.
    pub fn as_wire(&self) -> (r: String)
        ensures
            r@ == self.spec_wire(),
    {
        match self {
            TextTrackEdgeType::NoEdge => String::from_str("NONE"),
            TextTrackEdgeType::Outline => String::from_str("OUTLINE"),
            TextTrackEdgeType::DropShadow => String::from_str("DROP_SHADOW"),
            TextTrackEdgeType::Raised => String::from_str("RAISED"),
            TextTrackEdgeType::Depressed => String::from_str("DEPRESSED"),
            TextTrackEdgeType::Unknown(s) => s.clone(),
        }
    }
}

/// The protocol name of each known `TextTrackEdgeType`: writing the value gives that
/// text, and reading that text gives the value.
pub proof fn lemma_text_track_edge_type_wire_names()
    ensures
        TextTrackEdgeType::NoEdge.spec_wire() == "NONE"@,
        forall|r: TextTrackEdgeType| TextTrackEdgeType::spec_read_as("NONE"@, r) ==> r == TextTrackEdgeType::NoEdge,
        TextTrackEdgeType::Outline.spec_wire() == "OUTLINE"@,
        forall|r: TextTrackEdgeType| TextTrackEdgeType::spec_read_as("OUTLINE"@, r) ==> r == TextTrackEdgeType::Outline,
        TextTrackEdgeType::DropShadow.spec_wire() == "DROP_SHADOW"@,
        forall|r: TextTrackEdgeType| TextTrackEdgeType::spec_read_as("DROP_SHADOW"@, r) ==> r == TextTrackEdgeType::DropShadow,
        TextTrackEdgeType::Raised.spec_wire() == "RAISED"@,
        forall|r: TextTrackEdgeType| TextTrackEdgeType::spec_read_as("RAISED"@, r) ==> r == TextTrackEdgeType::Raised,
        TextTrackEdgeType::Depressed.spec_wire() == "DEPRESSED"@,
        forall|r: TextTrackEdgeType| TextTrackEdgeType::spec_read_as("DEPRESSED"@, r) ==> r == TextTrackEdgeType::Depressed,
{
    reveal_strlit("NONE");
    reveal_strlit("OUTLINE");
    reveal_strlit("DROP_SHADOW");
    reveal_strlit("RAISED");
    reveal_strlit("DEPRESSED");
    assert("NONE"@.len() != "OUTLINE"@.len());
    assert("NONE"@.len() != "DROP_SHADOW"@.len());
    assert("NONE"@.len() != "RAISED"@.len());
    assert("NONE"@.len() != "DEPRESSED"@.len());
    assert("OUTLINE"@.len() != "DROP_SHADOW"@.len());
    assert("OUTLINE"@.len() != "RAISED"@.len());
    assert("OUTLINE"@.len() != "DEPRESSED"@.len());
    assert("DROP_SHADOW"@.len() != "RAISED"@.len());
    assert("DROP_SHADOW"@.len() != "DEPRESSED"@.len());
    assert("RAISED"@.len() != "DEPRESSED"@.len());
}

/// Writing out what was read from a wire name gives that name back: a `TextTrackEdgeType`
/// passes on whatever the Chromecast sent, known or not.
pub proof fn lemma_text_track_edge_type_wire_text_round_trip(s: Seq<char>, r: TextTrackEdgeType)
    requires
        TextTrackEdgeType::spec_read_as(s, r),
    ensures
        r.spec_wire() == s,
{
}

/// Reading back the wire name of a `TextTrackEdgeType` gives the same value, unless it is
/// an `Unknown` that carries the name of a known value.
pub proof fn lemma_text_track_edge_type_wire_round_trip(x: TextTrackEdgeType, r: TextTrackEdgeType)
    requires
        TextTrackEdgeType::spec_read_as(x.spec_wire(), r),
        x is Unknown ==> !TextTrackEdgeType::spec_is_known(x.spec_wire()),
    ensures
        x !is Unknown ==> r == x,
        x is Unknown ==> r is Unknown && r->Unknown_0@ == x->Unknown_0@,
{
    reveal_strlit("NONE");
    reveal_strlit("OUTLINE");
    reveal_strlit("DROP_SHADOW");
    reveal_strlit("RAISED");
    reveal_strlit("DEPRESSED");
    assert("NONE"@.len() != "OUTLINE"@.len());
    assert("NONE"@.len() != "DROP_SHADOW"@.len());
    assert("NONE"@.len() != "RAISED"@.len());
    assert("NONE"@.len() != "DEPRESSED"@.len());
    assert("OUTLINE"@.len() != "DROP_SHADOW"@.len());
    assert("OUTLINE"@.len() != "RAISED"@.len());
    assert("OUTLINE"@.len() != "DEPRESSED"@.len());
    assert("DROP_SHADOW"@.len() != "RAISED"@.len());
    assert("DROP_SHADOW"@.len() != "DEPRESSED"@.len());
    assert("RAISED"@.len() != "DEPRESSED"@.len());
}

/// The kind of a text track.
#[derive(Clone, Debug, PartialEq, Eq)]
pub enum TextTrackType {
    Captions,
    Chapters,
    Descriptions,
    Metadata,
    Subtitles,
    /// A value this library does not know, with its name as the Chromecast sent it.
    Unknown(String),
}

impl TextTrackType {
    /// The name of this value on the wire.
    pub open spec fn spec_wire(&self) -> Seq<char> {
        match self {
            TextTrackType::Captions => "CAPTIONS"@,
            TextTrackType::Chapters => "CHAPTERS"@,
            TextTrackType::Descriptions => "DESCRIPTIONS"@,
            TextTrackType::Metadata => "METADATA"@,
            TextTrackType::Subtitles => "SUBTITLES"@,
            TextTrackType::Unknown(s) => s@,
        }
    }

    /// Whether `s` is the wire name of a value this library knows.
    pub open spec fn spec_is_known(s: Seq<char>) -> bool {
        s == "CAPTIONS"@ || s == "CHAPTERS"@ || s == "DESCRIPTIONS"@ || s == "METADATA"@ || s == "SUBTITLES"@
    }

    /// `r` is what reading the wire name `s` gives: the known value with that
    /// name, or `Unknown` carrying the name.
    pub open spec fn spec_read_as(s: Seq<char>, r: Self) -> bool {
        &&& r.spec_wire() == s
        &&& (r is Unknown <==> !TextTrackType::spec_is_known(s))
    }

    /// Reads a value from its wire name.
    pub fn from_wire(s: &str) -> (r: TextTrackType)
        ensures
            TextTrackType::spec_read_as(s@, r),
    {
        let t = s.to_owned();
        if t == String::from_str("CAPTIONS") {
            TextTrackType::Captions
        } else if t == String::from_str("CHAPTERS") {
            TextTrackType::Chapters
        } else if t == String::from_str("DESCRIPTIONS") {
            TextTrackType::Descriptions
        } else if t == String::from_str("METADATA") {
            TextTrackType::Metadata
        } else if t == String::from_str("SUBTITLES") {
            TextTrackType::Subtitles
        } else {
            TextTrackType::Unknown(t)
        }
    }

    /// The wire name of this value.
    pub fn as_wire(&self) -> (r: String)
        ensures
            r@ == self.spec_wire(),
    {
        match self {
            TextTrackType::Captions => String::from_str("CAPTIONS"),
            TextTrackType::Chapters => String::from_str("CHAPTERS"),
            TextTrackType::Descriptions => String::from_str("DESCRIPTIONS"),
            TextTrackType::Metadata => String::from_str("METADATA"),
            TextTrackType::Subtitles => String::from_str("SUBTITLES"),
            TextTrackType::Unknown(s) => s.clone(),
        }
    }
}

/// The protocol name of each known `TextTrackType`: writing the value gives that
/// text, and reading that text gives the value.
pub proof fn lemma_text_track_type_wire_names()
    ensures
        TextTrackType::Captions.spec_wire() == "CAPTIONS"@,
        forall|r: TextTrackType| TextTrackType::spec_read_as("CAPTIONS"@, r) ==> r == TextTrackType::Captions,
        TextTrackType::Chapters.spec_wire() == "CHAPTERS"@,
        forall|r: TextTrackType| TextTrackType::spec_read_as("CHAPTERS"@, r) ==> r == TextTrackType::Chapters,
        TextTrackType::Descriptions.spec_wire() == "DESCRIPTIONS"@,
        forall|r: TextTrackType| TextTrackType::spec_read_as("DESCRIPTIONS"@, r) ==> r == TextTrackType::Descriptions,
        TextTrackType::Metadata.spec_wire() == "METADATA"@,
        forall|r: TextTrackType| TextTrackType::spec_read_as("METADATA"@, r) ==> r == TextTrackType::Metadata,
        TextTrackType::Subtitles.spec_wire() == "SUBTITLES"@,
        forall|r: TextTrackType| TextTrackType::spec_read_as("SUBTITLES"@, r) ==> r == TextTrackType::Subtitles,
{
    reveal_strlit("CAPTIONS");
    reveal_strlit("CHAPTERS");
    reveal_strlit("DESCRIPTIONS");
    reveal_strlit("METADATA");
    reveal_strlit("SUBTITLES");
    assert("CAPTIONS"@[1] != "CHAPTERS"@[1]);
    assert("CAPTIONS"@.len() != "DESCRIPTIONS"@.len());
    assert("CAPTIONS"@[0] != "METADATA"@[0]);
    assert("CAPTIONS"@.len() != "SUBTITLES"@.len());
    assert("CHAPTERS"@.len() != "DESCRIPTIONS"@.len());
    assert("CHAPTERS"@[0] != "METADATA"@[0]);
    assert("CHAPTERS"@.len() != "SUBTITLES"@.len());
    assert("DESCRIPTIONS"@.len() != "METADATA"@.len());
    assert("DESCRIPTIONS"@.len() != "SUBTITLES"@.len());
    assert("METADATA"@.len() != "SUBTITLES"@.len());
}

/// Writing out what was read from a wire name gives that name back: a `TextTrackType`
/// passes on whatever the Chromecast sent, known or not.
pub proof fn lemma_text_track_type_wire_text_round_trip(s: Seq<char>, r: TextTrackType)
    requires
        TextTrackType::spec_read_as(s, r),
    ensures
        r.spec_wire() == s,
{
}

/// Reading back the wire name of a `TextTrackType` gives the same value, unless it is
/// an `Unknown` that carries the name of a known value.
pub proof fn lemma_text_track_type_wire_round_trip(x: TextTrackType, r: TextTrackType)
    requires
        TextTrackType::spec_read_as(x.spec_wire(), r),
        x is Unknown ==> !TextTrackType::spec_is_known(x.spec_wire()),
    ensures
        x !is Unknown ==> r == x,
        x is Unknown ==> r is Unknown && r->Unknown_0@ == x->Unknown_0@,
{
    reveal_strlit("CAPTIONS");
    reveal_strlit("CHAPTERS");
    reveal_strlit("DESCRIPTIONS");
    reveal_strlit("METADATA");
    reveal_strlit("SUBTITLES");
    assert("CAPTIONS"@[1] != "CHAPTERS"@[1]);
    assert("CAPTIONS"@.len() != "DESCRIPTIONS"@.len());
    assert("CAPTIONS"@[0] != "METADATA"@[0]);
    assert("CAPTIONS"@.len() != "SUBTITLES"@.len());
    assert("CHAPTERS"@.len() != "DESCRIPTIONS"@.len());
    assert("CHAPTERS"@[0] != "METADATA"@[0]);
    assert("CHAPTERS"@.len() != "SUBTITLES"@.len());
    assert("DESCRIPTIONS"@.len() != "METADATA"@.len());
    assert("DESCRIPTIONS"@.len() != "SUBTITLES"@.len());
    assert("METADATA"@.len() != "SUBTITLES"@.len());
}

/// The window type of text tracks.
#[derive(Clone, Debug, PartialEq, Eq)]
pub enum TextTrackWindowType {
    /// Wire name `NONE`.
    NoWindow,
    Normal,
    RoundedCorners,
    /// A value this library does not know, with its name as the Chromecast sent it.
    Unknown(String),
}

impl TextTrackWindowType {
    /// The name of this value on the wire.
    pub open spec fn spec_wire(&self) -> Seq<char> {
        match self {
            TextTrackWindowType::NoWindow => "NONE"@,
            TextTrackWindowType::Normal => "NORMAL"@,
            TextTrackWindowType::RoundedCorners => "ROUNDED_CORNERS"@,
            TextTrackWindowType::Unknown(s) => s@,
        }
    }

    /// Whether `s` is the wire name of a value this library knows.
    pub open spec fn spec_is_known(s: Seq<char>) -> bool {
        s == "NONE"@ || s == "NORMAL"@ || s == "ROUNDED_CORNERS"@
    }

    /// `r` is what reading the wire name `s` gives: the known value with that
    /// name, or `Unknown` carrying the name.
    pub open spec fn spec_read_as(s: Seq<char>, r: Self) -> bool {
        &&& r.spec_wire() == s
        &&& (r is Unknown <==> !TextTrackWindowType::spec_is_known(s))
    }

    /// Reads a value from its wire name.
    pub fn from_wire(s: &str) -> (r: TextTrackWindowType)
        ensures
            TextTrackWindowType::spec_read_as(s@, r),
    {
        let t = s.to_owned();
        if t == String::from_str("NONE") {
            TextTrackWindowType::NoWindow
        } else if t == String::from_str("NORMAL") {
            TextTrackWindowType::Normal
        } else if t == String::from_str("ROUNDED_CORNERS") {
            TextTrackWindowType::RoundedCorners
        } else {
            TextTrackWindowType::Unknown(t)
        }
    }

    /// The wire name of this value.
    pub fn as_wire(&self) -> (r: String)
        ensures
            r@ == self.spec_wire(),
    {
        match self {
            TextTrackWindowType::NoWindow => String::from_str("NONE"),
            TextTrackWindowType::Normal => String::from_str("NORMAL"),
            TextTrackWindowType::RoundedCorners => String::from_str("ROUNDED_CORNERS"),
            TextTrackWindowType::Unknown(s) => s.clone(),
        }
    }
}

/// The protocol name of each known `TextTrackWindowType`: writing the value gives that
/// text, and reading that text gives the value.
pub proof fn lemma_text_track_window_type_wire_names()
    ensures
        TextTrackWindowType::NoWindow.spec_wire() == "NONE"@,
        forall|r: TextTrackWindowType| TextTrackWindowType::spec_read_as("NONE"@, r) ==> r == TextTrackWindowType::NoWindow,
        TextTrackWindowType::Normal.spec_wire() == "NORMAL"@,
        forall|r: TextTrackWindowType| TextTrackWindowType::spec_read_as("NORMAL"@, r) ==> r == TextTrackWindowType::Normal,
        TextTrackWindowType::RoundedCorners.spec_wire() == "ROUNDED_CORNERS"@,
        forall|r: TextTrackWindowType| TextTrackWindowType::spec_read_as("ROUNDED_CORNERS"@, r) ==> r == TextTrackWindowType::RoundedCorners,
{
    reveal_strlit("NONE");
    reveal_strlit("NORMAL");
    reveal_strlit("ROUNDED_CORNERS");
    assert("NONE"@.len() != "NORMAL"@.len());
    assert("NONE"@.len() != "ROUNDED_CORNERS"@.len());
    assert("NORMAL"@.len() != "ROUNDED_CORNERS"@.len());
}

/// Writing out what was read from a wire name gives that name back: a `TextTrackWindowType`
/// passes on whatever the Chromecast sent, known or not.
pub proof fn lemma_text_track_window_type_wire_text_round_trip(s: Seq<char>, r: TextTrackWindowType)
    requires
        TextTrackWindowType::spec_read_as(s, r),
    ensures
        r.spec_wire() == s,
{
}

/// Reading back the wire name of a `TextTrackWindowType` gives the same value, unless it is
/// an `Unknown` that carries the name of a known value.
pub proof fn lemma_text_track_window_type_wire_round_trip(x: TextTrackWindowType, r: TextTrackWindowType)
    requires
        TextTrackWindowType::spec_read_as(x.spec_wire(), r),
        x is Unknown ==> !TextTrackWindowType::spec_is_known(x.spec_wire()),
    ensures
        x !is Unknown ==> r == x,
        x is Unknown ==> r is Unknown && r->Unknown_0@ == x->Unknown_0@,
{
    reveal_strlit("NONE");
    reveal_strlit("NORMAL");
    reveal_strlit("ROUNDED_CORNERS");
    assert("NONE"@.len() != "NORMAL"@.len());
    assert("NONE"@.len() != "ROUNDED_CORNERS"@.len());
    assert("NORMAL"@.len() != "ROUNDED_CORNERS"@.len());
}

/// The kind of a media track.
#[derive(Clone, Debug, PartialEq, Eq)]
pub enum TrackType {
    Audio,
    Video,
    Text,
    /// A value this library does not know, with its name as the Chromecast sent it.
    Unknown(String),
}

impl TrackType {
    /// The name of this value on the wire.
    pub open spec fn spec_wire(&self) -> Seq<char> {
        match self {
            TrackType::Audio => "AUDIO"@,
            TrackType::Video => "VIDEO"@,
            TrackType::Text => "TEXT"@,
            TrackType::Unknown(s) => s@,
        }
    }

    /// Whether `s` is the wire name of a value this library knows.
    pub open spec fn spec_is_known(s: Seq<char>) -> bool {
        s == "AUDIO"@ || s == "VIDEO"@ || s == "TEXT"@
    }

    /// `r` is what reading the wire name `s` gives: the known value with that
    /// name, or `Unknown` carrying the name.
    pub open spec fn spec_read_as(s: Seq<char>, r: Self) -> bool {
        &&& r.spec_wire() == s
        &&& (r is Unknown <==> !TrackType::spec_is_known(s))
    }

    /// Reads a value from its wire name.
    pub fn from_wire(s: &str) -> (r: TrackType)
        ensures
            TrackType::spec_read_as(s@, r),
    {
        let t = s.to_owned();
        if t == String::from_str("AUDIO") {
            TrackType::Audio
        } else if t == String::from_str("VIDEO") {
            TrackType::Video
        } else if t == String::from_str("TEXT") {
            TrackType::Text
        } else {
            TrackType::Unknown(t)
        }
    }

    /// The wire name of this value.
    pub fn as_wire(&self) -> (r: String)
        ensures
            r@ == self.spec_wire(),
    {
        match self {
            TrackType::Audio => String::from_str("AUDIO"),
            TrackType::Video => String::from_str("VIDEO"),
            TrackType::Text => String::from_str("TEXT"),
            TrackType::Unknown(s) => s.clone(),
        }
    }
}

/// The protocol name of each known `TrackType`: writing the value gives that
/// text, and reading that text gives the value.
pub proof fn lemma_track_type_wire_names()
    ensures
        TrackType::Audio.spec_wire() == "AUDIO"@,
        forall|r: TrackType| TrackType::spec_read_as("AUDIO"@, r) ==> r == TrackType::Audio,
        TrackType::Video.spec_wire() == "VIDEO"@,
        forall|r: TrackType| TrackType::spec_read_as("VIDEO"@, r) ==> r == TrackType::Video,
        TrackType::Text.spec_wire() == "TEXT"@,
        forall|r: TrackType| TrackType::spec_read_as("TEXT"@, r) ==> r == TrackType::Text,
{
    reveal_strlit("AUDIO");
    reveal_strlit("VIDEO");
    reveal_strlit("TEXT");
    assert("AUDIO"@[0] != "VIDEO"@[0]);
    assert("AUDIO"@.len() != "TEXT"@.len());
    assert("VIDEO"@.len() != "TEXT"@.len());
}

/// Writing out what was read from a wire name gives that name back: a `TrackType`
/// passes on whatever the Chromecast sent, known or not.
pub proof fn lemma_track_type_wire_text_round_trip(s: Seq<char>, r: TrackType)
    requires
        TrackType::spec_read_as(s, r),
    ensures
        r.spec_wire() == s,
{
}

/// Reading back the wire name of a `TrackType` gives the same value, unless it is
/// an `Unknown` that carries the name of a known value.
pub proof fn lemma_track_type_wire_round_trip(x: TrackType, r: TrackType)
    requires
        TrackType::spec_read_as(x.spec_wire(), r),
        x is Unknown ==> !TrackType::spec_is_known(x.spec_wire()),
    ensures
        x !is Unknown ==> r == x,
        x is Unknown ==> r is Unknown && r->Unknown_0@ == x->Unknown_0@,
{
    reveal_strlit("AUDIO");
    reveal_strlit("VIDEO");
    reveal_strlit("TEXT");
    assert("AUDIO"@[0] != "VIDEO"@[0]);
    assert("AUDIO"@.len() != "TEXT"@.len());
    assert("VIDEO"@.len() != "TEXT"@.len());
}

/// How a media queue changed.
#[derive(Clone, Debug, PartialEq, Eq)]
pub enum QueueChangeType {
    /// Queue had items inserted.
    Insert,
    /// Queue had items removed.
    Remove,
    /// A list of items changed.
    ItemsChange,
    /// The queue went through an update and a new ordered list is sent.
    Update,
    /// The queue had no change. This is used to echo back when multiple senders ended up requesting the same data.
    NoChange,
    /// A value this library does not know, with its name as the Chromecast sent it.
    Unknown(String),
}

impl QueueChangeType {
    /// The name of this value on the wire.
    pub open spec fn spec_wire(&self) -> Seq<char> {
        match self {
            QueueChangeType::Insert => "INSERT"@,
            QueueChangeType::Remove => "REMOVE"@,
            QueueChangeType::ItemsChange => "ITEMS_CHANGE"@,
            QueueChangeType::Update => "UPDATE"@,
            QueueChangeType::NoChange => "NO_CHANGE"@,
            QueueChangeType::Unknown(s) => s@,
        }
    }

    /// Whether `s` is the wire name of a value this library knows.
    pub open spec fn spec_is_known(s: Seq<char>) -> bool {
        s == "INSERT"@ || s == "REMOVE"@ || s == "ITEMS_CHANGE"@ || s == "UPDATE"@ || s == "NO_CHANGE"@
    }

    /// `r` is what reading the wire name `s` gives: the known value with that
    /// name, or `Unknown` carrying the name.
    pub open spec fn spec_read_as(s: Seq<char>, r: Self) -> bool {
        &&& r.spec_wire() == s
        &&& (r is Unknown <==> !QueueChangeType::spec_is_known(s))
    }

    /// Reads a value from its wire name.
    pub fn from_wire(s: &str) -> (r: QueueChangeType)
        ensures
            QueueChangeType::spec_read_as(s@, r),
    {
        let t = s.to_owned();
        if t == String::from_str("INSERT") {
            QueueChangeType::Insert
        } else if t == String::from_str("REMOVE") {
            QueueChangeType::Remove
        } else if t == String::from_str("ITEMS_CHANGE") {
            QueueChangeType::ItemsChange
        } else if t == String::from_str("UPDATE") {
            QueueChangeType::Update
        } else if t == String::from_str("NO_CHANGE") {
            QueueChangeType::NoChange
        } else {
            QueueChangeType::Unknown(t)
        }
    }

    /// The wire name of this value.
    pub fn as_wire(&self) -> (r: String)
        ensures
            r@ == self.spec_wire(),
    {
        match self {
            QueueChangeType::Insert => String::from_str("INSERT"),
            QueueChangeType::Remove => String::from_str("REMOVE"),
            QueueChangeType::ItemsChange => String::from_str("ITEMS_CHANGE"),
            QueueChangeType::Update => String::from_str("UPDATE"),
            QueueChangeType::NoChange => String::from_str("NO_CHANGE"),
            QueueChangeType::Unknown(s) => s.clone(),
        }
    }
}

/// The protocol name of each known `QueueChangeType`: writing the value gives that
/// text, and reading that text gives the value.
pub proof fn lemma_queue_change_type_wire_names()
    ensures
        QueueChangeType::Insert.spec_wire() == "INSERT"@,
        forall|r: QueueChangeType| QueueChangeType::spec_read_as("INSERT"@, r) ==> r == QueueChangeType::Insert,
        QueueChangeType::Remove.spec_wire() == "REMOVE"@,
        forall|r: QueueChangeType| QueueChangeType::spec_read_as("REMOVE"@, r) ==> r == QueueChangeType::Remove,
        QueueChangeType::ItemsChange.spec_wire() == "ITEMS_CHANGE"@,
        forall|r: QueueChangeType| QueueChangeType::spec_read_as("ITEMS_CHANGE"@, r) ==> r == QueueChangeType::ItemsChange,
        QueueChangeType::Update.spec_wire() == "UPDATE"@,
        forall|r: QueueChangeType| QueueChangeType::spec_read_as("UPDATE"@, r) ==> r == QueueChangeType::Update,
        QueueChangeType::NoChange.spec_wire() == "NO_CHANGE"@,
        forall|r: QueueChangeType| QueueChangeType::spec_read_as("NO_CHANGE"@, r) ==> r == QueueChangeType::NoChange,
{
    reveal_strlit("INSERT");
    reveal_strlit("REMOVE");
    reveal_strlit("ITEMS_CHANGE");
    reveal_strlit("UPDATE");
    reveal_strlit("NO_CHANGE");
    assert("INSERT"@[0] != "REMOVE"@[0]);
    assert("INSERT"@.len() != "ITEMS_CHANGE"@.len());
    assert("INSERT"@[0] != "UPDATE"@[0]);
    assert("INSERT"@.len() != "NO_CHANGE"@.len());
    assert("REMOVE"@.len() != "ITEMS_CHANGE"@.len());
    assert("REMOVE"@[0] != "UPDATE"@[0]);
    assert("REMOVE"@.len() != "NO_CHANGE"@.len());
    assert("ITEMS_CHANGE"@.len() != "UPDATE"@.len());
    assert("ITEMS_CHANGE"@.len() != "NO_CHANGE"@.len());
    assert("UPDATE"@.len() != "NO_CHANGE"@.len());
}

/// Writing out what was read from a wire name gives that name back: a `QueueChangeType`
/// passes on whatever the Chromecast sent, known or not.
pub proof fn lemma_queue_change_type_wire_text_round_trip(s: Seq<char>, r: QueueChangeType)
    requires
        QueueChangeType::spec_read_as(s, r),
    ensures
        r.spec_wire() == s,
{
}

/// Reading back the wire name of a `QueueChangeType` gives the same value, unless it is
/// an `Unknown` that carries the name of a known value.
pub proof fn lemma_queue_change_type_wire_round_trip(x: QueueChangeType, r: QueueChangeType)
    requires
        QueueChangeType::spec_read_as(x.spec_wire(), r),
        x is Unknown ==> !QueueChangeType::spec_is_known(x.spec_wire()),
    ensures
        x !is Unknown ==> r == x,
        x is Unknown ==> r is Unknown && r->Unknown_0@ == x->Unknown_0@,
{
    reveal_strlit("INSERT");
    reveal_strlit("REMOVE");
    reveal_strlit("ITEMS_CHANGE");
    reveal_strlit("UPDATE");
    reveal_strlit("NO_CHANGE");
    assert("INSERT"@[0] != "REMOVE"@[0]);
    assert("INSERT"@.len() != "ITEMS_CHANGE"@.len());
    assert("INSERT"@[0] != "UPDATE"@[0]);
    assert("INSERT"@.len() != "NO_CHANGE"@.len());
    assert("REMOVE"@.len() != "ITEMS_CHANGE"@.len());
    assert("REMOVE"@[0] != "UPDATE"@[0]);
    assert("REMOVE"@.len() != "NO_CHANGE"@.len());
    assert("ITEMS_CHANGE"@.len() != "UPDATE"@.len());
    assert("ITEMS_CHANGE"@.len() != "NO_CHANGE"@.len());
    assert("UPDATE"@.len() != "NO_CHANGE"@.len());
}

/// Whether playback resumes after a seek.
#[derive(Clone, Copy, Debug, PartialEq, Eq, Structural)]
pub enum ResumeState {
    /// Wire name `PLAYBACK_PAUSE`.
    Pause,
    /// Wire name `PLAYBACK_START`.
    Start,
}

impl ResumeState {
    /// The name of this value on the wire.
    pub open spec fn spec_wire(&self) -> Seq<char> {
        match self {
            ResumeState::Pause => "PLAYBACK_PAUSE"@,
            ResumeState::Start => "PLAYBACK_START"@,
        }
    }

    /// Reads a value from its wire name; any other name is not a `ResumeState`.
    pub fn from_wire(s: &str) -> (r: Option<ResumeState>)
        ensures
            r is Some <==> (s@ == "PLAYBACK_PAUSE"@ || s@ == "PLAYBACK_START"@),
            r is Some ==> r.unwrap().spec_wire() == s@,
    {
        let t = s.to_owned();
        if t == String::from_str("PLAYBACK_PAUSE") {
            Some(ResumeState::Pause)
        } else if t == String::from_str("PLAYBACK_START") {
            Some(ResumeState::Start)
        } else {
            None
        }
    }

    /// The wire name of this value.
    pub fn as_wire(&self) -> (r: String)
        ensures
            r@ == self.spec_wire(),
    {
        match self {
            ResumeState::Pause => String::from_str("PLAYBACK_PAUSE"),
            ResumeState::Start => String::from_str("PLAYBACK_START"),
        }
    }
}

/// The wire names of the resume states: pause is `PLAYBACK_PAUSE`, start is
/// `PLAYBACK_START`.
pub proof fn lemma_resume_state_wire_names()
    ensures
        ResumeState::Pause.spec_wire() == "PLAYBACK_PAUSE"@,
        ResumeState::Start.spec_wire() == "PLAYBACK_START"@,
{
}

/// Reading back the wire name of a `ResumeState` gives the same value.
pub proof fn lemma_resume_state_wire_round_trip(x: ResumeState, r: ResumeState)
    requires
        r.spec_wire() == x.spec_wire(),
    ensures
        r == x,
{
    reveal_strlit("PLAYBACK_PAUSE");
    reveal_strlit("PLAYBACK_START");
    assert("PLAYBACK_PAUSE"@[9] != "PLAYBACK_START"@[9]);
}

/// The kind of metadata of a media item; on the wire an integer.
#[derive(Clone, Copy, Debug, PartialEq, Eq, Structural)]
pub enum MetadataType {
    /// Wire value 0, the default.
    Generic,
    /// Wire value 1.
    Movie,
    /// Wire value 2.
    TvShow,
    /// Wire value 3.
    MusicTrack,
    /// Wire value 4.
    Photo,
    /// Any other wire value.
    Unknown(i32),
}

/// The metadata type an integer on the wire stands for.
pub open spec fn spec_metadata_type_from_i32(d: i32) -> MetadataType {
    if d == 0 {
        MetadataType::Generic
    } else if d == 1 {
        MetadataType::Movie
    } else if d == 2 {
        MetadataType::TvShow
    } else if d == 3 {
        MetadataType::MusicTrack
    } else if d == 4 {
        MetadataType::Photo
    } else {
        MetadataType::Unknown(d)
    }
}

/// The integer a metadata type is written as on the wire.
pub open spec fn spec_metadata_type_to_i32(t: MetadataType) -> i32 {
    match t {
        MetadataType::Generic => 0,
        MetadataType::Movie => 1,
        MetadataType::TvShow => 2,
        MetadataType::MusicTrack => 3,
        MetadataType::Photo => 4,
        MetadataType::Unknown(d) => d,
    }
}

impl From<i32> for MetadataType {
    fn from(d: i32) -> (r: MetadataType) {
        if d == 0 {
            MetadataType::Generic
        } else if d == 1 {
            MetadataType::Movie
        } else if d == 2 {
            MetadataType::TvShow
        } else if d == 3 {
            MetadataType::MusicTrack
        } else if d == 4 {
            MetadataType::Photo
        } else {
            MetadataType::Unknown(d)
        }
    }
}

impl vstd::std_specs::convert::FromSpecImpl<i32> for MetadataType {
    open spec fn obeys_from_spec() -> bool {
        true
    }

    open spec fn from_spec(d: i32) -> MetadataType {
        spec_metadata_type_from_i32(d)
    }
}

impl From<MetadataType> for i32 {
    fn from(t: MetadataType) -> (r: i32) {
        match t {
            MetadataType::Generic => 0,
            MetadataType::Movie => 1,
            MetadataType::TvShow => 2,
            MetadataType::MusicTrack => 3,
            MetadataType::Photo => 4,
            MetadataType::Unknown(d) => d,
        }
    }
}

impl vstd::std_specs::convert::FromSpecImpl<MetadataType> for i32 {
    open spec fn obeys_from_spec() -> bool {
        true
    }

    open spec fn from_spec(t: MetadataType) -> i32 {
        spec_metadata_type_to_i32(t)
    }
}

impl Default for MetadataType {
    fn default() -> (r: MetadataType)
        ensures
            r == MetadataType::Generic,
    {
        MetadataType::Generic
    }
}

/// Every integer survives the trip to a metadata type and back.
pub proof fn lemma_metadata_type_i32_round_trip(d: i32)
    ensures
        spec_metadata_type_to_i32(spec_metadata_type_from_i32(d)) == d,
{
}

/// A metadata type survives the trip to its integer and back, unless it is an
/// `Unknown` that carries the integer of a known type.
pub proof fn lemma_metadata_type_round_trip(t: MetadataType)
    requires
        t matches MetadataType::Unknown(d) ==> !(0 <= d <= 4),
    ensures
        spec_metadata_type_from_i32(spec_metadata_type_to_i32(t)) == t,
{
}

/// The integers of the known metadata types: generic 0, movie 1, TV show 2,
/// music track 3, photo 4; any other integer is an unknown type that keeps it.
pub proof fn lemma_metadata_type_numbers(d: i32)
    ensures
        spec_metadata_type_from_i32(0) == MetadataType::Generic,
        spec_metadata_type_from_i32(1) == MetadataType::Movie,
        spec_metadata_type_from_i32(2) == MetadataType::TvShow,
        spec_metadata_type_from_i32(3) == MetadataType::MusicTrack,
        spec_metadata_type_from_i32(4) == MetadataType::Photo,
        !(0 <= d <= 4) ==> spec_metadata_type_from_i32(d) == MetadataType::Unknown(d),
        spec_metadata_type_to_i32(MetadataType::Generic) == 0,
        spec_metadata_type_to_i32(MetadataType::Movie) == 1,
        spec_metadata_type_to_i32(MetadataType::TvShow) == 2,
        spec_metadata_type_to_i32(MetadataType::MusicTrack) == 3,
        spec_metadata_type_to_i32(MetadataType::Photo) == 4,
        spec_metadata_type_to_i32(MetadataType::Unknown(d)) == d,
{
}

/// Whether bit `i` of `bits` is set.
pub open spec fn spec_bit32(bits: u32, i: u32) -> bool {
    (bits >> i) & 1u32 == 1u32
}

/// `bits` with bit `i` set to `b`.
pub open spec fn spec_with_bit32(bits: u32, i: u32, b: bool) -> u32 {
    if b {
        bits | (1u32 << i)
    } else {
        bits & !(1u32 << i)
    }
}

/// Whether bit `i` of `bits` is set.
pub open spec fn spec_bit8(bits: u8, i: u8) -> bool {
    (bits >> i) & 1u8 == 1u8
}

/// `bits` with bit `i` set to `b`.
pub open spec fn spec_with_bit8(bits: u8, i: u8, b: bool) -> u8 {
    if b {
        bits | (1u8 << i)
    } else {
        bits & !(1u8 << i)
    }
}

/// Setting a bit of a `u32` sets that bit and no other.
pub proof fn lemma_with_bit32(bits: u32, i: u32, j: u32, b: bool)
    requires
        i < 32,
        j < 32,
    ensures
        spec_bit32(spec_with_bit32(bits, i, b), i) == b,
        j != i ==> spec_bit32(spec_with_bit32(bits, i, b), j) == spec_bit32(bits, j),
{
    if b {
        assert(((bits | (1u32 << i)) >> i) & 1u32 == 1u32) by (bit_vector)
            requires
                i < 32,
        ;
        assert(j != i ==> (((bits | (1u32 << i)) >> j) & 1u32 == 1u32) == ((bits >> j) & 1u32 == 1u32))
            by (bit_vector)
            requires
                i < 32,
                j < 32,
        ;
    } else {
        assert(((bits & !(1u32 << i)) >> i) & 1u32 != 1u32) by (bit_vector)
            requires
                i < 32,
        ;
        assert(j != i ==> (((bits & !(1u32 << i)) >> j) & 1u32 == 1u32) == ((bits >> j) & 1u32 == 1u32))
            by (bit_vector)
            requires
                i < 32,
                j < 32,
        ;
    }
}

/// Setting a bit of a `u8` sets that bit and no other.
pub proof fn lemma_with_bit8(bits: u8, i: u8, j: u8, b: bool)
    requires
        i < 8,
        j < 8,
    ensures
        spec_bit8(spec_with_bit8(bits, i, b), i) == b,
        j != i ==> spec_bit8(spec_with_bit8(bits, i, b), j) == spec_bit8(bits, j),
{
    if b {
        assert(((bits | (1u8 << i)) >> i) & 1u8 == 1u8) by (bit_vector)
            requires
                i < 8,
        ;
        assert(j != i ==> (((bits | (1u8 << i)) >> j) & 1u8 == 1u8) == ((bits >> j) & 1u8 == 1u8))
            by (bit_vector)
            requires
                i < 8,
                j < 8,
        ;
    } else {
        assert(((bits & !(1u8 << i)) >> i) & 1u8 != 1u8) by (bit_vector)
            requires
                i < 8,
        ;
        assert(j != i ==> (((bits & !(1u8 << i)) >> j) & 1u8 == 1u8) == ((bits >> j) & 1u8 == 1u8))
            by (bit_vector)
            requires
                i < 8,
                j < 8,
        ;
    }
}

/// Bitfield of supported media commands: bit 0 pause, 1 seek, 2 stream volume,
/// 3 stream mute, 4 skip forward, 5 skip backward. The other bits are kept as
/// they came.
#[derive(Clone, Copy, Debug)]
pub struct MediaCommands {
    pub bits: u32,
}

impl MediaCommands {
    /// No command supported.
    pub fn new() -> (r: MediaCommands)
        ensures
            r.bits == 0,
    {
        MediaCommands { bits: 0 }
    }

    pub fn pause(&self) -> (r: bool)
        ensures
            r == spec_bit32(self.bits, 0),
            r == (self.bits & 1u32 != 0),
    {
        let bits = self.bits;
        proof {
            assert(((bits >> 0u32) & 1u32 == 1u32) == (bits & 1u32 != 0)) by (bit_vector);
        }
        (self.bits >> 0u32) & 1u32 == 1u32
    }

    pub fn seek(&self) -> (r: bool)
        ensures
            r == spec_bit32(self.bits, 1),
            r == (self.bits & 2u32 != 0),
    {
        let bits = self.bits;
        proof {
            assert(((bits >> 1u32) & 1u32 == 1u32) == (bits & 2u32 != 0)) by (bit_vector);
        }
        (self.bits >> 1u32) & 1u32 == 1u32
    }

    pub fn stream_volume(&self) -> (r: bool)
        ensures
            r == spec_bit32(self.bits, 2),
            r == (self.bits & 4u32 != 0),
    {
        let bits = self.bits;
        proof {
            assert(((bits >> 2u32) & 1u32 == 1u32) == (bits & 4u32 != 0)) by (bit_vector);
        }
        (self.bits >> 2u32) & 1u32 == 1u32
    }

    pub fn stream_mute(&self) -> (r: bool)
        ensures
            r == spec_bit32(self.bits, 3),
            r == (self.bits & 8u32 != 0),
    {
        let bits = self.bits;
        proof {
            assert(((bits >> 3u32) & 1u32 == 1u32) == (bits & 8u32 != 0)) by (bit_vector);
        }
        (self.bits >> 3u32) & 1u32 == 1u32
    }

    pub fn skip_forward(&self) -> (r: bool)
        ensures
            r == spec_bit32(self.bits, 4),
            r == (self.bits & 16u32 != 0),
    {
        let bits = self.bits;
        proof {
            assert(((bits >> 4u32) & 1u32 == 1u32) == (bits & 16u32 != 0)) by (bit_vector);
        }
        (self.bits >> 4u32) & 1u32 == 1u32
    }

    pub fn skip_backward(&self) -> (r: bool)
        ensures
            r == spec_bit32(self.bits, 5),
            r == (self.bits & 32u32 != 0),
    {
        let bits = self.bits;
        proof {
            assert(((bits >> 5u32) & 1u32 == 1u32) == (bits & 32u32 != 0)) by (bit_vector);
        }
        (self.bits >> 5u32) & 1u32 == 1u32
    }
}

impl From<u32> for MediaCommands {
    fn from(n: u32) -> (r: MediaCommands) {
        MediaCommands { bits: n }
    }
}

impl vstd::std_specs::convert::FromSpecImpl<u32> for MediaCommands {
    open spec fn obeys_from_spec() -> bool {
        true
    }

    open spec fn from_spec(n: u32) -> MediaCommands {
        MediaCommands { bits: n }
    }
}

impl From<MediaCommands> for u32 {
    fn from(mc: MediaCommands) -> (r: u32) {
        mc.bits
    }
}

impl vstd::std_specs::convert::FromSpecImpl<MediaCommands> for u32 {
    open spec fn obeys_from_spec() -> bool {
        true
    }

    open spec fn from_spec(mc: MediaCommands) -> u32 {
        mc.bits
    }
}

/// The object form of a bitfield of media commands reads pause from the bit of
/// value 1, seek from 2, stream volume from 4, stream mute from 8, skip forward
/// from 16 and skip backward from 32, and keeps the whole bitfield.
pub proof fn lemma_media_commands_object_bits(n: u32)
    ensures
        spec_media_commands_object(n).pause == (n & 1u32 != 0),
        spec_media_commands_object(n).seek == (n & 2u32 != 0),
        spec_media_commands_object(n).stream_volume == (n & 4u32 != 0),
        spec_media_commands_object(n).stream_mute == (n & 8u32 != 0),
        spec_media_commands_object(n).skip_forward == (n & 16u32 != 0),
        spec_media_commands_object(n).skip_backward == (n & 32u32 != 0),
        spec_media_commands_object(n).as_bitfield == n,
{
    assert(((n >> 0u32) & 1u32 == 1u32) == (n & 1u32 != 0)) by (bit_vector);
    assert(((n >> 1u32) & 1u32 == 1u32) == (n & 2u32 != 0)) by (bit_vector);
    assert(((n >> 2u32) & 1u32 == 1u32) == (n & 4u32 != 0)) by (bit_vector);
    assert(((n >> 3u32) & 1u32 == 1u32) == (n & 8u32 != 0)) by (bit_vector);
    assert(((n >> 4u32) & 1u32 == 1u32) == (n & 16u32 != 0)) by (bit_vector);
    assert(((n >> 5u32) & 1u32 == 1u32) == (n & 32u32 != 0)) by (bit_vector);
}

/// A bitfield of media commands survives the trip to `MediaCommands` and
/// back whole, the bits this library does not know included.
pub proof fn lemma_media_commands_round_trip(n: u32)
    ensures
        <u32 as vstd::std_specs::convert::FromSpec<MediaCommands>>::from_spec(
            <MediaCommands as vstd::std_specs::convert::FromSpec<u32>>::from_spec(n),
        ) == n,
{
}

/// Media commands with each bit extracted, and the whole bitfield.
#[derive(Clone, Copy, Debug, PartialEq, Eq, Structural)]
pub struct MediaCommandsObject {
    pub pause: bool,
    pub seek: bool,
    pub stream_volume: bool,
    pub stream_mute: bool,
    pub skip_forward: bool,
    pub skip_backward: bool,
    pub as_bitfield: u32,
}

/// The object form of a bitfield of media commands.
pub open spec fn spec_media_commands_object(n: u32) -> MediaCommandsObject {
    MediaCommandsObject {
        pause: spec_bit32(n, 0),
        seek: spec_bit32(n, 1),
        stream_volume: spec_bit32(n, 2),
        stream_mute: spec_bit32(n, 3),
        skip_forward: spec_bit32(n, 4),
        skip_backward: spec_bit32(n, 5),
        as_bitfield: n,
    }
}

impl From<MediaCommands> for MediaCommandsObject {
    fn from(mc: MediaCommands) -> (r: MediaCommandsObject) {
        let as_u32 = u32::from(mc);
        MediaCommandsObject {
            pause: mc.pause(),
            seek: mc.seek(),
            stream_volume: mc.stream_volume(),
            stream_mute: mc.stream_mute(),
            skip_forward: mc.skip_forward(),
            skip_backward: mc.skip_backward(),
            as_bitfield: as_u32,
        }
    }
}

impl vstd::std_specs::convert::FromSpecImpl<MediaCommands> for MediaCommandsObject {
    open spec fn obeys_from_spec() -> bool {
        true
    }

    open spec fn from_spec(mc: MediaCommands) -> MediaCommandsObject {
        spec_media_commands_object(mc.bits)
    }
}

impl From<u32> for MediaCommandsObject {
    fn from(n: u32) -> (r: MediaCommandsObject) {
        let mc = MediaCommands::from(n);
        MediaCommandsObject::from(mc)
    }
}

impl vstd::std_specs::convert::FromSpecImpl<u32> for MediaCommandsObject {
    open spec fn obeys_from_spec() -> bool {
        true
    }

    open spec fn from_spec(n: u32) -> MediaCommandsObject {
        spec_media_commands_object(n)
    }
}

/// Options of a media `GET_STATUS` request: bit 0 asks for no metadata, bit 1
/// for no queue items. The other bits are kept as they came.
#[derive(Clone, Copy, Debug)]
pub struct GetStatusOptions {
    pub bits: u8,
}

impl GetStatusOptions {
    /// No option set.
    pub fn new() -> (r: GetStatusOptions)
        ensures
            r.bits == 0,
    {
        GetStatusOptions { bits: 0 }
    }

    pub fn no_metadata(&self) -> (r: bool)
        ensures
            r == spec_bit8(self.bits, 0),
            r == (self.bits & 1u8 != 0),
    {
        let bits = self.bits;
        proof {
            assert(((bits >> 0u8) & 1u8 == 1u8) == (bits & 1u8 != 0)) by (bit_vector);
        }
        (self.bits >> 0u8) & 1u8 == 1u8
    }

    pub fn no_queue_items(&self) -> (r: bool)
        ensures
            r == spec_bit8(self.bits, 1),
            r == (self.bits & 2u8 != 0),
    {
        let bits = self.bits;
        proof {
            assert(((bits >> 1u8) & 1u8 == 1u8) == (bits & 2u8 != 0)) by (bit_vector);
        }
        (self.bits >> 1u8) & 1u8 == 1u8
    }

    /// These options with `no_metadata` set to `b`.
    pub fn with_no_metadata(self, b: bool) -> (r: GetStatusOptions)
        ensures
            r.bits == spec_with_bit8(self.bits, 0, b),
            b ==> r.bits == self.bits | 1u8,
            !b ==> r.bits == self.bits & 254u8,
    {
        let bits = self.bits;
        proof {
            assert(bits & !(1u8 << 0u8) == bits & 254u8) by (bit_vector);
            assert(bits | (1u8 << 0u8) == bits | 1u8) by (bit_vector);
        }
        if b {
            GetStatusOptions { bits: self.bits | (1u8 << 0u8) }
        } else {
            GetStatusOptions { bits: self.bits & !(1u8 << 0u8) }
        }
    }

    /// These options with `no_queue_items` set to `b`.
    pub fn with_no_queue_items(self, b: bool) -> (r: GetStatusOptions)
        ensures
            r.bits == spec_with_bit8(self.bits, 1, b),
            b ==> r.bits == self.bits | 2u8,
            !b ==> r.bits == self.bits & 253u8,
    {
        let bits = self.bits;
        proof {
            assert(bits & !(1u8 << 1u8) == bits & 253u8) by (bit_vector);
            assert(bits | (1u8 << 1u8) == bits | 2u8) by (bit_vector);
        }
        if b {
            GetStatusOptions { bits: self.bits | (1u8 << 1u8) }
        } else {
            GetStatusOptions { bits: self.bits & !(1u8 << 1u8) }
        }
    }
}

impl Default for GetStatusOptions {
    fn default() -> (r: GetStatusOptions)
        ensures
            r.bits == 0,
    {
        GetStatusOptions::new()
    }
}

impl From<u8> for GetStatusOptions {
    fn from(n: u8) -> (r: GetStatusOptions) {
        GetStatusOptions { bits: n }
    }
}

impl vstd::std_specs::convert::FromSpecImpl<u8> for GetStatusOptions {
    open spec fn obeys_from_spec() -> bool {
        true
    }

    open spec fn from_spec(n: u8) -> GetStatusOptions {
        GetStatusOptions { bits: n }
    }
}

impl From<GetStatusOptions> for u8 {
    fn from(o: GetStatusOptions) -> (r: u8) {
        o.bits
    }
}

impl vstd::std_specs::convert::FromSpecImpl<GetStatusOptions> for u8 {
    open spec fn obeys_from_spec() -> bool {
        true
    }

    open spec fn from_spec(o: GetStatusOptions) -> u8 {
        o.bits
    }
}

/// A byte of options survives the trip to `GetStatusOptions` and back whole.
pub proof fn lemma_get_status_options_round_trip(n: u8)
    ensures
        <u8 as vstd::std_specs::convert::FromSpec<GetStatusOptions>>::from_spec(
            <GetStatusOptions as vstd::std_specs::convert::FromSpec<u8>>::from_spec(n),
        ) == n,
{
}

/// Asks for the status of a media session, or of every session of the app.
#[derive(Debug)]
pub struct GetStatusRequest {
    pub media_session_id: Option<MediaSessionId>,
    pub options: GetStatusOptions,
}

impl RequestInner for GetStatusRequest {
    open spec fn spec_channel_namespace() -> Seq<char> {
        CHANNEL_NAMESPACE@
    }

    open spec fn spec_message_type() -> Seq<char> {
        MESSAGE_REQUEST_TYPE_GET_STATUS@
    }

    fn channel_namespace() -> Namespace {
        Namespace::from_const(CHANNEL_NAMESPACE)
    }

    fn message_type() -> MessageType {
        MessageType::from_const(MESSAGE_REQUEST_TYPE_GET_STATUS)
    }
}

/// An event: the media queue changed.
#[derive(Clone, Debug)]
pub struct QueueChangeEvent {
    pub change_type: Option<QueueChangeType>,
    pub insert_before: Option<ItemId>,
    pub item_ids: Option<Vec<ItemId>>,
    pub reorder_item_ids: Option<Vec<ItemId>>,
    pub sequence_number: Option<SequenceNumber>,
}

/// The answer to a `QUEUE_GET_ITEM_IDS` request.
#[derive(Debug)]
pub enum QueueGetItemIdsResponse {
    /// Wire type `QUEUE_ITEM_IDS`: the ids of the items in the queue.
    ItemIds { item_ids: Vec<ItemId> },
    /// Wire type `INVALID_PLAYER_STATE`.
    InvalidPlayerState,
    /// Wire type `INVALID_REQUEST`.
    InvalidRequest { reason: String },
}

impl ResponseInner for QueueGetItemIdsResponse {
    open spec fn spec_channel_namespace() -> Seq<char> {
        CHANNEL_NAMESPACE@
    }

    open spec fn spec_type_names() -> Seq<Seq<char>> {
        seq![MESSAGE_RESPONSE_TYPE_QUEUE_ITEM_IDS@, MESSAGE_RESPONSE_TYPE_INVALID_PLAYER_STATE@, MESSAGE_RESPONSE_TYPE_INVALID_REQUEST@]
    }

    fn channel_namespace() -> Namespace {
        Namespace::from_const(CHANNEL_NAMESPACE)
    }

    fn type_names() -> Vec<MessageType> {
        vec![
            MessageType::from_const(MESSAGE_RESPONSE_TYPE_QUEUE_ITEM_IDS),
            MessageType::from_const(MESSAGE_RESPONSE_TYPE_INVALID_PLAYER_STATE),
            MessageType::from_const(MESSAGE_RESPONSE_TYPE_INVALID_REQUEST),
        ]
    }
}

/// The largest id among the tracks that have one, if any does.
pub open spec fn spec_max_track_id(ids: Seq<Option<TrackId>>) -> Option<int>
    decreases ids.len(),
{
    if ids.len() == 0 {
        None
    } else {
        let rest = spec_max_track_id(ids.drop_last());
        match ids.last() {
            None => rest,
            Some(id) => match rest {
                None => Some(id.0 as int),
                Some(m) => Some(
                    if id.0 > m {
                        id.0 as int
                    } else {
                        m
                    },
                ),
            },
        }
    }
}

/// The id after the largest track id, or the first id after 0 when no track has one.
pub open spec fn spec_next_track_id(ids: Seq<Option<TrackId>>) -> int {
    match spec_max_track_id(ids) {
        None => 1,
        Some(m) => m + 1,
    }
}

/// The largest track id is at least every id there is.
pub proof fn lemma_max_track_id_bounds(ids: Seq<Option<TrackId>>, i: int)
    requires
        0 <= i < ids.len(),
        ids[i] is Some,
    ensures
        spec_max_track_id(ids) is Some,
        ids[i].unwrap().0 <= spec_max_track_id(ids).unwrap(),
    decreases ids.len(),
{
    if i < ids.len() - 1 {
        lemma_max_track_id_bounds(ids.drop_last(), i);
    }
}

/// The largest track id is the id of one of the tracks, and there is none
/// exactly when no track has an id; the next id is then 1.
pub proof fn lemma_max_track_id_attained(ids: Seq<Option<TrackId>>)
    ensures
        spec_max_track_id(ids) is None <==> forall|i: int| 0 <= i < ids.len() ==> #[trigger] ids[i] is None,
        spec_max_track_id(ids) matches Some(m) ==> exists|i: int|
            0 <= i < ids.len() && #[trigger] ids[i] == Some(TrackId(m as i32)) && m == ids[i].unwrap().0,
        spec_max_track_id(ids) is None ==> spec_next_track_id(ids) == 1,
    decreases ids.len(),
{
    if ids.len() > 0 {
        let rest = ids.drop_last();
        lemma_max_track_id_attained(rest);
        let n = ids.len() - 1;
        assert forall|i: int| 0 <= i < rest.len() implies #[trigger] rest[i] == ids[i] by {}
        if spec_max_track_id(ids) is None {
            assert forall|i: int| 0 <= i < ids.len() implies #[trigger] ids[i] is None by {
                if i < n {
                    assert(rest[i] == ids[i]);
                }
            }
        }
        if forall|i: int| 0 <= i < ids.len() ==> #[trigger] ids[i] is None {
            assert forall|i: int| 0 <= i < rest.len() implies #[trigger] rest[i] is None by {
                assert(ids[i] is None);
            }
            assert(ids[n] is None);
        }
        if spec_max_track_id(ids) is Some {
            let m = spec_max_track_id(ids).unwrap();
            match ids.last() {
                None => {
                    let i = choose|i: int|
                        0 <= i < rest.len() && #[trigger] rest[i] == Some(TrackId(m as i32)) && m
                            == rest[i].unwrap().0;
                    assert(ids[i] == rest[i]);
                },
                Some(id) => {
                    if let Some(mr) = spec_max_track_id(rest) {
                        if !(id.0 > mr) {
                            let i = choose|i: int|
                                0 <= i < rest.len() && #[trigger] rest[i] == Some(TrackId(mr as i32))
                                    && mr == rest[i].unwrap().0;
                            assert(ids[i] == rest[i]);
                        } else {
                            assert(ids[n] == Some(id));
                        }
                    } else {
                        assert(ids[n] == Some(id));
                    }
                },
            }
        }
    }
}

/// Why a track could not get an id.
#[derive(Clone, Copy, Debug, PartialEq, Eq, Structural)]
pub enum TrackIdError {
    /// The id after the largest track id does not fit in an `i32`.
    Overflow,
}

/// The id a track gets when it is pushed onto the tracks of a media item,
/// given the ids of the tracks already there (`None` when the media item has
/// no track list yet) and the id the track asks for. The first track keeps the
/// id it asks for, or gets the first id; any later track gets the id after the
/// largest id there is (the first id when no track has one), whatever it asks for.
pub fn pushed_track_id(existing: &Option<Vec<Option<TrackId>>>, requested: Option<TrackId>) -> (r:
    Result<TrackId, TrackIdError>)
    ensures
        existing is None ==> r is Ok && r.unwrap() == (match requested {
            Some(id) => id,
            None => TrackId(TrackId::FIRST_I32),
        }),
        existing is Some ==> (r is Ok <==> spec_next_track_id(existing.unwrap()@) <= i32::MAX),
        existing is Some && r is Ok ==> r.unwrap().0 == spec_next_track_id(existing.unwrap()@),
        existing is Some && r is Ok ==> forall|i: int|
            0 <= i < existing.unwrap()@.len() && (#[trigger] existing.unwrap()@[i]) is Some
                ==> existing.unwrap()@[i].unwrap().0 < r.unwrap().0,
{
    match existing {
        None => match requested {
            Some(id) => Ok(id),
            None => Ok(TrackId::first()),
        },
        Some(ids) => {
            let mut max: Option<i32> = None;
            let mut i: usize = 0;
            while i < ids.len()
                invariant
                    i <= ids@.len(),
                    max matches Some(m) ==> spec_max_track_id(ids@.take(i as int)) == Some(m as int),
                    max is None ==> spec_max_track_id(ids@.take(i as int)) is None,
                decreases ids@.len() - i,
            {
                proof {
                    assert(ids@.take(i + 1).drop_last() =~= ids@.take(i as int));
                    assert(ids@.take(i + 1).last() == ids@[i as int]);
                }
                match ids[i] {
                    None => {},
                    Some(id) => {
                        max = match max {
                            None => Some(id.0),
                            Some(m) => Some(
                                if id.0 > m {
                                    id.0
                                } else {
                                    m
                                },
                            ),
                        };
                    },
                }
                i = i + 1;
            }
            proof {
                assert(ids@.take(ids@.len() as int) =~= ids@);
            }
            let max_id = match max {
                None => 0i32,
                Some(m) => m,
            };
            if max_id == i32::MAX {
                return Err(TrackIdError::Overflow);
            }
            proof {
                assert forall|k: int|
                    0 <= k < ids@.len() && (#[trigger] ids@[k]) is Some implies ids@[k].unwrap().0
                    < max_id + 1 by {
                    lemma_max_track_id_bounds(ids@, k);
                }
            }
            Ok(TrackId(max_id + 1))
        },
    }
}

} // verus!
