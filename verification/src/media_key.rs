use vstd::prelude::*;

verus! {

/// Event type of the system-defined (NX_SYSDEFINED) events that carry media keys.
pub const EVENT_TYPE_NX_SYSDEFINED: u32 = 14;
/// Out-of-band event type: the system disabled the event tap after a timeout.
pub const EVENT_TYPE_TAP_DISABLED_BY_TIMEOUT: u32 = 0xFFFF_FFFE;
/// Out-of-band event type: the system disabled the event tap on user input.
pub const EVENT_TYPE_TAP_DISABLED_BY_USER_INPUT: u32 = 0xFFFF_FFFF;
/// Key type of the play/pause media key.
pub const NX_KEYTYPE_PLAY: i64 = 16;
/// Subtype of the system-defined events that report media keys.
pub const MEDIA_KEY_SUBTYPE: i16 = 8;
/// Key state byte of a media key going down.
pub const MEDIA_KEY_STATE_DOWN: i64 = 0x0A;

/// What the media-key event tap does with an event before looking inside it.
#[derive(Debug, Clone, Copy, PartialEq, Eq, Structural)]
pub enum MediaEventRoute {
    /// The system disabled the tap: enable it again and pass the event on.
    ReenableTap,
    /// Not a media-key candidate: pass the event on untouched.
    PassThrough,
    /// A system-defined event while media keys are enabled: look at its
    /// subtype and data.
    Inspect,
}

/// The route for an event of type `event_type`.
pub open spec fn media_event_route(event_type: u32, media_key_enabled: bool) -> MediaEventRoute {
    if event_type == EVENT_TYPE_TAP_DISABLED_BY_TIMEOUT || event_type
        == EVENT_TYPE_TAP_DISABLED_BY_USER_INPUT {
        MediaEventRoute::ReenableTap
    } else if event_type == EVENT_TYPE_NX_SYSDEFINED && media_key_enabled {
        MediaEventRoute::Inspect
    } else {
        MediaEventRoute::PassThrough
    }
}

/// Decide what to do with an event before inspecting it: re-enable a tap
/// that the system disabled, inspect system-defined events while media keys
/// are enabled, and pass everything else on.
pub fn route_media_event(event_type: u32, media_key_enabled: bool) -> (r: MediaEventRoute)
    ensures
        r == media_event_route(event_type, media_key_enabled),
        // with media keys disabled, no event is ever inspected
        !media_key_enabled ==> r != MediaEventRoute::Inspect,
{
    if event_type == EVENT_TYPE_TAP_DISABLED_BY_TIMEOUT || event_type
        == EVENT_TYPE_TAP_DISABLED_BY_USER_INPUT {
        MediaEventRoute::ReenableTap
    } else if event_type != EVENT_TYPE_NX_SYSDEFINED {
        MediaEventRoute::PassThrough
    } else if !media_key_enabled {
        MediaEventRoute::PassThrough
    } else {
        MediaEventRoute::Inspect
    }
}

/// The fields of a media-key event's `data1` word.
#[derive(Debug, Clone, Copy, PartialEq, Eq, Structural)]
pub struct MediaKeyData {
    /// Bits 16..32: the key type.
    pub key_code: i64,
    /// Whether the key-state byte (bits 8..16) says the key went down.
    pub key_down: bool,
    /// Bit 0: whether this is an auto-repeat.
    pub key_repeat: bool,
}

/// The key type held in `data1`.
pub open spec fn media_key_code(data1: i64) -> i64 {
    (data1 >> 16u64) & 0xFFFF
}

/// Whether the key-state byte of `data1` says the key went down.
pub open spec fn media_key_down(data1: i64) -> bool {
    ((data1 & 0xFFFF) & 0xFF00) >> 8u64 == MEDIA_KEY_STATE_DOWN
}

/// Whether `data1` marks an auto-repeat.
pub open spec fn media_key_repeat(data1: i64) -> bool {
    (data1 & 0xFFFF) & 1 != 0
}

/// Split a media-key event's `data1` word into key type, down state and
/// repeat flag.
pub fn decode_media_key_data(data1: i64) -> (d: MediaKeyData)
    ensures
        d.key_code == media_key_code(data1),
        d.key_down == media_key_down(data1),
        d.key_repeat == media_key_repeat(data1),
{
    let key_code = (data1 >> 16u64) & 0xFFFF;
    let key_flags = data1 & 0xFFFF;
    let key_is_down = ((key_flags & 0xFF00) >> 8u64) == MEDIA_KEY_STATE_DOWN;
    let key_repeat = (key_flags & 1) != 0;
    MediaKeyData { key_code, key_down: key_is_down, key_repeat }
}

/// Whether an inspected system-defined event is a fresh press of play/pause,
/// which toggles recording and is consumed.
pub open spec fn media_key_toggles_recording(subtype: i16, data1: i64) -> bool {
    subtype == MEDIA_KEY_SUBTYPE && media_key_code(data1) == NX_KEYTYPE_PLAY && media_key_down(
        data1,
    ) && !media_key_repeat(data1)
}

/// Whether an inspected event with this subtype and `data1` is a fresh press
/// of play/pause: if so the recording is toggled and the event consumed,
/// otherwise the event is passed on.
pub fn media_key_toggles(subtype: i16, data1: i64) -> (b: bool)
    ensures
        b == media_key_toggles_recording(subtype, data1),
        b == (subtype == MEDIA_KEY_SUBTYPE && (data1 >> 16u64) & 0xFFFF == NX_KEYTYPE_PLAY && (
        data1 >> 8u64) & 0xFF == MEDIA_KEY_STATE_DOWN && data1 & 1 == 0),
{
    proof {
        lemma_toggle_bits(subtype, data1);
    }
    if subtype != MEDIA_KEY_SUBTYPE {
        return false;
    }
    let d = decode_media_key_data(data1);
    d.key_code == NX_KEYTYPE_PLAY && d.key_down && !d.key_repeat
}

/// The event mask that selects events of type `event_type` in an event tap.
pub fn event_type_mask(event_type: u32) -> (mask: u64)
    requires
        event_type < 64,
    ensures
        mask == 1u64 << event_type,
{
    1u64 << event_type
}

/// The toggle condition read straight off the bits of `data1`: subtype 8,
/// key type 16 in bits 16..32, state byte 0x0A in bits 8..16, bit 0 clear.
proof fn lemma_toggle_bits(subtype: i16, data1: i64)
    ensures
        media_key_toggles_recording(subtype, data1) == (subtype == MEDIA_KEY_SUBTYPE && (data1
            >> 16u64) & 0xFFFF == NX_KEYTYPE_PLAY && (data1 >> 8u64) & 0xFF == MEDIA_KEY_STATE_DOWN
            && data1 & 1 == 0),
{
    assert((((data1 & 0xFFFF) & 0xFF00) >> 8u64 == 0x0Ai64) == ((data1 >> 8u64) & 0xFF == 0x0Ai64))
        by (bit_vector);
    assert(((data1 & 0xFFFF) & 1 != 0) == (data1 & 1 != 0)) by (bit_vector);
}

/// Only a fresh press of the play/pause key toggles recording: a word built
/// from a key type, a state byte and a flags byte toggles exactly when the
/// key type is 16 (play/pause), the state byte is 0x0A (down) and the flags
/// byte is even (no repeat), and only with subtype 8. Volume, mute,
/// brightness and every other media key are passed on.
pub proof fn law_only_play_pause_toggles(
    subtype: i16,
    key_code: u16,
    state: u8,
    low: u8,
    data1: i64,
)
    requires
        data1 == key_code as int * 65536 + state as int * 256 + low as int,
    ensures
        media_key_toggles_recording(subtype, data1) == (subtype == 8 && key_code == 16 && state
            == 0x0A && low % 2 == 0),
        media_key_toggles_recording(subtype, data1) ==> (data1 >> 16u64) & 0xFFFF == 16,
{
    law_media_key_data_layout(key_code, state, low, data1);
    lemma_toggle_bits(subtype, data1);
}

/// How `data1` is laid out: a word built from a key type in bits 16..32, a
/// key-state byte in bits 8..16 and a flags byte in bits 0..8 decodes back to
/// that key type, to "down" exactly when the state byte is 0x0A, and to
/// "repeat" exactly when the flags byte is odd.
pub proof fn law_media_key_data_layout(key_code: u16, state: u8, low: u8, data1: i64)
    requires
        data1 == key_code as int * 65536 + state as int * 256 + low as int,
    ensures
        media_key_code(data1) == key_code as i64,
        media_key_down(data1) == (state == 0x0A),
        media_key_repeat(data1) == (low % 2 == 1),
{
    assert((data1 >> 16u64) & 0xFFFF == key_code as i64) by (bit_vector)
        requires
            data1 == key_code as int * 65536 + state as int * 256 + low as int,
    ;
    assert((((data1 & 0xFFFF) & 0xFF00) >> 8u64 == 0x0Ai64) == (state == 0x0A)) by (bit_vector)
        requires
            data1 == key_code as int * 65536 + state as int * 256 + low as int,
    ;
    assert(((data1 & 0xFFFF) & 1 != 0) == (low % 2 == 1)) by (bit_vector)
        requires
            data1 == key_code as int * 65536 + state as int * 256 + low as int,
    ;
}

} // verus!
