//! Tooltips of the overlay: which string a help id shows, how help text is read from game memory
//! and cleaned up, and when a requested tooltip appears and disappears.
//!
//! Times are nanoseconds on a monotonic clock chosen by the caller; delays and durations come from
//! the settings in milliseconds.
use vstd::prelude::*;
use crate::memory::{chars_between, scan_stop, ZtMemory};
use crate::text::{chars_of, owned, push_char, push_str, spec_trim, string_of, trim};

verus! {

/// Milliseconds a tooltip waits before it shows, unless the settings say otherwise.
pub const DEFAULT_TOOLTIP_DELAY_MS: u64 = 500;

/// Milliseconds a tooltip stays up, unless the settings say otherwise.
pub const DEFAULT_TOOLTIP_DURATION_MS: u64 = 10_000;

/// The longest tooltip shown, in characters; longer text is cut and ends in `...`.
pub const MAX_TOOLTIP_CHARS: usize = 512;

/// The most bytes of help text read from a plain string.
pub const MAX_TOOLTIP_TEXT_BYTES: u32 = 2048;

/// The largest string buffer accepted when reading a game string object.
pub const MAX_INLINE_STRING_BYTES: u32 = 4096;

/// Added to a help id to get its long tooltip's string id.
pub const LONG_TOOLTIP_ID_OFFSET: u32 = 30_000;

/// The string id shown for help id `help_id`: none for ids of 0 or below; the long variant
/// (`help_id + LONG_TOOLTIP_ID_OFFSET`) when long tooltips are on and the element says it has one
/// (`has_long_tooltip == 1` exactly); the id itself otherwise.
pub open spec fn spec_tooltip_string_id(help_id: i32, has_long_tooltip: i8, long_tooltips_enabled: bool) -> Option<u32> {
    if help_id <= 0 {
        None
    } else if long_tooltips_enabled && has_long_tooltip == 1 {
        Some((help_id + LONG_TOOLTIP_ID_OFFSET) as u32)
    } else {
        Some(help_id as u32)
    }
}

/// The string id to show for a help request.
pub fn tooltip_string_id(help_id: i32, has_long_tooltip: i8, long_tooltips_enabled: bool) -> (r: Option<u32>)
    ensures
        r == spec_tooltip_string_id(help_id, has_long_tooltip, long_tooltips_enabled),
{
    if help_id <= 0 {
        return None;
    }
    let id = help_id as u32;
    if long_tooltips_enabled && has_long_tooltip == 1 {
        Some(id + LONG_TOOLTIP_ID_OFFSET)
    } else {
        Some(id)
    }
}

/// Whether a game string object's pointers (`start`, `end`, `buffer_end`) look like a real
/// string: non-null, ordered, at most `MAX_TOOLTIP_TEXT_BYTES` of text in a buffer of at most
/// `MAX_INLINE_STRING_BYTES`.
pub open spec fn spec_plausible_string_range(start: u32, end: u32, buffer_end: u32) -> bool {
    start != 0 && end >= start && buffer_end >= end && end - start <= MAX_TOOLTIP_TEXT_BYTES
        && buffer_end - start <= MAX_INLINE_STRING_BYTES
}

/// Whether a game string object's pointers are plausible.
pub fn plausible_string_range(start: u32, end: u32, buffer_end: u32) -> (r: bool)
    ensures
        r == spec_plausible_string_range(start, end, buffer_end),
{
    start != 0 && end >= start && buffer_end >= end && end - start <= MAX_TOOLTIP_TEXT_BYTES && buffer_end
        - start <= MAX_INLINE_STRING_BYTES
}

/// `text` cut to the tooltip limit: unchanged up to `MAX_TOOLTIP_CHARS` characters, else its
/// first `MAX_TOOLTIP_CHARS - 3` characters and `...`.
pub open spec fn spec_truncate_tooltip(text: Seq<char>) -> Seq<char> {
    if text.len() <= MAX_TOOLTIP_CHARS {
        text
    } else {
        text.take(MAX_TOOLTIP_CHARS - 3) + seq!['.', '.', '.']
    }
}

/// Cuts `text` to the tooltip limit.
pub fn truncate_tooltip(text: &str) -> (r: String)
    ensures
        r@ == spec_truncate_tooltip(text@),
        r@.len() <= MAX_TOOLTIP_CHARS,
{
    let chars = chars_of(text);
    if chars.len() <= MAX_TOOLTIP_CHARS {
        return owned(text);
    }
    let mut out = String::new();
    let mut i: usize = 0;
    while i < MAX_TOOLTIP_CHARS - 3
        invariant
            chars@ == text@,
            chars@.len() > MAX_TOOLTIP_CHARS,
            i <= MAX_TOOLTIP_CHARS - 3,
            out@ == text@.take(i as int),
        decreases MAX_TOOLTIP_CHARS - 3 - i,
    {
        push_char(&mut out, chars[i]);
        i = i + 1;
        assert(out@ =~= text@.take(i as int));
    }
    push_str(&mut out, "...");
    proof {
        reveal_strlit("...");
    }
    assert(out@ =~= spec_truncate_tooltip(text@));
    out
}

/// What looking a setting up in one section of the settings gave.
#[derive(Clone, Copy, Debug, PartialEq, Eq, Structural)]
pub enum SettingLookup {
    /// The section has the key with this value.
    Value(i32),
    /// The section does not have the key.
    Missing,
    /// The section has the key, but not as a number.
    Invalid,
}

/// The tooltip timing setting from the lookups of the sections, in order: the first section that
/// has the key decides; a negative or unreadable value there gives `default_ms`, as does a key
/// found in no section.
pub open spec fn spec_read_tooltip_setting(lookups: Seq<SettingLookup>, default_ms: u64) -> u64
    decreases lookups.len(),
{
    if lookups.len() == 0 {
        default_ms
    } else {
        match lookups[0] {
            SettingLookup::Value(v) => if v >= 0 {
                v as u64
            } else {
                default_ms
            },
            SettingLookup::Missing => spec_read_tooltip_setting(lookups.skip(1), default_ms),
            SettingLookup::Invalid => default_ms,
        }
    }
}

/// Reads a tooltip timing setting in milliseconds from the lookups of each settings section.
pub fn read_tooltip_setting(lookups: &Vec<SettingLookup>, default_ms: u64) -> (r: u64)
    ensures
        r == spec_read_tooltip_setting(lookups@, default_ms),
        r <= i32::MAX || r == default_ms,
{
    let mut i: usize = 0;
    assert(lookups@.skip(0) =~= lookups@);
    while i < lookups.len()
        invariant
            i <= lookups@.len(),
            spec_read_tooltip_setting(lookups@, default_ms) == spec_read_tooltip_setting(lookups@.skip(i as int), default_ms),
        decreases lookups@.len() - i,
    {
        assert(lookups@.skip(i as int)[0] == lookups@[i as int]);
        match lookups[i] {
            SettingLookup::Value(v) => {
                if v >= 0 {
                    return v as u64;
                }
                return default_ms;
            },
            SettingLookup::Missing => {},
            SettingLookup::Invalid => {
                return default_ms;
            },
        }
        assert(lookups@.skip(i as int).skip(1) =~= lookups@.skip(i + 1));
        i = i + 1;
    }
    default_ms
}

/// Whether the settings' `[UI] helpType` lookup turns long tooltips on: only the value 1 does.
pub fn long_tooltips_enabled(help_type: SettingLookup) -> (r: bool)
    ensures
        r == (help_type == SettingLookup::Value(1)),
{
    match help_type {
        SettingLookup::Value(v) => v == 1,
        _ => false,
    }
}

/// A tooltip waiting to show or showing.
#[derive(Debug)]
pub struct TooltipRequest {
    pub text: String,
    /// When it was requested.
    pub requested_at: u64,
    /// How long after the request it shows.
    pub delay: u64,
    /// How long it stays up once shown.
    pub duration: u64,
    /// Whether it stays while the pointer is over an overlay element that blocks the game.
    pub allow_blocked_pointer: bool,
}

/// The tooltip state: at most one request.
#[derive(Debug)]
pub struct TooltipState {
    pub current: Option<TooltipRequest>,
}

/// What `set_tooltip` did.
#[derive(Clone, Copy, Debug, PartialEq, Eq, Structural)]
pub enum TooltipChange {
    /// The text was blank: the tooltip was cleared.
    Cleared,
    /// The same text was up already: its duration was renewed.
    Renewed,
    /// A new request replaced whatever was there; it anchors at the pointer's position.
    Requested,
}

/// What the tooltip does at a given time.
#[derive(Debug)]
pub enum TooltipPhase {
    /// Nothing is shown.
    Hidden,
    /// A tooltip shows after this many more nanoseconds.
    Waiting(u64),
    /// This text is shown.
    Visible(String),
}

/// Nanoseconds in a millisecond.
pub const NANOS_PER_MILLI: u64 = 1_000_000;

impl TooltipState {
    /// No tooltip.
    pub fn new() -> (s: TooltipState)
        ensures
            s.current is None,
    {
        TooltipState { current: None }
    }

    /// Removes any tooltip.
    pub fn clear(&mut self)
        ensures
            final(self).current is None,
    {
        self.current = None;
    }

    /// Requests a tooltip with `text` at time `now`, shown after `delay_ms` for `duration_ms`
    /// (both as read from the settings). Blank text clears the tooltip; text is trimmed and cut to
    /// the tooltip limit; requesting the text already up only renews its duration.
    pub fn set_tooltip(&mut self, text: &str, allow_blocked_pointer: bool, now: u64, delay_ms: u64, duration_ms: u64) -> (c: TooltipChange)
        requires
            delay_ms <= u32::MAX,
            duration_ms <= u32::MAX,
        ensures
            spec_trim(text@).len() == 0 ==> c == TooltipChange::Cleared && final(self).current is None,
            spec_trim(text@).len() > 0 ==> {
                let shown = spec_truncate_tooltip(spec_trim(text@));
                match old(self).current {
                    Some(cur) if cur.text@ == shown => {
                        &&& c == TooltipChange::Renewed
                        &&& final(self).current matches Some(next) && next.text@ == shown
                            && next.requested_at == cur.requested_at && next.delay == cur.delay
                            && next.duration == duration_ms * NANOS_PER_MILLI
                            && next.allow_blocked_pointer == cur.allow_blocked_pointer
                    },
                    _ => {
                        &&& c == TooltipChange::Requested
                        &&& final(self).current matches Some(next) && next.text@ == shown
                            && next.requested_at == now && next.delay == delay_ms * NANOS_PER_MILLI
                            && next.duration == duration_ms * NANOS_PER_MILLI
                            && next.allow_blocked_pointer == allow_blocked_pointer
                    },
                }
            },
    {
        let trimmed = trim(text);
        if chars_of(trimmed.as_str()).len() == 0 {
            self.current = None;
            return TooltipChange::Cleared;
        }
        let shown = truncate_tooltip(trimmed.as_str());
        let duration = duration_ms * NANOS_PER_MILLI;
        let same = match &self.current {
            Some(cur) => crate::text::str_eq(cur.text.as_str(), shown.as_str()),
            None => false,
        };
        if same {
            let cur = self.current.take().unwrap();
            self.current = Some(TooltipRequest { duration, ..cur });
            return TooltipChange::Renewed;
        }
        self.current = Some(
            TooltipRequest {
                text: shown,
                requested_at: now,
                delay: delay_ms * NANOS_PER_MILLI,
                duration,
                allow_blocked_pointer,
            },
        );
        TooltipChange::Requested
    }

    /// What the tooltip does at time `now`; `pointer_blocked` tells whether the pointer is over
    /// an overlay element that blocks the game. A tooltip that does not allow that is dropped
    /// then; one whose duration has run out is dropped too.
    pub fn active_tooltip(&mut self, now: u64, pointer_blocked: bool) -> (p: TooltipPhase)
        ensures
            match old(self).current {
                None => p is Hidden && final(self).current is None,
                Some(req) => {
                    let elapsed = if now >= req.requested_at { (now - req.requested_at) as int } else { 0int };
                    if pointer_blocked && !req.allow_blocked_pointer {
                        p is Hidden && final(self).current is None
                    } else if elapsed < req.delay {
                        p matches TooltipPhase::Waiting(w) && w == req.delay - elapsed
                            && final(self).current == old(self).current
                    } else if elapsed - req.delay > req.duration {
                        p is Hidden && final(self).current is None
                    } else {
                        p matches TooltipPhase::Visible(t) && t@ == req.text@
                            && final(self).current == old(self).current
                    }
                },
            },
    {
        let (requested_at, delay, duration, allow) = match &self.current {
            None => return TooltipPhase::Hidden,
            Some(req) => (req.requested_at, req.delay, req.duration, req.allow_blocked_pointer),
        };
        if pointer_blocked && !allow {
            self.current = None;
            return TooltipPhase::Hidden;
        }
        let elapsed = now.saturating_sub(requested_at);
        if elapsed < delay {
            return TooltipPhase::Waiting(delay - elapsed);
        }
        if elapsed - delay > duration {
            self.current = None;
            return TooltipPhase::Hidden;
        }
        match &self.current {
            Some(req) => TooltipPhase::Visible(string_of(&chars_of(req.text.as_str()))),
            None => TooltipPhase::Hidden,
        }
    }
}

/// The text of the game string object at `address` (three little-endian pointers: text start,
/// text end, buffer end), or `None` when those pointers are implausible or the text is empty.
/// The text runs from its start to its end or the first NUL byte before it.
pub open spec fn spec_read_zt_string(mem: &ZtMemory, address: int) -> Option<Seq<char>> {
    let start = mem.u32_at(address);
    let end = mem.u32_at(address + 4);
    let buffer_end = mem.u32_at(address + 8);
    if !spec_plausible_string_range(start, end, buffer_end) {
        None
    } else {
        let text = chars_between(mem, start as int, scan_stop(mem, start as int, end as int));
        if text.len() == 0 {
            None
        } else {
            Some(text)
        }
    }
}

/// Whether the game string object at `address` can be read: its pointers are mapped and, when
/// they are plausible, so is its text up to where the read stops.
pub open spec fn zt_string_readable(mem: &ZtMemory, address: int) -> bool {
    &&& mem.range_mapped(address, 12)
    &&& spec_plausible_string_range(mem.u32_at(address), mem.u32_at(address + 4), mem.u32_at(address + 8))
        ==> mem.mapped(mem.u32_at(address) as int) && mem.mapped(
        scan_stop(mem, mem.u32_at(address) as int, mem.u32_at(address + 4) as int),
    )
}

/// Reads the game string object at `address`.
pub fn read_zt_string(mem: &ZtMemory, address: u32) -> (r: Option<String>)
    requires
        zt_string_readable(mem, address as int),
    ensures
        match spec_read_zt_string(mem, address as int) {
            None => r is None,
            Some(t) => r matches Some(s) && s@ == t,
        },
{
    let start = mem.get_u32(address);
    let end = mem.get_u32(address + 4);
    let buffer_end = mem.get_u32(address + 8);
    if !plausible_string_range(start, end, buffer_end) {
        return None;
    }
    let text = crate::memory::get_string_from_memory_bounded(mem, start, end, buffer_end);
    if chars_of(text.as_str()).len() == 0 {
        None
    } else {
        Some(text)
    }
}

/// `a + b`, or `u32::MAX` when that overflows.
pub open spec fn saturating_add(a: u32, b: u32) -> u32 {
    if a + b > u32::MAX {
        u32::MAX
    } else {
        (a + b) as u32
    }
}

/// The help text at `address`: read as a game string object, or failing that as plain bytes up to
/// a NUL byte or `MAX_TOOLTIP_TEXT_BYTES`; trimmed. `None` for a null address or blank text.
pub open spec fn spec_tooltip_text(mem: &ZtMemory, address: u32) -> Option<Seq<char>> {
    if address == 0 {
        None
    } else {
        let raw = match spec_read_zt_string(mem, address as int) {
            Some(t) => t,
            None => chars_between(
                mem,
                address as int,
                scan_stop(mem, address as int, saturating_add(address, MAX_TOOLTIP_TEXT_BYTES) as int),
            ),
        };
        let text = spec_trim(raw);
        if text.len() == 0 {
            None
        } else {
            Some(text)
        }
    }
}

/// Whether the help text at `address` can be read.
pub open spec fn help_text_readable(mem: &ZtMemory, address: u32) -> bool {
    address != 0 ==> {
        &&& zt_string_readable(mem, address as int)
        &&& spec_read_zt_string(mem, address as int) is None ==> mem.mapped(address as int) && mem.mapped(
            scan_stop(mem, address as int, saturating_add(address, MAX_TOOLTIP_TEXT_BYTES) as int),
        )
    }
}

/// Reads the help text a game UI element passes for its tooltip.
pub fn tooltip_text(mem: &ZtMemory, address: u32) -> (r: Option<String>)
    requires
        help_text_readable(mem, address),
    ensures
        match spec_tooltip_text(mem, address) {
            None => r is None,
            Some(t) => r matches Some(s) && s@ == t,
        },
{
    if address == 0 {
        return None;
    }
    let raw = match read_zt_string(mem, address) {
        Some(t) => t,
        None => {
            let limit = address.saturating_add(MAX_TOOLTIP_TEXT_BYTES);
            crate::memory::get_string_from_memory_bounded(mem, address, limit, limit)
        },
    };
    let text = trim(raw.as_str());
    if chars_of(text.as_str()).len() == 0 {
        None
    } else {
        Some(text)
    }
}

} // verus!
