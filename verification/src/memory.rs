//! A byte-addressed model of the game's 32-bit address space, and the typed reads, writes and
//! string helpers the rest of the library uses on it.
//!
//! A `ZtMemory` holds one contiguous mapped region starting at `base`. Multi-byte values are
//! little-endian, as on the x86 process the game runs in. Reading or writing outside the region
//! is ruled out by each function's `requires`: in the game such an access is a crash.
use vstd::prelude::*;
use crate::text::push_char;

verus! {

/// One contiguous region of game memory.
pub struct ZtMemory {
    base: u32,
    bytes: Vec<u8>,
}

/// The little-endian 32-bit value at offset `i` of `bytes`.
pub open spec fn seq_u32(bytes: Seq<u8>, i: int) -> u32 {
    (bytes[i] as int + 256 * (bytes[i + 1] as int) + 65536 * (bytes[i + 2] as int) + 16777216 * (bytes[i + 3] as int)) as u32
}

/// `bytes` after writing the 32-bit `value` little-endian at offset `i`.
pub open spec fn write_u32_bytes(bytes: Seq<u8>, i: int, value: u32) -> Seq<u8> {
    bytes.update(i, (value % 256) as u8).update(i + 1, ((value / 256) % 256) as u8).update(i + 2, ((value / 65536) % 256) as u8).update(
        i + 3,
        (value / 16777216) as u8,
    )
}

/// The byte a character is stored as when written into game memory: its low 8 bits.
pub open spec fn char_byte(c: char) -> u8 {
    (c as u32) as u8
}

/// The character a game-memory byte is read as (Latin-1).
pub open spec fn byte_char(b: u8) -> char {
    b as char
}

/// The first address at or after `addr` whose byte is NUL or which reaches `limit`; `addr`
/// itself if it is already past `limit`.
pub open spec fn scan_stop(mem: &ZtMemory, addr: int, limit: int) -> int
    decreases limit - addr,
{
    if addr >= limit || mem.byte(addr) == 0 {
        addr
    } else {
        scan_stop(mem, addr + 1, limit)
    }
}

/// A scan never stops before it starts, and stops at `limit` at the latest once it starts there
/// or below.
pub proof fn lemma_scan_stop_bounds(mem: &ZtMemory, addr: int, limit: int)
    ensures
        scan_stop(mem, addr, limit) >= addr,
        addr <= limit ==> scan_stop(mem, addr, limit) <= limit,
    decreases limit - addr,
{
    if !(addr >= limit || mem.byte(addr) == 0) {
        lemma_scan_stop_bounds(mem, addr + 1, limit);
    }
}

/// The characters of the bytes in `[start, stop)`.
pub open spec fn chars_between(mem: &ZtMemory, start: int, stop: int) -> Seq<char> {
    Seq::new((stop - start) as nat, |i: int| byte_char(mem.byte(start + i)))
}

impl ZtMemory {
    /// First mapped address.
    pub closed spec fn spec_base(&self) -> int {
        self.base as int
    }

    /// Contents of the region, in address order.
    pub closed spec fn spec_bytes(&self) -> Seq<u8> {
        self.bytes@
    }

    /// Whether the region ends within the 32-bit address space; every region `new` makes does.
    pub open spec fn fits(&self) -> bool {
        self.spec_base() + self.spec_bytes().len() <= 0x1_0000_0000
    }

    /// Whether `addr` lies inside the region.
    pub open spec fn mapped(&self, addr: int) -> bool {
        &&& self.fits()
        &&& self.spec_base() <= addr < self.spec_base() + self.spec_bytes().len()
    }

    /// Whether `[addr, addr + len)` lies inside the region.
    pub open spec fn range_mapped(&self, addr: int, len: int) -> bool {
        &&& self.fits()
        &&& self.spec_base() <= addr
        &&& addr + len <= self.spec_base() + self.spec_bytes().len()
    }

    /// The byte at `addr`.
    pub open spec fn byte(&self, addr: int) -> u8 {
        self.spec_bytes()[addr - self.spec_base()]
    }

    /// The little-endian 32-bit value at `addr`.
    pub open spec fn u32_at(&self, addr: int) -> u32 {
        seq_u32(self.spec_bytes(), addr - self.spec_base())
    }

    /// The region after writing the 32-bit `value` little-endian at `addr`.
    pub open spec fn with_u32(&self, addr: int, value: u32) -> Seq<u8> {
        write_u32_bytes(self.spec_bytes(), addr - self.spec_base(), value)
    }

    /// The region after writing `value` at `addr`.
    pub open spec fn with_byte(&self, addr: int, value: u8) -> Seq<u8> {
        self.spec_bytes().update(addr - self.spec_base(), value)
    }

    /// A region holding `bytes` from address `base`, if it fits in the address space.
    pub fn new(base: u32, bytes: Vec<u8>) -> (r: Option<ZtMemory>)
        ensures
            base as int + bytes@.len() <= 0x1_0000_0000 ==> (r matches Some(m) && m.spec_base() == base && m.spec_bytes() == bytes@),
            base as int + bytes@.len() > 0x1_0000_0000 ==> r is None,
    {
        if bytes.len() as u64 > 0x1_0000_0000u64 - base as u64 {
            None
        } else {
            Some(ZtMemory { base, bytes })
        }
    }

    /// A zero-filled region of `len` bytes from address `base`, if it fits in the address space.
    pub fn zeroed(base: u32, len: u32) -> (r: Option<ZtMemory>)
        ensures
            base as int + len <= 0x1_0000_0000 ==> (r matches Some(m) && m.spec_base() == base && m.spec_bytes().len() == len
                && forall|i: int| 0 <= i < len ==> #[trigger] m.spec_bytes()[i] == 0),
            base as int + len > 0x1_0000_0000 ==> r is None,
    {
        let mut bytes: Vec<u8> = Vec::new();
        let mut i: u32 = 0;
        while i < len
            invariant
                i <= len,
                bytes@.len() == i,
                forall|j: int| 0 <= j < i ==> #[trigger] bytes@[j] == 0,
            decreases len - i,
        {
            bytes.push(0);
            i = i + 1;
        }
        ZtMemory::new(base, bytes)
    }

    /// First mapped address.
    pub fn base(&self) -> (r: u32)
        ensures
            r == self.spec_base(),
    {
        self.base
    }

    /// Number of mapped bytes.
    pub fn len(&self) -> (r: usize)
        ensures
            r == self.spec_bytes().len(),
    {
        self.bytes.len()
    }

    /// Reads one byte.
    pub fn get_u8(&self, addr: u32) -> (r: u8)
        requires
            self.mapped(addr as int),
        ensures
            r == self.byte(addr as int),
    {
        self.bytes[(addr - self.base) as usize]
    }

    /// Reads a little-endian 32-bit value.
    pub fn get_u32(&self, addr: u32) -> (r: u32)
        requires
            self.range_mapped(addr as int, 4),
        ensures
            r == self.u32_at(addr as int),
    {
        let i = (addr - self.base) as usize;
        let b0 = self.bytes[i] as u32;
        let b1 = self.bytes[i + 1] as u32;
        let b2 = self.bytes[i + 2] as u32;
        let b3 = self.bytes[i + 3] as u32;
        b0 + b1 * 256 + b2 * 65536 + b3 * 16777216
    }

    /// Reads a little-endian two's-complement 32-bit value.
    pub fn get_i32(&self, addr: u32) -> (r: i32)
        requires
            self.range_mapped(addr as int, 4),
        ensures
            r == self.u32_at(addr as int) as i32,
    {
        self.get_u32(addr) as i32
    }

    /// Writes one byte.
    pub fn save_u8(&mut self, addr: u32, value: u8)
        requires
            old(self).mapped(addr as int),
        ensures
            final(self).spec_base() == old(self).spec_base(),
            final(self).spec_bytes() == old(self).with_byte(addr as int, value),
    {
        let i = (addr - self.base) as usize;
        self.bytes.set(i, value);
    }

    /// Writes a little-endian 32-bit value.
    pub fn save_u32(&mut self, addr: u32, value: u32)
        requires
            old(self).range_mapped(addr as int, 4),
        ensures
            final(self).spec_base() == old(self).spec_base(),
            final(self).spec_bytes() == old(self).with_u32(addr as int, value),
            final(self).spec_bytes().len() == old(self).spec_bytes().len(),
            final(self).u32_at(addr as int) == value,
            forall|a: int| final(self).mapped(a) && !(addr <= a < addr + 4) ==> #[trigger] final(self).byte(a) == old(self).byte(a),
    {
        let i = (addr - self.base) as usize;
        let b0 = (value % 256) as u8;
        let b1 = ((value / 256) % 256) as u8;
        let b2 = ((value / 65536) % 256) as u8;
        let b3 = (value / 16777216) as u8;
        self.bytes.set(i, b0);
        self.bytes.set(i + 1, b1);
        self.bytes.set(i + 2, b2);
        self.bytes.set(i + 3, b3);
    }
}

/// A value stored in game memory with a fixed little-endian layout.
pub trait MemoryValue: Sized {
    /// Bytes the value occupies.
    spec fn byte_size() -> nat;

    /// The value stored at `addr`.
    spec fn decode(mem: &ZtMemory, addr: int) -> Self;

    /// Reads the value stored at `addr`.
    fn read(mem: &ZtMemory, addr: u32) -> (r: Self)
        requires
            mem.range_mapped(addr as int, Self::byte_size() as int),
        ensures
            r == Self::decode(mem, addr as int),
    ;

    /// Stores `value` at `addr`, leaving every other byte as it was.
    fn write(mem: &mut ZtMemory, addr: u32, value: Self)
        requires
            old(mem).range_mapped(addr as int, Self::byte_size() as int),
        ensures
            final(mem).spec_base() == old(mem).spec_base(),
            final(mem).spec_bytes().len() == old(mem).spec_bytes().len(),
            Self::decode(final(mem), addr as int) == value,
            forall|a: int| final(mem).mapped(a) && !(addr <= a < addr + Self::byte_size()) ==> #[trigger] final(mem).byte(a) == old(mem).byte(a),
    ;
}

impl MemoryValue for u8 {
    open spec fn byte_size() -> nat {
        1
    }

    open spec fn decode(mem: &ZtMemory, addr: int) -> u8 {
        mem.byte(addr)
    }

    fn read(mem: &ZtMemory, addr: u32) -> (r: u8) {
        mem.get_u8(addr)
    }

    fn write(mem: &mut ZtMemory, addr: u32, value: u8) {
        mem.save_u8(addr, value);
    }
}

impl MemoryValue for u32 {
    open spec fn byte_size() -> nat {
        4
    }

    open spec fn decode(mem: &ZtMemory, addr: int) -> u32 {
        mem.u32_at(addr)
    }

    fn read(mem: &ZtMemory, addr: u32) -> (r: u32) {
        mem.get_u32(addr)
    }

    fn write(mem: &mut ZtMemory, addr: u32, value: u32) {
        mem.save_u32(addr, value);
    }
}

impl MemoryValue for i32 {
    open spec fn byte_size() -> nat {
        4
    }

    open spec fn decode(mem: &ZtMemory, addr: int) -> i32 {
        mem.u32_at(addr) as i32
    }

    fn read(mem: &ZtMemory, addr: u32) -> (r: i32) {
        mem.get_i32(addr)
    }

    fn write(mem: &mut ZtMemory, addr: u32, value: i32) {
        mem.save_u32(addr, value as u32);
        assert((value as u32) as i32 == value) by (bit_vector);
    }
}

/// Reads the `T` stored at `address`.
pub fn get_from_memory<T: MemoryValue>(mem: &ZtMemory, address: u32) -> (r: T)
    requires
        mem.range_mapped(address as int, T::byte_size() as int),
    ensures
        r == T::decode(mem, address as int),
{
    T::read(mem, address)
}

/// Stores `value` at `address`, leaving every other byte as it was.
pub fn save_to_memory<T: MemoryValue>(mem: &mut ZtMemory, address: u32, value: T)
    requires
        old(mem).range_mapped(address as int, T::byte_size() as int),
    ensures
        final(mem).spec_base() == old(mem).spec_base(),
        final(mem).spec_bytes().len() == old(mem).spec_bytes().len(),
        T::decode(final(mem), address as int) == value,
        forall|a: int| final(mem).mapped(a) && !(address <= a < address + T::byte_size()) ==> #[trigger] final(mem).byte(a) == old(mem).byte(a),
{
    T::write(mem, address, value)
}

/// Reads bytes from `start` as Latin-1 characters until a NUL byte, `end` or `buffer_end`,
/// whichever comes first. The byte at the stopping address is read too.
pub fn get_string_from_memory_bounded(mem: &ZtMemory, start: u32, end: u32, buffer_end: u32) -> (s: String)
    requires
        mem.mapped(start as int),
        mem.mapped(scan_stop(mem, start as int, if end <= buffer_end { end as int } else { buffer_end as int })),
    ensures
        s@ == chars_between(mem, start as int, scan_stop(mem, start as int, if end <= buffer_end { end as int } else { buffer_end as int })),
{
    let ghost limit = if end <= buffer_end { end as int } else { buffer_end as int };
    let ghost stop = scan_stop(mem, start as int, limit);
    proof {
        lemma_scan_stop_bounds(mem, start as int, limit);
    }
    let mut string = String::new();
    let mut char_address = start;
    loop
        invariant
            start <= char_address <= stop,
            limit == if end <= buffer_end { end as int } else { buffer_end as int },
            scan_stop(mem, char_address as int, limit) == stop,
            mem.mapped(start as int),
            mem.mapped(stop),
            string@ =~= chars_between(mem, start as int, char_address as int),
        ensures
            char_address == stop,
            string@ =~= chars_between(mem, start as int, char_address as int),
        decreases limit - char_address,
    {
        let byte = mem.get_u8(char_address);
        if !(byte != 0 && char_address < end && char_address < buffer_end) {
            break;
        }
        proof {
            lemma_scan_stop_bounds(mem, char_address + 1, limit);
        }
        push_char(&mut string, byte as char);
        char_address = char_address + 1;
    }
    string
}

/// Reads `size` bytes' worth of string from `address`: up to the first NUL byte or `size` bytes.
pub fn get_string_from_memory_with_size(mem: &ZtMemory, address: u32, size: u32) -> (s: String)
    requires
        address as int + size as int <= u32::MAX,
        mem.mapped(address as int),
        mem.mapped(scan_stop(mem, address as int, address + size)),
    ensures
        s@ == chars_between(mem, address as int, scan_stop(mem, address as int, address + size)),
{
    get_string_from_memory_bounded(mem, address, address + size, address + size)
}

/// Reads a NUL-terminated string from `address`.
pub fn get_string_from_memory(mem: &ZtMemory, address: u32) -> (s: String)
    requires
        mem.mapped(address as int),
        scan_stop(mem, address as int, mem.spec_base() + mem.spec_bytes().len()) < mem.spec_base() + mem.spec_bytes().len(),
    ensures
        s@ == chars_between(mem, address as int, scan_stop(mem, address as int, mem.spec_base() + mem.spec_bytes().len())),
{
    let ghost limit = mem.spec_base() + mem.spec_bytes().len();
    let ghost stop = scan_stop(mem, address as int, limit);
    proof {
        lemma_scan_stop_bounds(mem, address as int, limit);
    }
    let mut string = String::new();
    let mut char_address = address;
    loop
        invariant
            address <= char_address <= stop,
            stop < limit,
            limit == mem.spec_base() + mem.spec_bytes().len(),
            scan_stop(mem, char_address as int, limit) == stop,
            mem.mapped(address as int),
            string@ =~= chars_between(mem, address as int, char_address as int),
        ensures
            char_address == stop,
            string@ =~= chars_between(mem, address as int, char_address as int),
        decreases limit - char_address,
    {
        let byte = mem.get_u8(char_address);
        if byte == 0 {
            break;
        }
        proof {
            lemma_scan_stop_bounds(mem, char_address + 1, limit);
        }
        push_char(&mut string, byte as char);
        char_address = char_address + 1;
    }
    string
}

/// `mem` after writing the low byte of each character of `text` from `address`, then a NUL.
pub open spec fn string_saved(old_mem: &ZtMemory, new_mem: &ZtMemory, address: int, text: Seq<char>) -> bool {
    &&& new_mem.spec_base() == old_mem.spec_base()
    &&& new_mem.spec_bytes().len() == old_mem.spec_bytes().len()
    &&& forall|i: int| 0 <= i < text.len() ==> #[trigger] new_mem.byte(address + i) == char_byte(text[i])
    &&& new_mem.byte(address + text.len()) == 0
    &&& forall|a: int| new_mem.mapped(a) && !(address <= a <= address + text.len()) ==> #[trigger] new_mem.byte(a) == old_mem.byte(a)
}

/// Writes the low byte of each character of `string` from `address`, then a NUL.
pub fn save_string_to_memory(mem: &mut ZtMemory, address: u32, string: &str)
    requires
        old(mem).range_mapped(address as int, string@.len() + 1int),
    ensures
        string_saved(old(mem), final(mem), address as int, string@),
{
    let ghost text = string@;
    let ghost start_mem = *mem;
    let mut chars = string.chars();
    let mut char_address = address;
    let mut written: usize = 0;
    proof {
        vstd::string::axiom_spec_iter(string);
    }
    broadcast use vstd::string::next_postcondition;

    loop
        invariant
            written <= text.len(),
            char_address == address + written,
            mem.range_mapped(address as int, text.len() + 1int),
            mem.spec_base() == start_mem.spec_base(),
            mem.spec_bytes().len() == start_mem.spec_bytes().len(),
            vstd::std_specs::iter::IteratorSpec::remaining(&chars) == text.subrange(written as int, text.len() as int),
            forall|i: int| 0 <= i < written ==> #[trigger] mem.byte(address + i) == char_byte(text[i]),
            forall|a: int| mem.mapped(a) && !(address <= a < address + written) ==> #[trigger] mem.byte(a) == start_mem.byte(a),
        ensures
            written == text.len(),
            char_address == address + written,
            mem.range_mapped(address as int, text.len() + 1int),
            mem.spec_base() == start_mem.spec_base(),
            mem.spec_bytes().len() == start_mem.spec_bytes().len(),
            forall|i: int| 0 <= i < written ==> #[trigger] mem.byte(address + i) == char_byte(text[i]),
            forall|a: int| mem.mapped(a) && !(address <= a < address + written) ==> #[trigger] mem.byte(a) == start_mem.byte(a),
        decreases text.len() - written,
    {
        match chars.next() {
            Some(c) => {
                let ghost before = *mem;
                mem.save_u8(char_address, (c as u32) as u8);
                assert(text.subrange(written + 1, text.len() as int) =~= text.subrange(written as int, text.len() as int).drop_first());
                assert forall|i: int| 0 <= i < written + 1 implies #[trigger] mem.byte(address + i) == char_byte(text[i]) by {
                    if i < written {
                        assert(before.byte(address + i) == char_byte(text[i]));
                    }
                }
                assert forall|a: int| mem.mapped(a) && !(address <= a < address + written + 1) implies #[trigger] mem.byte(a) == start_mem.byte(a) by {
                    assert(before.byte(a) == start_mem.byte(a));
                }
                char_address = char_address + 1;
                written = written + 1;
            },
            None => break,
        }
    }
    let ghost before = *mem;
    mem.save_u8(char_address, 0);
    assert forall|i: int| 0 <= i < text.len() implies #[trigger] mem.byte(address + i) == char_byte(text[i]) by {
        assert(before.byte(address + i) == char_byte(text[i]));
    }
    assert forall|a: int| mem.mapped(a) && !(address <= a <= address + text.len()) implies #[trigger] mem.byte(a) == start_mem.byte(a) by {
        assert(before.byte(a) == start_mem.byte(a));
    }
}

/// A string never has more characters than UTF-8 bytes.
pub proof fn lemma_chars_le_bytes(chars: Seq<char>)
    ensures
        chars.len() <= vstd::utf8::encode_utf8(chars).len(),
    decreases chars.len(),
{
    if chars.len() > 0 {
        lemma_chars_le_bytes(chars.drop_first());
    }
}

/// Why a game string could not be replaced.
#[derive(Clone, Copy, Debug, PartialEq, Eq, Structural)]
pub enum ZtStringError {
    /// The new text (plus its NUL) does not fit the string's buffer.
    TooLong,
}

/// The game's growable string: `[start_ptr, end_ptr)` holds the text and the buffer runs to
/// `buffer_end_ptr`.
#[derive(Clone, Copy, Debug)]
pub struct ZTBufferString {
    start_ptr: u32,
    end_ptr: u32,
    buffer_end_ptr: u32,
}

impl ZTBufferString {
    /// A string whose text is `[start, end)` inside a buffer that ends at `buffer_end`.
    pub fn from_raw_parts(start: u32, end: u32, buffer_end: u32) -> (s: ZTBufferString)
        ensures
            s.start() == start,
            s.end() == end,
            s.buffer_end() == buffer_end,
    {
        ZTBufferString { start_ptr: start, end_ptr: end, buffer_end_ptr: buffer_end }
    }

    pub closed spec fn start(&self) -> u32 {
        self.start_ptr
    }

    pub closed spec fn end(&self) -> u32 {
        self.end_ptr
    }

    pub closed spec fn buffer_end(&self) -> u32 {
        self.buffer_end_ptr
    }

    /// Whether the text and the buffer are well-ordered ranges.
    pub open spec fn well_ordered(&self) -> bool {
        self.start() <= self.end() <= self.buffer_end()
    }

    /// Length of the text in bytes.
    pub fn len(&self) -> (r: usize)
        requires
            self.start() <= self.end(),
        ensures
            r == self.end() - self.start(),
    {
        (self.end_ptr - self.start_ptr) as usize
    }

    /// Size of the buffer in bytes.
    pub fn capacity(&self) -> (r: usize)
        requires
            self.start() <= self.buffer_end(),
        ensures
            r == self.buffer_end() - self.start(),
    {
        (self.buffer_end_ptr - self.start_ptr) as usize
    }

    /// Writes `new_string` and a NUL into the buffer and moves the end of the text to just after
    /// its bytes, if the bytes and the NUL fit the buffer; otherwise changes nothing.
    pub fn replace(&mut self, mem: &mut ZtMemory, new_string: String) -> (r: Result<(), ZtStringError>)
        requires
            old(self).start() <= old(self).buffer_end(),
            old(mem).range_mapped(old(self).start() as int, old(self).buffer_end() - old(self).start()),
            vstd::utf8::encode_utf8(new_string@).len() <= usize::MAX,
        ensures
            vstd::utf8::encode_utf8(new_string@).len() + 1 > old(self).buffer_end() - old(self).start() ==> r == Err::<(), ZtStringError>(ZtStringError::TooLong)
                && *final(self) == *old(self) && *final(mem) == *old(mem),
            vstd::utf8::encode_utf8(new_string@).len() + 1 <= old(self).buffer_end() - old(self).start() ==> r is Ok
                && final(self).start() == old(self).start()
                && final(self).end() == old(self).start() + vstd::utf8::encode_utf8(new_string@).len()
                && final(self).buffer_end() == old(self).buffer_end()
                && string_saved(old(mem), final(mem), old(self).start() as int, new_string@),
    {
        let text = new_string.as_str();
        let byte_len = text.len();
        assert(text@ == new_string@);
        assert(byte_len == vstd::utf8::encode_utf8(new_string@).len());
        if byte_len >= self.capacity() {
            return Err(ZtStringError::TooLong);
        }
        proof {
            lemma_chars_le_bytes(new_string@);
        }
        let new_end_ptr = self.start_ptr + byte_len as u32;
        save_string_to_memory(mem, self.start_ptr, text);
        self.end_ptr = new_end_ptr;
        Ok(())
    }

    /// The text, read up to a NUL byte or the end of the text, whichever comes first.
    pub fn copy_to_string(&self, mem: &ZtMemory) -> (s: String)
        requires
            mem.mapped(self.start() as int),
            mem.mapped(scan_stop(mem, self.start() as int, if self.end() <= self.buffer_end() { self.end() as int } else { self.buffer_end() as int })),
        ensures
            s@ == chars_between(mem, self.start() as int, scan_stop(mem, self.start() as int, if self.end() <= self.buffer_end() { self.end() as int } else { self.buffer_end() as int })),
    {
        get_string_from_memory_bounded(mem, self.start_ptr, self.end_ptr, self.buffer_end_ptr)
    }
}

/// The game's fixed-size string: `[start_ptr, end_ptr)` is both the text and its buffer.
#[derive(Clone, Copy, Debug)]
pub struct ZTBoundedString {
    start_ptr: u32,
    end_ptr: u32,
}

impl ZTBoundedString {
    /// A string whose text and buffer are `[start, end)`.
    pub fn from_raw_parts(start: u32, end: u32) -> (s: ZTBoundedString)
        ensures
            s.start() == start,
            s.end() == end,
    {
        ZTBoundedString { start_ptr: start, end_ptr: end }
    }

    pub closed spec fn start(&self) -> u32 {
        self.start_ptr
    }

    pub closed spec fn end(&self) -> u32 {
        self.end_ptr
    }

    /// Length in bytes.
    pub fn len(&self) -> (r: usize)
        requires
            self.start() <= self.end(),
        ensures
            r == self.end() - self.start(),
    {
        (self.end_ptr - self.start_ptr) as usize
    }

    /// Size of the buffer in bytes: the same as the length.
    pub fn capacity(&self) -> (r: usize)
        requires
            self.start() <= self.end(),
        ensures
            r == self.end() - self.start(),
    {
        self.len()
    }

    /// Writes `new_string` and a NUL over the string, if its bytes plus the NUL exactly fill
    /// the buffer; otherwise changes nothing.
    pub fn replace(&mut self, mem: &mut ZtMemory, new_string: String) -> (r: Result<(), ZtStringError>)
        requires
            old(self).start() <= old(self).end(),
            old(mem).range_mapped(old(self).start() as int, old(self).end() - old(self).start()),
            vstd::utf8::encode_utf8(new_string@).len() <= usize::MAX,
        ensures
            vstd::utf8::encode_utf8(new_string@).len() + 1 != old(self).end() - old(self).start() ==> r == Err::<(), ZtStringError>(ZtStringError::TooLong)
                && *final(self) == *old(self) && *final(mem) == *old(mem),
            vstd::utf8::encode_utf8(new_string@).len() + 1 == old(self).end() - old(self).start() ==> r is Ok
                && final(self).start() == old(self).start()
                && final(self).end() == old(self).start() + vstd::utf8::encode_utf8(new_string@).len()
                && string_saved(old(mem), final(mem), old(self).start() as int, new_string@),
    {
        let text = new_string.as_str();
        let byte_len = text.len();
        assert(text@ == new_string@);
        assert(byte_len == vstd::utf8::encode_utf8(new_string@).len());
        let capacity = self.capacity();
        if capacity == 0 || byte_len != capacity - 1 {
            return Err(ZtStringError::TooLong);
        }
        proof {
            lemma_chars_le_bytes(new_string@);
        }
        let new_end_ptr = self.start_ptr + byte_len as u32;
        save_string_to_memory(mem, self.start_ptr, text);
        self.end_ptr = new_end_ptr;
        Ok(())
    }

    /// The text, read up to a NUL byte or the end of the string.
    pub fn copy_to_string(&self, mem: &ZtMemory) -> (s: String)
        requires
            mem.mapped(self.start() as int),
            mem.mapped(scan_stop(mem, self.start() as int, self.end() as int)),
        ensures
            s@ == chars_between(mem, self.start() as int, scan_stop(mem, self.start() as int, self.end() as int)),
    {
        get_string_from_memory_bounded(mem, self.start_ptr, self.end_ptr, self.end_ptr)
    }
}

/// The game's vector of pointers: `[start_ptr, end_ptr)` holds 4-byte pointers to the elements
/// and the allocation runs to `buffer_end_ptr`.
pub struct ZTArray<T> {
    start_ptr: u32,
    end_ptr: u32,
    buffer_end_ptr: u32,
    _marker: core::marker::PhantomData<T>,
}

impl<T: MemoryValue> ZTArray<T> {
    /// An array whose pointers are `[start, end)` inside an allocation that ends at `buffer_end`.
    pub fn from_raw_parts(start: u32, end: u32, buffer_end: u32) -> (a: ZTArray<T>)
        ensures
            a.start() == start,
            a.end() == end,
            a.buffer_end() == buffer_end,
    {
        ZTArray { start_ptr: start, end_ptr: end, buffer_end_ptr: buffer_end, _marker: core::marker::PhantomData }
    }

    pub closed spec fn start(&self) -> u32 {
        self.start_ptr
    }

    pub closed spec fn end(&self) -> u32 {
        self.end_ptr
    }

    pub closed spec fn buffer_end(&self) -> u32 {
        self.buffer_end_ptr
    }

    /// Address of the `index`-th pointer.
    pub open spec fn slot(&self, index: int) -> int {
        self.start() + index * 4
    }

    /// Whether the `index`-th pointer and the element it points to can be read.
    pub open spec fn readable(&self, mem: &ZtMemory, index: int) -> bool {
        &&& mem.range_mapped(self.slot(index), 4)
        &&& mem.range_mapped(mem.u32_at(self.slot(index)) as int, T::byte_size() as int)
    }

    /// The `index`-th element.
    pub open spec fn element(&self, mem: &ZtMemory, index: int) -> T {
        T::decode(mem, mem.u32_at(self.slot(index)) as int)
    }

    /// Number of elements: the pointer range's size over 4.
    pub fn len(&self) -> (r: usize)
        requires
            self.start() <= self.end(),
        ensures
            r == (self.end() - self.start()) / 4,
    {
        ((self.end_ptr - self.start_ptr) / 4) as usize
    }

    /// Number of elements the allocation has room for.
    pub fn capacity(&self) -> (r: usize)
        requires
            self.start() <= self.buffer_end(),
        ensures
            r == (self.buffer_end() - self.start()) / 4,
    {
        ((self.buffer_end_ptr - self.start_ptr) / 4) as usize
    }

    /// The `index`-th pointer.
    pub fn get_ptr(&self, mem: &ZtMemory, index: usize) -> (r: u32)
        requires
            index < 0x4000_0000,
            mem.range_mapped(self.slot(index as int), 4),
        ensures
            r == mem.u32_at(self.slot(index as int)),
    {
        mem.get_u32(self.start_ptr + (index * 4) as u32)
    }

    /// The `index`-th element.
    pub fn get(&self, mem: &ZtMemory, index: usize) -> (r: T)
        requires
            index < 0x4000_0000,
            self.readable(mem, index as int),
        ensures
            r == self.element(mem, index as int),
    {
        let ptr = self.get_ptr(mem, index);
        get_from_memory::<T>(mem, ptr)
    }

    /// Overwrites the `index`-th element in place.
    pub fn set(&self, mem: &mut ZtMemory, index: usize, value: T)
        requires
            index < 0x4000_0000,
            self.readable(old(mem), index as int),
        ensures
            final(mem).spec_base() == old(mem).spec_base(),
            final(mem).spec_bytes().len() == old(mem).spec_bytes().len(),
            T::decode(final(mem), old(mem).u32_at(self.slot(index as int)) as int) == value,
            forall|a: int|
                final(mem).mapped(a) && !(old(mem).u32_at(self.slot(index as int)) <= a < old(mem).u32_at(self.slot(index as int)) + T::byte_size())
                    ==> #[trigger] final(mem).byte(a) == old(mem).byte(a),
    {
        let ptr = self.get_ptr(mem, index);
        save_to_memory::<T>(mem, ptr, value);
    }

    /// Every element, in order.
    pub fn get_vec(&self, mem: &ZtMemory) -> (v: Vec<T>)
        requires
            self.start() <= self.end(),
            forall|i: int| 0 <= i < (self.end() - self.start()) / 4 ==> #[trigger] self.readable(mem, i),
        ensures
            v@.len() == (self.end() - self.start()) / 4,
            forall|i: int| 0 <= i < v@.len() ==> #[trigger] v@[i] == self.element(mem, i),
    {
        let mut vec: Vec<T> = Vec::new();
        let n = self.len();
        let mut i: usize = 0;
        while i < n
            invariant
                i <= n,
                n == (self.end() - self.start()) / 4,
                forall|j: int| 0 <= j < n ==> #[trigger] self.readable(mem, j),
                vec@.len() == i,
                forall|j: int| 0 <= j < i ==> #[trigger] vec@[j] == self.element(mem, j),
            decreases n - i,
        {
            assert(self.readable(mem, i as int));
            vec.push(self.get(mem, i));
            i = i + 1;
        }
        vec
    }
}

/// Why a typed read was refused.
#[derive(Clone, Copy, Debug, PartialEq, Eq, Structural)]
pub enum CheckError {
    /// The value at the address failed its type's check.
    Invalid,
}

/// A type that can check whether memory at an address plausibly holds one of its values.
pub trait Checkable {
    /// Whether the check passes for `ptr`.
    spec fn passes(mem: &ZtMemory, ptr: u32) -> bool;

    /// Checks the value at `ptr`.
    fn check(mem: &ZtMemory, ptr: u32) -> (r: Result<(), CheckError>)
        ensures
            r is Ok <==> Self::passes(mem, ptr),
    ;
}

/// The node reached from `node` by following `k` next-pointers, a node's next-pointer being its
/// first word.
pub open spec fn follow(mem: &ZtMemory, node: u32, k: nat) -> u32
    decreases k,
{
    if k == 0 {
        node
    } else {
        mem.u32_at(follow(mem, node, (k - 1) as nat) as int)
    }
}

/// The circular list headed by the sentinel node at `sentinel` holds exactly `n` nodes: from the
/// sentinel's next node, the sentinel comes back after `n` steps and not before, and every node
/// passed on the way is readable.
pub open spec fn list_len_is(mem: &ZtMemory, sentinel: u32, n: nat) -> bool {
    &&& follow(mem, mem.u32_at(sentinel as int), n) == sentinel
    &&& forall|k: nat| #![trigger follow(mem, mem.u32_at(sentinel as int), k)]
        k < n ==> {
            &&& follow(mem, mem.u32_at(sentinel as int), k) != sentinel
            &&& mem.range_mapped(follow(mem, mem.u32_at(sentinel as int), k) as int, 4)
        }
}

/// The number of nodes of the circular list headed by the sentinel node at `sentinel`.
pub fn list_node_count(mem: &ZtMemory, sentinel: u32) -> (count: i32)
    requires
        mem.range_mapped(sentinel as int, 4),
        exists|n: nat| n <= i32::MAX && list_len_is(mem, sentinel, n),
    ensures
        count >= 0,
        list_len_is(mem, sentinel, count as nat),
{
    let ghost n: nat = choose|n: nat| n <= i32::MAX && list_len_is(mem, sentinel, n);
    let ghost first: u32 = mem.u32_at(sentinel as int);
    let mut node = mem.get_u32(sentinel);
    let mut count: i32 = 0;
    while node != sentinel
        invariant
            0 <= count <= n <= i32::MAX,
            list_len_is(mem, sentinel, n),
            first == mem.u32_at(sentinel as int),
            node == follow(mem, first, count as nat),
        decreases n - count,
    {
        assert(count < n);
        assert(mem.range_mapped(follow(mem, first, count as nat) as int, 4));
        node = mem.get_u32(node);
        count = count + 1;
    }
    count
}

/// Reads the `T` at `address` once its type's check has passed.
pub fn checked_get_from_memory<T: Checkable + MemoryValue>(mem: &ZtMemory, address: u32) -> (r: Result<T, CheckError>)
    requires
        mem.range_mapped(address as int, T::byte_size() as int),
    ensures
        T::passes(mem, address) ==> r == Ok::<T, CheckError>(T::decode(mem, address as int)),
        !T::passes(mem, address) ==> r is Err,
{
    T::check(mem, address)?;
    Ok(get_from_memory::<T>(mem, address))
}

/// Whether every character of `text` is a non-NUL Latin-1 character: one byte each in game
/// memory, none of them the terminator.
pub open spec fn latin1_without_nul(text: Seq<char>) -> bool {
    forall|i: int| 0 <= i < text.len() ==> 0 < (#[trigger] text[i] as u32) < 256
}

/// Whether the `n` bytes from `address` are all non-NUL.
pub open spec fn nonzero_run(mem: &ZtMemory, address: int, n: int) -> bool {
    forall|i: int| 0 <= i < n ==> #[trigger] mem.byte(address + i) != 0
}

proof fn lemma_scan_saved(mem: &ZtMemory, address: int, n: int, limit: int, k: int)
    requires
        0 <= k <= n,
        address + n < limit,
        nonzero_run(mem, address, n),
        mem.byte(address + n) == 0,
    ensures
        scan_stop(mem, address + k, limit) == address + n,
    decreases n - k,
{
    if k < n {
        assert(mem.byte(address + k) != 0);
        lemma_scan_saved(mem, address, n, limit, k + 1);
    }
}

/// Writing a string and reading it back gives the string again, when its characters are
/// Latin-1 and not NUL and the read may run past its end: the read stops at the written NUL.
pub proof fn law_string_round_trip(old_mem: &ZtMemory, new_mem: &ZtMemory, address: int, text: Seq<char>, limit: int)
    requires
        string_saved(old_mem, new_mem, address, text),
        latin1_without_nul(text),
        address + text.len() < limit,
    ensures
        scan_stop(new_mem, address, limit) == address + text.len(),
        chars_between(new_mem, address, address + text.len()) == text,
{
    assert forall|i: int| 0 <= i < text.len() implies #[trigger] new_mem.byte(address + i) != 0 && byte_char(new_mem.byte(address + i)) == text[i] by {
        assert(new_mem.byte(address + i) == char_byte(text[i]));
        let u = text[i] as u32;
        assert(0 < u < 256);
        assert((u as u8) as u32 == u && u as u8 != 0) by (bit_vector)
            requires
                0 < u < 256,
        ;
        let b = u as u8;
        assert(b as int == u as int);
        vstd::utf8::char_u32_cast(text[i], u);
        assert(u as char == text[i]);
        assert(b as char == u as char);
    }
    lemma_scan_saved(new_mem, address, text.len() as int, limit, 0);
    assert(chars_between(new_mem, address, address + text.len()) =~= text);
}

} // verus!
