//! Macro storage: the binary frame-file format and the indexed store.
//!
//! Binary format:
//!   Header (16 bytes):
//!     [0..4]   Magic "MAC2"
//!     [4..6]   Version (u16 LE) = 2
//!     [6..8]   Report size (u16 LE) = 64
//!     [8..12]  Frame count (u32 LE)
//!     [12..16] Duration microseconds (u32 LE)
//!   Per frame (72 bytes):
//!     [0..8]   Timestamp microseconds (u64 LE)
//!     [8..72]  Raw 64-byte HID report
//!
//! The store keeps the index entries and the encoded files side by side:
//! entry `i` describes file `i`. Persisting both to a directory, and loading
//! them back at startup, is the caller's business.

use vstd::prelude::*;

verus! {

/// One index entry describing a stored macro.
#[derive(Debug)]
pub struct MacroEntry {
    pub id: u32,
    pub name: String,
    pub filename: String,
    pub frame_count: u32,
    pub duration_ms: u32,
    pub created: String,
}

impl Clone for MacroEntry {
    fn clone(&self) -> (r: Self)
        ensures
            r == *self,
    {
        MacroEntry {
            id: self.id,
            name: self.name.clone(),
            filename: self.filename.clone(),
            frame_count: self.frame_count,
            duration_ms: self.duration_ms,
            created: self.created.clone(),
        }
    }
}

// ---------------------------------------------------------------------------
// Decimal rendering and filenames
// ---------------------------------------------------------------------------
/// The character of one decimal digit.
pub open spec fn spec_digit_char(d: nat) -> char {
    if d == 0 {
        '0'
    } else if d == 1 {
        '1'
    } else if d == 2 {
        '2'
    } else if d == 3 {
        '3'
    } else if d == 4 {
        '4'
    } else if d == 5 {
        '5'
    } else if d == 6 {
        '6'
    } else if d == 7 {
        '7'
    } else if d == 8 {
        '8'
    } else {
        '9'
    }
}

/// The decimal rendering of a number, most significant digit first.
pub open spec fn spec_dec(n: nat) -> Seq<char>
    decreases n,
{
    if n < 10 {
        seq![spec_digit_char(n)]
    } else {
        spec_dec(n / 10).push(spec_digit_char(n % 10))
    }
}

/// The decimal rendering of an id, zero-padded to at least three digits.
pub open spec fn spec_padded_id(id: nat) -> Seq<char> {
    if id < 10 {
        seq!['0', '0'] + spec_dec(id)
    } else if id < 100 {
        seq!['0'] + spec_dec(id)
    } else {
        spec_dec(id)
    }
}

/// The file name of a stored macro: `{id:03}_{name}.bin`.
pub open spec fn spec_filename(id: nat, name: Seq<char>) -> Seq<char> {
    spec_padded_id(id) + seq!['_'] + name + seq!['.', 'b', 'i', 'n']
}

/// The name given to a macro saved without one: `macro_{id}`.
pub open spec fn spec_default_name(id: nat) -> Seq<char> {
    seq!['m', 'a', 'c', 'r', 'o', '_'] + spec_dec(id)
}

/// Append one decimal digit to a string.
fn push_digit(s: &mut String, d: u32)
    requires
        d < 10,
    ensures
        final(s)@ == old(s)@ + seq![spec_digit_char(d as nat)],
{
    proof {
        reveal_strlit("0");
        reveal_strlit("1");
        reveal_strlit("2");
        reveal_strlit("3");
        reveal_strlit("4");
        reveal_strlit("5");
        reveal_strlit("6");
        reveal_strlit("7");
        reveal_strlit("8");
        reveal_strlit("9");
    }
    if d == 0 {
        s.append("0");
    } else if d == 1 {
        s.append("1");
    } else if d == 2 {
        s.append("2");
    } else if d == 3 {
        s.append("3");
    } else if d == 4 {
        s.append("4");
    } else if d == 5 {
        s.append("5");
    } else if d == 6 {
        s.append("6");
    } else if d == 7 {
        s.append("7");
    } else if d == 8 {
        s.append("8");
    } else {
        s.append("9");
    }
    proof {
        assert(s@ =~= old(s)@ + seq![spec_digit_char(d as nat)]);
    }
}

/// Append the decimal rendering of a number to a string.
fn push_dec(s: &mut String, n: u32)
    ensures
        final(s)@ == old(s)@ + spec_dec(n as nat),
    decreases n,
{
    if n < 10 {
        push_digit(s, n);
    } else {
        push_dec(s, n / 10);
        push_digit(s, n % 10);
        proof {
            assert(s@ =~= old(s)@ + spec_dec(n as nat));
        }
    }
}

/// Render the file name of a macro: `{id:03}_{name}.bin`.
pub fn macro_filename(id: u32, name: &str) -> (r: String)
    ensures
        r@ == spec_filename(id as nat, name@),
{
    proof {
        reveal_strlit("00");
        reveal_strlit("0");
        reveal_strlit("_");
        reveal_strlit(".bin");
    }
    let mut s = String::new();
    if id < 10 {
        s.append("00");
    } else if id < 100 {
        s.append("0");
    }
    push_dec(&mut s, id);
    proof {
        assert(s@ =~= spec_padded_id(id as nat));
    }
    s.append("_");
    s.append(name);
    s.append(".bin");
    proof {
        assert(s@ =~= spec_filename(id as nat, name@));
    }
    s
}

/// Render the default name of a macro saved without one: `macro_{id}`.
pub fn default_macro_name(id: u32) -> (r: String)
    ensures
        r@ == spec_default_name(id as nat),
{
    proof {
        reveal_strlit("macro_");
    }
    let mut s = String::new();
    s.append("macro_");
    push_dec(&mut s, id);
    proof {
        assert(s@ =~= spec_default_name(id as nat));
    }
    s
}

// ---------------------------------------------------------------------------
// The binary frame-file format
// ---------------------------------------------------------------------------
/// One recorded frame: a microsecond offset from the start of the recording
/// and the raw 64-byte HID report.
pub open spec fn spec_frame_bytes(frame: (u64, [u8; 64])) -> Seq<u8> {
    vstd::bytes::spec_u64_to_le_bytes(frame.0) + frame.1@
}

/// The concatenated frame records of a recording.
pub open spec fn spec_frames_bytes(frames: Seq<(u64, [u8; 64])>) -> Seq<u8>
    decreases frames.len(),
{
    if frames.len() == 0 {
        Seq::empty()
    } else {
        spec_frames_bytes(frames.drop_last()) + spec_frame_bytes(frames.last())
    }
}

/// Each frame record is 72 bytes.
pub proof fn lemma_frames_bytes_len(frames: Seq<(u64, [u8; 64])>)
    ensures
        spec_frames_bytes(frames).len() == 72 * frames.len(),
    decreases frames.len(),
{
    if frames.len() > 0 {
        lemma_frames_bytes_len(frames.drop_last());
        vstd::bytes::lemma_auto_spec_u64_to_from_le_bytes();
    }
}

/// The 16-byte file header.
pub open spec fn spec_macro_header(frame_count: u32, duration_us: u32) -> Seq<u8> {
    seq![0x4Du8, 0x41u8, 0x43u8, 0x32u8] + vstd::bytes::spec_u16_to_le_bytes(2)
        + vstd::bytes::spec_u16_to_le_bytes(64) + vstd::bytes::spec_u32_to_le_bytes(frame_count)
        + vstd::bytes::spec_u32_to_le_bytes(duration_us)
}

/// The duration a recording is stamped with: the last frame's timestamp,
/// truncated to 32 bits of microseconds.
pub open spec fn spec_macro_duration_us(frames: Seq<(u64, [u8; 64])>) -> u32 {
    if frames.len() > 0 {
        frames.last().0 as u32
    } else {
        0u32
    }
}

/// The whole encoded macro file.
pub open spec fn spec_macro_file(frames: Seq<(u64, [u8; 64])>) -> Seq<u8> {
    spec_macro_header(frames.len() as u32, spec_macro_duration_us(frames)) + spec_frames_bytes(
        frames,
    )
}

/// The header is 16 bytes, so the file length is 16 + 72 per frame.
pub proof fn lemma_macro_file_len(frames: Seq<(u64, [u8; 64])>)
    requires
        frames.len() <= 0xFFFFFFFF,
    ensures
        spec_macro_file(frames).len() == 16 + 72 * frames.len(),
{
    lemma_frames_bytes_len(frames);
    vstd::bytes::lemma_auto_spec_u16_to_from_le_bytes();
    vstd::bytes::lemma_auto_spec_u32_to_from_le_bytes();
}

/// Encode a recording into the binary file format.
pub fn encode_macro_file(frames: &Vec<(u64, [u8; 64])>) -> (r: Vec<u8>)
    requires
        frames@.len() <= 0xFFFFFFFF,
    ensures
        r@ == spec_macro_file(frames@),
{
    let mut data: Vec<u8> = Vec::new();
    data.push(0x4D);
    data.push(0x41);
    data.push(0x43);
    data.push(0x32);
    let mut version = vstd::bytes::u16_to_le_bytes(2);
    data.append(&mut version);
    let mut report_size = vstd::bytes::u16_to_le_bytes(64);
    data.append(&mut report_size);
    let mut count = vstd::bytes::u32_to_le_bytes(frames.len() as u32);
    data.append(&mut count);
    let duration_us: u32 = if frames.len() > 0 {
        #[verifier::truncate]
        (frames[frames.len() - 1].0 as u32)
    } else {
        0
    };
    let mut duration = vstd::bytes::u32_to_le_bytes(duration_us);
    data.append(&mut duration);
    proof {
        assert(data@ =~= spec_macro_header(frames@.len() as u32, spec_macro_duration_us(frames@)));
    }

    let ghost header = data@;
    let n = frames.len();
    let mut i: usize = 0;
    while i < n
        invariant
            n == frames@.len(),
            i <= n,
            data@ == header + spec_frames_bytes(frames@.subrange(0, i as int)),
        decreases n - i,
    {
        let (ts, report) = frames[i];
        let mut ts_bytes = vstd::bytes::u64_to_le_bytes(ts);
        data.append(&mut ts_bytes);
        let mut report_bytes = vstd::slice::slice_to_vec(report.as_slice());
        data.append(&mut report_bytes);
        proof {
            let sub1 = frames@.subrange(0, (i + 1) as int);
            assert(sub1.drop_last() =~= frames@.subrange(0, i as int));
            assert(sub1.last() == frames@[i as int]);
            assert(data@ =~= header + spec_frames_bytes(sub1));
        }
        i = i + 1;
    }
    proof {
        assert(frames@.subrange(0, n as int) =~= frames@);
    }
    data
}

// ---------------------------------------------------------------------------
// The store
// ---------------------------------------------------------------------------
/// The largest id in use, or zero for an empty index.
pub open spec fn spec_max_id(s: Seq<MacroEntry>) -> nat
    decreases s.len(),
{
    if s.len() == 0 {
        0nat
    } else if s.last().id as nat >= spec_max_id(s.drop_last()) {
        s.last().id as nat
    } else {
        spec_max_id(s.drop_last())
    }
}

/// Every id in the index is bounded by the largest.
pub proof fn lemma_max_id_ge(s: Seq<MacroEntry>, i: int)
    requires
        0 <= i < s.len(),
    ensures
        s[i].id as nat <= spec_max_id(s),
    decreases s.len(),
{
    if i < s.len() - 1 {
        lemma_max_id_ge(s.drop_last(), i);
    }
}

/// Whether the index holds an entry with the given id.
pub open spec fn spec_has_id(s: Seq<MacroEntry>, id: u32) -> bool {
    exists|i: int| 0 <= i < s.len() && s[i].id == id
}

/// The position of the entry with the given id (ids are unique under the
/// store invariant).
pub open spec fn spec_index_of_id(s: Seq<MacroEntry>, id: u32) -> int {
    choose|i: int| 0 <= i < s.len() && s[i].id == id
}

/// The stored file content of the macro with the given id.
pub open spec fn spec_file_of_id(store: MacroStore, id: u32) -> Seq<u8> {
    store.files@[spec_index_of_id(store.entries@, id)]@
}

/// The indexed macro store. Entry `i` of the index describes stored file
/// `i`: its name on disk is `entries[i].filename` and its content is
/// `files[i]`. The caller mirrors both onto a directory.
pub struct MacroStore {
    pub entries: Vec<MacroEntry>,
    pub files: Vec<Vec<u8>>,
}

impl MacroStore {
    /// The store invariant: the index and the files pair off exactly (an
    /// entry's file exists and no orphan file remains), ids are unique, and
    /// every entry's filename is `{id:03}_{name}.bin`.
    pub open spec fn wf(&self) -> bool {
        &&& self.entries@.len() == self.files@.len()
        &&& forall|i: int, j: int|
            0 <= i < j < self.entries@.len() ==> self.entries@[i].id != self.entries@[j].id
        &&& forall|i: int|
            0 <= i < self.entries@.len() ==> (#[trigger] self.entries@[i]).filename@
                == spec_filename(self.entries@[i].id as nat, self.entries@[i].name@)
    }

    /// An empty store.
    pub fn new() -> (r: Self)
        ensures
            r.wf(),
            r.entries@.len() == 0,
            r.files@.len() == 0,
    {
        MacroStore { entries: Vec::new(), files: Vec::new() }
    }

    /// Rebuild a store from an index and the matching file contents, as
    /// read back from a directory. Pairs are taken in order; an entry whose
    /// id is already taken, whose file name is not `{id:03}_{name}.bin`, or
    /// which has no file of its own is dropped, so the result satisfies the
    /// store invariant whatever the directory held.
    pub fn from_parts(entries: Vec<MacroEntry>, files: Vec<Vec<u8>>) -> (r: MacroStore)
        ensures
            r.wf(),
    {
        let mut store = MacroStore::new();
        let n = if entries.len() < files.len() {
            entries.len()
        } else {
            files.len()
        };
        let mut i: usize = 0;
        while i < n
            invariant
                n <= entries@.len(),
                n <= files@.len(),
                i <= n,
                store.wf(),
            decreases n - i,
        {
            let entry = entries[i].clone();
            let expected = macro_filename(entry.id, entry.name.as_str());
            if !store.has_id(entry.id) && entry.filename == expected {
                let ghost pre = store;
                let ghost entry_g = entry;
                store.entries.push(entry);
                store.files.push(files[i].clone());
                proof {
                    assert(store.entries@ == pre.entries@.push(entry_g));
                    assert forall|a: int, b: int|
                        0 <= a < b < store.entries@.len() implies store.entries@[a].id
                        != store.entries@[b].id by {
                        if b == store.entries@.len() - 1 {
                            assert(store.entries@[a] == pre.entries@[a]);
                            assert(store.entries@[b] == entry_g);
                            if pre.entries@[a].id == entry_g.id {
                                assert(spec_has_id(pre.entries@, entry_g.id));
                            }
                        }
                    }
                    assert forall|a: int|
                        0 <= a < store.entries@.len() implies (#[trigger] store.entries@[a]).filename@
                        == spec_filename(store.entries@[a].id as nat, store.entries@[a].name@) by {
                        if a < pre.entries@.len() {
                            assert(store.entries@[a] == pre.entries@[a]);
                        } else {
                            assert(store.entries@[a] == entry_g);
                        }
                    }
                }
            }
            i = i + 1;
        }
        store
    }

    /// The id the next saved macro will get: one above the largest id in
    /// use. Ids are never reused; the last id is reached only after four
    /// billion saves and then refuses further saves.
    pub fn next_id(&self) -> (r: u32)
        ensures
            spec_max_id(self.entries@) <= 0xFFFFFFFF,
            spec_max_id(self.entries@) < 0xFFFFFFFF ==> r as nat == spec_max_id(self.entries@)
                + 1,
            spec_max_id(self.entries@) == 0xFFFFFFFF ==> r == 0xFFFFFFFFu32,
    {
        let n = self.entries.len();
        let mut m: u32 = 0;
        let mut i: usize = 0;
        while i < n
            invariant
                n == self.entries@.len(),
                i <= n,
                m as nat == spec_max_id(self.entries@.subrange(0, i as int)),
            decreases n - i,
        {
            let id = self.entries[i].id;
            proof {
                let sub1 = self.entries@.subrange(0, (i + 1) as int);
                assert(sub1.drop_last() =~= self.entries@.subrange(0, i as int));
                assert(sub1.last() == self.entries@[i as int]);
            }
            if id > m {
                m = id;
            }
            i = i + 1;
        }
        proof {
            assert(self.entries@.subrange(0, n as int) =~= self.entries@);
        }
        if m == 0xFFFFFFFF {
            m
        } else {
            m + 1
        }
    }

    /// The number of stored macros.
    pub fn get_slot_count(&self) -> (r: usize)
        ensures
            r == self.entries@.len(),
    {
        self.entries.len()
    }

    /// The id of the macro at a slot, if the slot is in range.
    pub fn get_macro_id_by_slot(&self, slot: usize) -> (r: Option<u32>)
        ensures
            r == if slot < self.entries@.len() {
                Some(self.entries@[slot as int].id)
            } else {
                None::<u32>
            },
    {
        if slot < self.entries.len() {
            Some(self.entries[slot].id)
        } else {
            None
        }
    }

    /// A copy of the whole index.
    pub fn list_macros(&self) -> (r: Vec<MacroEntry>)
        ensures
            r@ == self.entries@,
    {
        let r = self.entries.clone();
        proof {
            assert forall|i: int| 0 <= i < r@.len() implies r@[i] == self.entries@[i] by {}
            assert(r@ =~= self.entries@);
        }
        r
    }

    /// The position of the entry with the given id, if any.
    fn index_of_id(&self, id: u32) -> (r: Option<usize>)
        ensures
            r is Some <==> spec_has_id(self.entries@, id),
            r matches Some(i) ==> i < self.entries@.len() && self.entries@[i as int].id == id,
    {
        let n = self.entries.len();
        let mut i: usize = 0;
        while i < n
            invariant
                n == self.entries@.len(),
                i <= n,
                forall|j: int| 0 <= j < i ==> self.entries@[j].id != id,
            decreases n - i,
        {
            if self.entries[i].id == id {
                return Some(i);
            }
            i = i + 1;
        }
        None
    }

    /// The index entry with the given id, if any.
    pub fn get_macro_info(&self, macro_id: u32) -> (r: Option<MacroEntry>)
        ensures
            r is Some <==> spec_has_id(self.entries@, macro_id),
            r matches Some(e) ==> self.entries@.contains(e) && e.id == macro_id,
    {
        match self.index_of_id(macro_id) {
            Some(i) => {
                let e = self.entries[i].clone();
                proof {
                    assert(self.entries@.contains(e)) by {
                        assert(self.entries@[i as int] == e);
                    }
                }
                Some(e)
            },
            None => None,
        }
    }

    /// The stored file content of the macro with the given id, if any.
    pub fn get_file_by_id(&self, macro_id: u32) -> (r: Option<&Vec<u8>>)
        requires
            self.wf(),
        ensures
            r is Some <==> spec_has_id(self.entries@, macro_id),
            r matches Some(b) ==> b@ == spec_file_of_id(*self, macro_id),
    {
        match self.index_of_id(macro_id) {
            Some(i) => {
                let b = &self.files[i];
                proof {
                    assert(0 <= (i as int) < self.entries@.len() && self.entries@[i as int].id
                        == macro_id && b@ == self.files@[i as int]@);
                    let j = spec_index_of_id(self.entries@, macro_id);
                    assert(0 <= j < self.entries@.len() && self.entries@[j].id == macro_id);
                    if j != i as int {
                        assert(self.entries@[j].id != self.entries@[i as int].id);
                    }
                }
                Some(b)
            },
            None => None,
        }
    }

    /// Save a recording: allocate the next id, render the name and file
    /// name, encode the file, and append the index entry and the file.
    /// An empty recording, or an exhausted id space, saves nothing.
    pub fn save_macro(
        &mut self,
        frames: &Vec<(u64, [u8; 64])>,
        name: Option<&str>,
        created: &str,
    ) -> (r: Option<u32>)
        requires
            old(self).wf(),
            frames@.len() <= 0xFFFFFFFF,
        ensures
            final(self).wf(),
            r is Some <==> (frames@.len() > 0 && spec_max_id(old(self).entries@) < 0xFFFFFFFF),
            r matches Some(id) ==> spec_save_post(
                *old(self),
                frames@,
                spec_name_view(name),
                created@,
                *final(self),
                id,
            ),
            r is None ==> *final(self) == *old(self),
    {
        if frames.len() == 0 {
            return None;
        }
        let id = self.next_id();
        if id == 0xFFFFFFFF && self.has_id(0xFFFFFFFF) {
            proof {
                let w = choose|i: int|
                    0 <= i < self.entries@.len() && self.entries@[i].id == 0xFFFFFFFFu32;
                lemma_max_id_ge(self.entries@, w);
            }
            return None;
        }
        proof {
            if spec_max_id(self.entries@) == 0xFFFFFFFF {
                lemma_max_id_witness(self.entries@);
                let w = choose|i: int|
                    0 <= i < self.entries@.len() && (#[trigger] self.entries@[i].id) as nat
                        == spec_max_id(self.entries@);
                assert(spec_has_id(self.entries@, 0xFFFFFFFF));
            }
        }

        let name_string: String = match name {
            Some(n) => n.to_owned(),
            None => default_macro_name(id),
        };
        let filename = macro_filename(id, name_string.as_str());
        let data = encode_macro_file(frames);
        let duration_us: u32 = #[verifier::truncate] (frames[frames.len() - 1].0 as u32);
        let entry = MacroEntry {
            id,
            name: name_string,
            filename,
            frame_count: frames.len() as u32,
            duration_ms: duration_us / 1000,
            created: created.to_owned(),
        };
        let ghost pre = *self;
        let ghost entry_g = entry;
        let ghost data_g = data@;
        self.entries.push(entry);
        self.files.push(data);
        proof {
            assert(self.entries@ == pre.entries@.push(entry_g));
            assert(self.entries@.last() == entry_g);
            assert(self.entries@.subrange(0, pre.entries@.len() as int) =~= pre.entries@);
            assert(self.files@.subrange(0, pre.files@.len() as int) =~= pre.files@);
            assert(self.files@.last()@ == data_g);
            assert forall|i: int, j: int|
                0 <= i < j < self.entries@.len() implies self.entries@[i].id
                != self.entries@[j].id by {
                if j == self.entries@.len() - 1 {
                    assert(self.entries@[i] == pre.entries@[i]);
                    assert(self.entries@[j] == entry_g);
                    lemma_max_id_ge(pre.entries@, i);
                    if pre.entries@[i].id == 0xFFFFFFFFu32 {
                        assert(spec_has_id(pre.entries@, 0xFFFFFFFF));
                    }
                }
            }
            assert forall|i: int|
                0 <= i < self.entries@.len() implies (#[trigger] self.entries@[i]).filename@
                == spec_filename(self.entries@[i].id as nat, self.entries@[i].name@) by {
                if i < pre.entries@.len() {
                    assert(self.entries@[i] == pre.entries@[i]);
                } else {
                    assert(self.entries@[i] == entry_g);
                }
            }
        }
        Some(id)
    }

    /// Whether the store holds a macro with the given id.
    pub fn has_id(&self, macro_id: u32) -> (r: bool)
        ensures
            r == spec_has_id(self.entries@, macro_id),
    {
        self.index_of_id(macro_id).is_some()
    }

    /// Rename a macro: update the entry's name and file name. The stored
    /// file content is untouched; only the name it pairs with changes.
    /// Returns whether the id was found.
    pub fn rename_macro(&mut self, macro_id: u32, new_name: &str) -> (r: bool)
        requires
            old(self).wf(),
        ensures
            final(self).wf(),
            r == spec_has_id(old(self).entries@, macro_id),
            !r ==> *final(self) == *old(self),
            final(self).entries@.len() == old(self).entries@.len(),
            final(self).files@ == old(self).files@,
            forall|j: int|
                0 <= j < old(self).entries@.len() && old(self).entries@[j].id != macro_id
                    ==> final(self).entries@[j] == old(self).entries@[j],
            forall|j: int|
                0 <= j < old(self).entries@.len() && old(self).entries@[j].id == macro_id ==> {
                    let e = final(self).entries@[j];
                    &&& e.id == macro_id
                    &&& e.name@ == new_name@
                    &&& e.filename@ == spec_filename(macro_id as nat, new_name@)
                    &&& e.frame_count == old(self).entries@[j].frame_count
                    &&& e.duration_ms == old(self).entries@[j].duration_ms
                    &&& e.created == old(self).entries@[j].created
                },
    {
        match self.index_of_id(macro_id) {
            Some(i) => {
                let old_entry = &self.entries[i];
                let entry = MacroEntry {
                    id: old_entry.id,
                    name: new_name.to_owned(),
                    filename: macro_filename(macro_id, new_name),
                    frame_count: old_entry.frame_count,
                    duration_ms: old_entry.duration_ms,
                    created: old_entry.created.clone(),
                };
                self.entries.set(i, entry);
                true
            },
            None => false,
        }
    }

    /// Delete a macro: drop its entry and its stored file together.
    /// Returns whether the id was found.
    pub fn delete_macro(&mut self, macro_id: u32) -> (r: bool)
        requires
            old(self).wf(),
        ensures
            final(self).wf(),
            r == spec_has_id(old(self).entries@, macro_id),
            r ==> exists|i: int|
                {
                    &&& 0 <= i < old(self).entries@.len()
                    &&& (#[trigger] old(self).entries@[i]).id == macro_id
                    &&& final(self).entries@ == old(self).entries@.remove(i)
                    &&& final(self).files@ == old(self).files@.remove(i)
                },
            !r ==> *final(self) == *old(self),
    {
        match self.index_of_id(macro_id) {
            Some(i) => {
                self.entries.remove(i);
                self.files.remove(i);
                proof {
                    let pre = *old(self);
                    assert(0 <= i < pre.entries@.len() && pre.entries@[i as int].id == macro_id
                        && self.entries@ == pre.entries@.remove(i as int) && self.files@
                        == pre.files@.remove(i as int));
                    assert forall|a: int, b: int|
                        0 <= a < b < self.entries@.len() implies self.entries@[a].id
                        != self.entries@[b].id by {
                        let pa = if a < i { a } else { a + 1 };
                        let pb = if b < i { b } else { b + 1 };
                        assert(pre.entries@[pa].id != pre.entries@[pb].id);
                    }
                    assert forall|a: int|
                        0 <= a < self.entries@.len() implies (#[trigger] self.entries@[a]).filename@
                        == spec_filename(self.entries@[a].id as nat, self.entries@[a].name@) by {
                        let pa = if a < i { a } else { a + 1 };
                        assert(pre.entries@[pa].filename@ == spec_filename(
                            pre.entries@[pa].id as nat,
                            pre.entries@[pa].name@,
                        ));
                    }
                }
                true
            },
            None => false,
        }
    }
}

/// The resolved view of an optional name argument.
pub open spec fn spec_name_view(name: Option<&str>) -> Option<Seq<char>> {
    match name {
        Some(n) => Some(n@),
        None => None,
    }
}

/// What a successful save leaves behind: the index grew by one entry whose
/// fields describe the recording, and the stored files grew by exactly the
/// encoded file.
pub open spec fn spec_save_post(
    pre: MacroStore,
    frames: Seq<(u64, [u8; 64])>,
    name: Option<Seq<char>>,
    created: Seq<char>,
    post: MacroStore,
    id: u32,
) -> bool {
    let e = post.entries@.last();
    &&& id as nat == spec_max_id(pre.entries@) + 1
    &&& post.entries@.len() == pre.entries@.len() + 1
    &&& post.entries@.subrange(0, pre.entries@.len() as int) == pre.entries@
    &&& post.files@.len() == pre.files@.len() + 1
    &&& post.files@.subrange(0, pre.files@.len() as int) == pre.files@
    &&& post.files@.last()@ == spec_macro_file(frames)
    &&& e.id == id
    &&& e.name@ == (match name {
        Some(n) => n,
        None => spec_default_name(id as nat),
    })
    &&& e.filename@ == spec_filename(id as nat, e.name@)
    &&& e.frame_count == frames.len() as u32
    &&& e.duration_ms == spec_macro_duration_us(frames) / 1000
    &&& e.created@ == created
}

/// The largest id is attained by some entry of a non-empty index.
proof fn lemma_max_id_witness(s: Seq<MacroEntry>)
    requires
        s.len() > 0,
    ensures
        exists|i: int| 0 <= i < s.len() && (#[trigger] s[i].id) as nat == spec_max_id(s),
    decreases s.len(),
{
    if s.last().id as nat >= spec_max_id(s.drop_last()) {
        assert(s[s.len() - 1].id as nat == spec_max_id(s));
    } else {
        lemma_max_id_witness(s.drop_last());
        let i = choose|i: int|
            0 <= i < s.drop_last().len() && (#[trigger] s.drop_last()[i].id) as nat == spec_max_id(
                s.drop_last(),
            );
        assert(s[i].id as nat == spec_max_id(s));
    }
}

/// Law: after any sequence of save, rename and delete operations the store
/// is well formed, so for every id in the index there is a stored file
/// paired with the entry's stated filename, and there are no orphan files:
/// the index and the file list have exactly the same length and pair off
/// position by position.
pub proof fn lemma_index_matches_files(store: MacroStore, id: u32)
    requires
        store.wf(),
        spec_has_id(store.entries@, id),
    ensures
        exists|i: int|
            0 <= i < store.entries@.len() && (#[trigger] store.entries@[i]).id == id
                && store.entries@[i].filename@ == spec_filename(
                store.entries@[i].id as nat,
                store.entries@[i].name@,
            ) && i < store.files@.len(),
        store.entries@.len() == store.files@.len(),
{
    let i = choose|i: int| 0 <= i < store.entries@.len() && (#[trigger] store.entries@[i]).id == id;
    assert(store.entries@[i].filename@ == spec_filename(
        store.entries@[i].id as nat,
        store.entries@[i].name@,
    ));
}

/// Law: saving a non-empty recording, listing the index, and loading the
/// file at the new slot reproduces the id, a file whose length is exactly
/// 16 + 72 per frame, and a header whose frame count matches the recording.
pub proof fn lemma_save_list_load_roundtrip(
    pre: MacroStore,
    frames: Seq<(u64, [u8; 64])>,
    name: Option<Seq<char>>,
    created: Seq<char>,
    post: MacroStore,
    id: u32,
)
    requires
        pre.wf(),
        frames.len() > 0,
        frames.len() <= 0xFFFFFFFF,
        spec_save_post(pre, frames, name, created, post, id),
    ensures
        post.entries@[pre.entries@.len() as int].id == id,
        post.files@[pre.entries@.len() as int]@.len() == 16 + 72 * frames.len(),
        vstd::bytes::spec_u32_from_le_bytes(
            post.files@[pre.entries@.len() as int]@.subrange(8, 12),
        ) == frames.len() as u32,
{
    let file = post.files@[pre.entries@.len() as int]@;
    assert(post.entries@[pre.entries@.len() as int] == post.entries@.last());
    assert(post.files@[pre.entries@.len() as int] == post.files@.last());
    lemma_macro_file_len(frames);
    lemma_frames_bytes_len(frames);
    vstd::bytes::lemma_auto_spec_u16_to_from_le_bytes();
    vstd::bytes::lemma_auto_spec_u32_to_from_le_bytes();
    assert(file.subrange(8, 12) =~= vstd::bytes::spec_u32_to_le_bytes(frames.len() as u32));
}

} // verus!
