//! A disassembler for the Game Boy cpu, fed one byte at a time; used for
//! debug output.

pub mod names;
pub mod table;

use crate::dasm::table::{instr_cb_entry, instr_cb_entry_spec, instr_entry, instr_entry_spec};
use crate::text::{
    chars_of,
    dec_chars,
    dec_str,
    hex_chars,
    hex_str,
    replace_all,
    replace_chars,
    signed_dec_chars,
    signed_dec_str,
    string_of,
};
use vstd::prelude::*;

verus! {

pub const PREFIX_CB_OP: u8 = 0xcb;

/// The kind of immediate an instruction carries, which is also the word in
/// its name that the immediate's value replaces.
#[derive(Clone, Copy, PartialEq, Eq, Structural, Debug)]
pub enum ImmInfo {
    /// an 8-bit value, shown in decimal
    D8,
    /// a 16-bit value, shown in decimal
    D16,
    /// an 8-bit address, shown as `$XX`
    A8,
    /// a 16-bit address, shown as `$XXXX`
    A16,
    /// a signed 8-bit offset, shown in decimal
    R8,
}

/// An opcode's name, length in bytes and immediate.
#[derive(Clone, Copy)]
pub struct InstrEntry {
    pub name: &'static str,
    pub size: u32,
    pub info: Option<ImmInfo>,
}

/// The bytes needed to hold an instruction with the given immediate.
pub open spec fn min_size(info: Option<ImmInfo>) -> u32 {
    match info {
        None => 1,
        Some(ImmInfo::D8) | Some(ImmInfo::A8) | Some(ImmInfo::R8) => 2,
        Some(ImmInfo::D16) | Some(ImmInfo::A16) => 3,
    }
}

/// An entry whose size holds its opcode and its immediate.
pub open spec fn entry_ok(e: InstrEntry) -> bool {
    min_size(e.info) <= e.size <= 3
}

/// A byte read as a signed number.
pub open spec fn signed_byte(b: u8) -> int {
    if b < 128 {
        b as int
    } else {
        b - 256
    }
}

/// The bytes of the instruction being read.
pub struct InstrDesc {
    bytes: Vec<u8>,
}

impl View for InstrDesc {
    type V = Seq<u8>;

    closed spec fn view(&self) -> Seq<u8> {
        self.bytes@
    }
}

impl InstrDesc {
    pub fn new() -> (d: InstrDesc)
        ensures
            d@ == Seq::<u8>::empty(),
    {
        InstrDesc { bytes: Vec::new() }
    }

    pub fn push(&mut self, byte: u8)
        ensures
            final(self)@ == old(self)@.push(byte),
    {
        self.bytes.push(byte);
    }

    pub fn clear(&mut self)
        ensures
            final(self)@ == Seq::<u8>::empty(),
    {
        self.bytes.clear();
    }

    /// The 8-bit immediate, after the opcode.
    pub fn d8(&self) -> (v: u8)
        requires
            self@.len() >= 2,
        ensures
            v == self@[1],
    {
        self.bytes[1]
    }

    /// The 16-bit immediate, little endian after the opcode.
    pub fn d16(&self) -> (v: u16)
        requires
            self@.len() >= 3,
        ensures
            v == self@[1] + 256 * self@[2],
    {
        let lo = self.bytes[1];
        let hi = self.bytes[2];
        proof {
            assert((hi as u16) << 8u16 | (lo as u16) == lo + 256 * hi) by (bit_vector);
        }
        (hi as u16) << 8u16 | (lo as u16)
    }

    pub fn a8(&self) -> (v: u8)
        requires
            self@.len() >= 2,
        ensures
            v == self@[1],
    {
        self.d8()
    }

    pub fn a16(&self) -> (v: u16)
        requires
            self@.len() >= 3,
        ensures
            v == self@[1] + 256 * self@[2],
    {
        self.d16()
    }

    /// The immediate as a signed offset.
    pub fn r8(&self) -> (v: i8)
        requires
            self@.len() >= 2,
        ensures
            v == signed_byte(self@[1]),
    {
        let b = self.d8();
        proof {
            assert(#[verifier::truncate] (b as i8) as int == signed_byte(b)) by (bit_vector);
        }
        #[verifier::truncate]
        (b as i8)
    }
}

/// The word of an instruction's name that the immediate replaces.
pub open spec fn imm_pattern(info: ImmInfo) -> Seq<char> {
    match info {
        ImmInfo::D8 => "d8"@,
        ImmInfo::D16 => "d16"@,
        ImmInfo::A8 => "a8"@,
        ImmInfo::A16 => "a16"@,
        ImmInfo::R8 => "r8"@,
    }
}

/// How the immediate in `bytes` is shown.
pub open spec fn imm_text(info: ImmInfo, bytes: Seq<u8>) -> Seq<char> {
    match info {
        ImmInfo::D8 => dec_str(bytes[1] as nat),
        ImmInfo::D16 => dec_str((bytes[1] + 256 * bytes[2]) as nat),
        ImmInfo::A8 => seq!['$'] + hex_str(bytes[1] as nat, 2),
        ImmInfo::A16 => seq!['$'] + hex_str((bytes[1] + 256 * bytes[2]) as nat, 4),
        ImmInfo::R8 => signed_dec_str(signed_byte(bytes[1])),
    }
}

/// The text of an instruction with name `name`, immediate kind `info` and
/// bytes `bytes`.
pub open spec fn instr_text(name: Seq<char>, info: Option<ImmInfo>, bytes: Seq<u8>) -> Seq<char> {
    match info {
        None => name,
        Some(i) => replace_all(name, imm_pattern(i), imm_text(i, bytes)),
    }
}

/// What the disassembler holds between bytes.
pub struct DasmModel {
    pub bytes_left: u32,
    pub name: Seq<char>,
    pub imm_info: Option<ImmInfo>,
    pub desc: Seq<u8>,
    pub cb_mode: bool,
    pub entries: Seq<InstrEntry>,
    pub cb_entries: Seq<InstrEntry>,
}

impl DasmModel {
    pub open spec fn wf(self) -> bool {
        &&& self.entries.len() == 256
        &&& self.cb_entries.len() == 256
        &&& forall|i: int| 0 <= i < 256 ==> #[trigger] self.entries[i] == instr_entry_spec(i as u8)
        &&& forall|i: int|
            0 <= i < 256 ==> #[trigger] self.cb_entries[i] == instr_cb_entry_spec(i as u8)
        &&& self.desc.len() + self.bytes_left <= 3
        &&& self.cb_mode ==> self.bytes_left == 0
        &&& self.bytes_left > 0 ==> self.desc.len() + self.bytes_left >= min_size(self.imm_info)
    }

    /// One byte. After $CB the next byte names the instruction; otherwise a
    /// byte with nothing pending starts an instruction, and the last byte
    /// of an instruction gives its text.
    pub open spec fn munch_spec(self, byte: u8) -> (DasmModel, Option<Seq<char>>) {
        if self.cb_mode {
            (DasmModel { cb_mode: false, ..self }, Some(instr_cb_entry_spec(byte).name@))
        } else if self.bytes_left == 0 && byte == PREFIX_CB_OP {
            (DasmModel { cb_mode: true, ..self }, None)
        } else {
            let m1 = if self.bytes_left == 0 {
                let e = instr_entry_spec(byte);
                DasmModel {
                    desc: Seq::empty(),
                    name: e.name@,
                    bytes_left: e.size,
                    imm_info: e.info,
                    ..self
                }
            } else {
                self
            };
            let m2 = DasmModel {
                desc: m1.desc.push(byte),
                bytes_left: (m1.bytes_left - 1) as u32,
                ..m1
            };
            if m2.bytes_left == 0 {
                (m2, Some(instr_text(m2.name, m2.imm_info, m2.desc)))
            } else {
                (m2, None)
            }
        }
    }
}

/// Every opcode table entry holds its opcode and immediate in its size.
proof fn lemma_tables_ok(op: u8)
    ensures
        entry_ok(instr_entry_spec(op)),
        instr_cb_entry_spec(op).size == 2,
{
}

/// The disassembler
pub struct Dasm {
    bytes_left: u32,
    name: String,
    imm16: u16,
    imm_info: Option<ImmInfo>,
    instr_entries: Vec<InstrEntry>,
    instr_cb_entries: Vec<InstrEntry>,
    instr_desc: InstrDesc,
    cb_mode: bool,
}

impl View for Dasm {
    type V = DasmModel;

    closed spec fn view(&self) -> DasmModel {
        DasmModel {
            bytes_left: self.bytes_left,
            name: self.name@,
            imm_info: self.imm_info,
            desc: self.instr_desc@,
            cb_mode: self.cb_mode,
            entries: self.instr_entries@,
            cb_entries: self.instr_cb_entries@,
        }
    }
}

impl Dasm {
    /// A disassembler waiting for the first byte of an instruction.
    pub fn new() -> (d: Dasm)
        ensures
            d@.wf(),
            d@.bytes_left == 0,
            !d@.cb_mode,
    {
        Dasm {
            bytes_left: 0,
            name: String::new(),
            imm16: 0,
            imm_info: None,
            instr_entries: Self::build_instr_entry_table(),
            instr_cb_entries: Self::build_instr_cb_entry_table(),
            instr_desc: InstrDesc::new(),
            cb_mode: false,
        }
    }

    /// Takes the next byte of the stream; returns the text of the
    /// instruction it completes, if it completes one.
    pub fn munch(&mut self, byte: u8) -> (r: Option<String>)
        requires
            old(self)@.wf(),
        ensures
            final(self)@ == old(self)@.munch_spec(byte).0,
            final(self)@.wf(),
            match (r, old(self)@.munch_spec(byte).1) {
                (Some(s), Some(t)) => s@ == t,
                (None, None) => true,
                _ => false,
            },
    {
        proof {
            lemma_tables_ok(byte);
        }
        // cb instructions are a special case
        if self.cb_mode {
            let entry = self.instr_cb_entries[byte as usize];
            self.cb_mode = false;
            // the "cb" byte was taken already, and all cb instructions are
            // 2 bytes long: the name is all there is
            return Some(entry.name.to_owned());
        }
        if self.bytes_left == 0 {
            // a new instruction starts
            if byte == PREFIX_CB_OP {
                // the next byte is needed to decode it
                self.cb_mode = true;
                return None;
            }
            let entry = self.instr_entries[byte as usize];
            self.instr_desc.clear();
            self.name = entry.name.to_owned();
            self.imm16 = 0;
            self.bytes_left = entry.size;
            self.imm_info = entry.info;
        }
        self.instr_desc.push(byte);
        self.bytes_left = self.bytes_left - 1;
        if self.bytes_left == 0 {
            return Some(
                match self.imm_info {
                    None => self.name.clone(),
                    Some(info) => {
                        let name = chars_of(self.name.as_str());
                        let text = match info {
                            ImmInfo::D8 => {
                                let v = dec_chars(self.instr_desc.d8() as u16);
                                proof {
                                    reveal_strlit("d8");
                                }
                                replace_word(&name, "d8", &v)
                            },
                            ImmInfo::D16 => {
                                let v = dec_chars(self.instr_desc.d16());
                                proof {
                                    reveal_strlit("d16");
                                }
                                replace_word(&name, "d16", &v)
                            },
                            ImmInfo::A8 => {
                                let v = dollar(hex_chars(self.instr_desc.a8() as u16, 2));
                                proof {
                                    reveal_strlit("a8");
                                }
                                replace_word(&name, "a8", &v)
                            },
                            ImmInfo::A16 => {
                                let v = dollar(hex_chars(self.instr_desc.a16(), 4));
                                proof {
                                    reveal_strlit("a16");
                                }
                                replace_word(&name, "a16", &v)
                            },
                            ImmInfo::R8 => {
                                let v = signed_dec_chars(self.instr_desc.r8());
                                proof {
                                    reveal_strlit("r8");
                                }
                                replace_word(&name, "r8", &v)
                            },
                        };
                        string_of(&text)
                    },
                },
            );
        }
        None
    }

    /// The table of the one-byte opcodes.
    fn build_instr_entry_table() -> (t: Vec<InstrEntry>)
        ensures
            t.len() == 256,
            forall|i: int| 0 <= i < 256 ==> #[trigger] t@[i] == instr_entry_spec(i as u8),
    {
        let mut t: Vec<InstrEntry> = Vec::new();
        let mut op: u32 = 0;
        while op < 256
            invariant
                op <= 256,
                t.len() == op,
                forall|i: int| 0 <= i < op ==> #[trigger] t@[i] == instr_entry_spec(i as u8),
            decreases 256 - op,
        {
            t.push(instr_entry(op as u8));
            op = op + 1;
        }
        t
    }

    /// The table of the opcodes after $CB.
    fn build_instr_cb_entry_table() -> (t: Vec<InstrEntry>)
        ensures
            t.len() == 256,
            forall|i: int| 0 <= i < 256 ==> #[trigger] t@[i] == instr_cb_entry_spec(i as u8),
    {
        let mut t: Vec<InstrEntry> = Vec::new();
        let mut op: u32 = 0;
        while op < 256
            invariant
                op <= 256,
                t.len() == op,
                forall|i: int| 0 <= i < op ==> #[trigger] t@[i] == instr_cb_entry_spec(i as u8),
            decreases 256 - op,
        {
            t.push(instr_cb_entry(op as u8));
            op = op + 1;
        }
        t
    }
}

/// `$` followed by `digits`.
fn dollar(digits: Vec<char>) -> (r: Vec<char>)
    ensures
        r@ == seq!['$'] + digits@,
{
    let mut r: Vec<char> = Vec::new();
    r.push('$');
    let mut i: usize = 0;
    while i < digits.len()
        invariant
            i <= digits.len(),
            r@ == seq!['$'] + digits@.take(i as int),
        decreases digits.len() - i,
    {
        r.push(digits[i]);
        i = i + 1;
        assert(r@ =~= seq!['$'] + digits@.take(i as int));
    }
    assert(digits@.take(i as int) =~= digits@);
    r
}

/// `name` with each `word` replaced by `value`.
fn replace_word(name: &Vec<char>, word: &str, value: &Vec<char>) -> (r: Vec<char>)
    requires
        word@.len() > 0,
    ensures
        r@ == replace_all(name@, word@, value@),
{
    let pat = chars_of(word);
    replace_chars(name, &pat, value)
}

/// A byte gives text exactly when it ends an instruction: the byte after
/// $CB, the last byte of a pending instruction, or a one-byte opcode; and
/// after text the disassembler waits for a new instruction.
pub proof fn lemma_text_at_last_byte(m: DasmModel, byte: u8)
    requires
        m.wf(),
    ensures
        (m.munch_spec(byte).1 is Some) <==> (if m.cb_mode {
            true
        } else if m.bytes_left == 0 {
            byte != PREFIX_CB_OP && instr_entry_spec(byte).size == 1
        } else {
            m.bytes_left == 1
        }),
        m.munch_spec(byte).1 is Some ==> m.munch_spec(byte).0.bytes_left == 0 && !m.munch_spec(
            byte,
        ).0.cb_mode,
{
    lemma_tables_ok(byte);
}

/// The disassembler after taking `bytes` in turn, with what each byte gave.
pub open spec fn munch_seq(m: DasmModel, bytes: Seq<u8>) -> (DasmModel, Seq<Option<Seq<char>>>)
    decreases bytes.len(),
{
    if bytes.len() == 0 {
        (m, Seq::empty())
    } else {
        let (m1, out) = m.munch_spec(bytes[0]);
        let (m2, outs) = munch_seq(m1, bytes.drop_first());
        (m2, seq![out] + outs)
    }
}

/// Whether the disassembler waits for the first byte of an instruction, as
/// after `new` or after a byte that gave text.
pub open spec fn idle(m: DasmModel) -> bool {
    m.bytes_left == 0 && !m.cb_mode
}

/// From an idle disassembler, the bytes of one instruction (its opcode and
/// as many more as its table entry counts) give nothing until the last,
/// which gives the instruction's text; that text depends on those bytes
/// alone, and the disassembler is idle again.
pub proof fn lemma_one_instruction(m: DasmModel, bytes: Seq<u8>)
    requires
        m.wf(),
        idle(m),
        bytes.len() > 0,
        bytes[0] != PREFIX_CB_OP,
        bytes.len() == instr_entry_spec(bytes[0]).size,
    ensures
        ({
            let (m2, outs) = munch_seq(m, bytes);
            let e = instr_entry_spec(bytes[0]);
            &&& outs.len() == bytes.len()
            &&& forall|i: int| 0 <= i < bytes.len() - 1 ==> #[trigger] outs[i] is None
            &&& outs[bytes.len() - 1] == Some(instr_text(e.name@, e.info, bytes))
            &&& idle(m2)
            &&& m2.wf()
        }),
{
    lemma_tables_ok(bytes[0]);
    reveal_with_fuel(munch_seq, 4);
    let e = instr_entry_spec(bytes[0]);
    let (m1, o1) = m.munch_spec(bytes[0]);
    let t1 = bytes.drop_first();
    assert(m1.desc == seq![bytes[0]]);
    if bytes.len() == 1 {
        assert(seq![bytes[0]] =~= bytes);
        assert(munch_seq(m1, t1).1 =~= Seq::<Option<Seq<char>>>::empty());
    } else {
        let (m2, o2) = m1.munch_spec(t1[0]);
        let t2 = t1.drop_first();
        assert(m2.desc == seq![bytes[0], bytes[1]]);
        if bytes.len() == 2 {
            assert(seq![bytes[0], bytes[1]] =~= bytes);
        } else {
            let (m3, o3) = m2.munch_spec(t2[0]);
            assert(m3.desc =~= bytes);
        }
    }
}

/// After $CB from an idle disassembler, the next byte gives the name of the
/// $CB instruction it names, and the disassembler is idle again.
pub proof fn lemma_cb_instruction(m: DasmModel, op: u8)
    requires
        m.wf(),
        idle(m),
    ensures
        ({
            let (m2, outs) = munch_seq(m, seq![PREFIX_CB_OP, op]);
            &&& outs == seq![None, Some(instr_cb_entry_spec(op).name@)]
            &&& idle(m2)
            &&& m2.wf()
        }),
{
    reveal_with_fuel(munch_seq, 3);
    let s = seq![PREFIX_CB_OP, op];
    assert(s.drop_first() =~= seq![op]);
    assert(s.drop_first().drop_first() =~= Seq::<u8>::empty());
    let outs = munch_seq(m, s).1;
    assert(outs =~= seq![None, Some(instr_cb_entry_spec(op).name@)]);
}

} // verus!
