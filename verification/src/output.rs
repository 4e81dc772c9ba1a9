//! The listing model: lines, the sparse per-address listing, the
//! linear-sweep driver that fills it, and the laws that hold of every
//! sweep.

use vstd::prelude::*;
use vstd::string::*;

use crate::decode::{Bytes, BytesModel, DecodeError, DecodeRule, RuleModel, spec_decode,
    spec_hex_bytes};
use crate::instruction::{InstructionModel, spec_displacement_offset, spec_is_label_mnemonic};
use crate::opcodes::{DecodeRules, spec_rules};
use crate::operands::{Offset, spec_offset_text};
use crate::strutil::{spaces, spec_hex_seq, spec_spaces};

verus! {

/// The mathematical model of one listing line.
#[verifier::ext_equal]
pub ghost struct LineModel {
    pub labeled: bool,
    pub address: Offset,
    pub instruction: BytesModel,
}

/// One line of the listing: its address, whether a label points at it,
/// and its payload.
#[derive(Clone, Debug, PartialEq)]
pub struct Line {
    labeled: bool,
    address: Offset,
    instruction: Bytes,
}

impl View for Line {
    type V = LineModel;

    closed spec fn view(&self) -> LineModel {
        LineModel { labeled: self.labeled, address: self.address, instruction: self.instruction@ }
    }
}

/// The byte column is padded to `width` characters.
pub open spec fn spec_pad(s: Seq<char>, width: nat) -> Seq<char> {
    if s.len() < width {
        s + spec_spaces((width - s.len()) as nat)
    } else {
        s
    }
}

/// The rendered line: a label line when the line is labeled, then the
/// address in hex, the raw bytes padded to the byte column, and the
/// instruction text.
pub open spec fn spec_line_text(l: LineModel, width: nat) -> Seq<char> {
    (if l.labeled {
        spec_offset_text(l.address.0) + ":\n"@
    } else {
        Seq::<char>::empty()
    }) + spec_hex_seq(l.address.0 as int, 8) + ": "@ + spec_pad(
        spec_hex_bytes(l.instruction.spec_raw_bytes(), 0),
        width + 4,
    ) + " "@ + l.instruction.spec_text()
}

impl Line {
    /// Renders the line with its byte column padded to `width + 4`
    /// characters.
    pub fn string_with_width(&self, width: usize) -> (r: String)
        requires
            width + 4 <= usize::MAX,
        ensures
            r@ == spec_line_text(self@, width as nat),
    {
        let mut s = if self.labeled {
            let mut s = self.address.text();
            s.append(":\n");
            s
        } else {
            String::new()
        };
        s.append(crate::strutil::hex_str(self.address.0 as u64, 8).as_str());
        s.append(": ");
        let b = self.instruction.bytes();
        let blen = b.as_str().unicode_len();
        s.append(b.as_str());
        if blen < width + 4 {
            s.append(spaces(width + 4 - blen).as_str());
        }
        s.append(" ");
        s.append(self.instruction.text().as_str());
        s
    }
}

/// The mathematical model of the listing: the line slots, the write
/// cursor, and the widest byte column seen so far.
#[verifier::ext_equal]
pub ghost struct ListingModel {
    pub lines: Seq<Option<LineModel>>,
    pub pointer: nat,
    pub width: nat,
}

/// The listing of a stream of `n` bytes before any line is added.
pub open spec fn spec_empty_listing(n: nat) -> ListingModel {
    ListingModel { lines: Seq::new(n, |i: int| None), pointer: 0, width: 0 }
}

/// Marking a label at `t`: an existing line gets its labeled flag set;
/// an empty slot gets a fresh labeled line with no payload; out of
/// range, nothing changes.
pub open spec fn spec_apply_label(lines: Seq<Option<LineModel>>, t: u32) -> Seq<Option<LineModel>> {
    if t < lines.len() {
        let nl = match lines[t as int] {
            Some(l) => LineModel { labeled: true, ..l },
            None => LineModel {
                labeled: true,
                address: Offset(0),
                instruction: BytesModel::Empty,
            },
        };
        lines.update(t as int, Some(nl))
    } else {
        lines
    }
}

/// Adding a payload at the cursor: the slot there is filled (keeping a
/// label flag already set on it), the cursor advances by the payload's
/// byte length, and the byte-column width grows to fit it. With the
/// cursor out of range nothing changes.
pub open spec fn spec_apply_add(lm: ListingModel, bm: BytesModel) -> ListingModel {
    if lm.pointer < lm.lines.len() {
        let p = lm.pointer as int;
        let labeled = match lm.lines[p] {
            Some(l) => l.labeled,
            None => false,
        };
        let nl = LineModel { labeled, address: Offset(lm.pointer as u32), instruction: bm };
        let w = spec_hex_bytes(bm.spec_raw_bytes(), 0).len();
        ListingModel {
            lines: lm.lines.update(p, Some(nl)),
            pointer: lm.pointer + bm.spec_raw_bytes().len(),
            width: if lm.width < w {
                w
            } else {
                lm.width
            },
        }
    } else {
        lm
    }
}

/// A fixed-capacity sparse array of optional lines indexed by byte
/// offset, with a running write cursor and the byte-column width used
/// for alignment.
#[derive(Clone, Debug, PartialEq)]
pub struct Disassembly {
    lines: Vec<Option<Line>>,
    pointer: Offset,
    width: usize,
}

impl View for Disassembly {
    type V = ListingModel;

    closed spec fn view(&self) -> ListingModel {
        ListingModel {
            lines: Seq::new(
                self.lines@.len(),
                |i: int|
                    match self.lines@[i] {
                        Some(l) => Some(l@),
                        None => None,
                    },
            ),
            pointer: self.pointer.0 as nat,
            width: self.width as nat,
        }
    }
}

impl Disassembly {
    /// Builds an empty listing with one line slot per input byte.
    pub fn new(bytes: usize) -> (r: Disassembly)
        ensures
            r@ == spec_empty_listing(bytes as nat),
    {
        let mut lines: Vec<Option<Line>> = Vec::new();
        let mut i: usize = 0;
        while i < bytes
            invariant
                i <= bytes,
                lines@.len() == i,
                forall|j: int| 0 <= j < i ==> lines@[j] is None,
            decreases bytes - i,
        {
            lines.push(None);
            i += 1;
        }
        let r = Disassembly { lines, pointer: Offset(0), width: 0 };
        proof {
            assert(r@.lines =~= spec_empty_listing(bytes as nat).lines);
            assert(r@ =~= spec_empty_listing(bytes as nat));
        }
        r
    }

    /// Adds a payload at the cursor, advances the cursor by its length,
    /// and widens the byte column to fit it; fails without changing
    /// anything when the cursor is already past the last slot.
    pub fn add(&mut self, i: Bytes) -> (r: Result<(), DecodeError>)
        requires
            old(self)@.pointer < old(self)@.lines.len() ==> old(self)@.pointer
                + i@.spec_raw_bytes().len() <= u32::MAX,
        ensures
            final(self)@ == spec_apply_add(old(self)@, i@),
            r == if old(self)@.pointer < old(self)@.lines.len() {
                Ok::<(), DecodeError>(())
            } else {
                Err::<(), DecodeError>(DecodeError::InvalidAddress(old(self)@.pointer as u32))
            },
    {
        let idx = self.pointer.to_pointer();
        if idx >= self.lines.len() {
            return Err(DecodeError::InvalidAddress(self.pointer.0));
        }
        let labeled = match &self.lines[idx] {
            Some(l) => l.labeled,
            None => false,
        };
        let len = i.length();
        let b = i.bytes();
        let w = b.as_str().unicode_len();
        let line = Line { labeled, address: self.pointer, instruction: i };
        self.lines.set(idx, Some(line));
        self.pointer.increment(len as u32);
        if self.width < w {
            self.width = w;
        }
        proof {
            assert(self@.lines =~= spec_apply_add(old(self)@, line.instruction@).lines);
            assert(self@ =~= spec_apply_add(old(self)@, line.instruction@));
        }
        Ok(())
    }

    /// Sets the labeled flag of the line slot at `offset`, creating an
    /// empty labeled line if the slot is vacant; out of range is
    /// reported without changing anything.
    pub fn label(&mut self, offset: Offset) -> (r: Result<(), DecodeError>)
        ensures
            final(self)@.lines == spec_apply_label(old(self)@.lines, offset.0),
            final(self)@.pointer == old(self)@.pointer,
            final(self)@.width == old(self)@.width,
            r == if offset.0 < old(self)@.lines.len() {
                Ok::<(), DecodeError>(())
            } else {
                Err::<(), DecodeError>(DecodeError::InvalidAddress(offset.0))
            },
    {
        let idx = offset.to_pointer();
        if idx >= self.lines.len() {
            return Err(DecodeError::InvalidAddress(offset.0));
        }
        let slot = &mut self.lines[idx];
        match slot {
            Some(l) => {
                l.labeled = true;
            },
            None => {
                *slot = Some(
                    Line { labeled: true, address: Offset(0), instruction: Bytes::Empty },
                );
            },
        }
        proof {
            assert(self@.lines =~= spec_apply_label(old(self)@.lines, offset.0));
        }
        Ok(())
    }

    /// How many line slots hold a line.
    pub fn line_count(&self) -> (r: usize)
        ensures
            r == spec_line_count(self@.lines),
    {
        let mut count: usize = 0;
        let mut i: usize = 0;
        proof {
            assert(self@.lines.take(0) =~= Seq::<Option<LineModel>>::empty());
        }
        while i < self.lines.len()
            invariant
                i <= self.lines@.len(),
                self@.lines.len() == self.lines@.len(),
                count == spec_line_count(self@.lines.take(i as int)),
                count <= i,
            decreases self.lines@.len() - i,
        {
            proof {
                assert(self@.lines.take(i + 1).drop_last() =~= self@.lines.take(i as int));
                assert(self@.lines.take(i + 1).last() == self@.lines[i as int]);
            }
            if self.lines[i].is_some() {
                count += 1;
            }
            i += 1;
        }
        proof {
            assert(self@.lines.take(self.lines@.len() as int) =~= self@.lines);
        }
        count
    }
}

/// How many slots of a listing hold a line.
pub open spec fn spec_line_count(lines: Seq<Option<LineModel>>) -> nat
    decreases lines.len(),
{
    if lines.len() == 0 {
        0
    } else {
        spec_line_count(lines.drop_last()) + (if lines.last() is Some {
            1nat
        } else {
            0nat
        })
    }
}

/// The rendered listing from slot `i` on: the populated lines, each
/// rendered with the shared byte-column width, separated by newlines.
/// `first` says whether no line has been emitted yet.
pub open spec fn spec_render_from(
    lines: Seq<Option<LineModel>>,
    i: int,
    width: nat,
    first: bool,
) -> Seq<char>
    decreases lines.len() - i,
{
    if i < 0 || i >= lines.len() {
        Seq::empty()
    } else {
        match lines[i] {
            None => spec_render_from(lines, i + 1, width, first),
            Some(l) => (if first {
                Seq::<char>::empty()
            } else {
                "\n"@
            }) + spec_line_text(l, width) + spec_render_from(lines, i + 1, width, false),
        }
    }
}

/// The rendered listing.
pub open spec fn spec_render(lm: ListingModel) -> Seq<char> {
    spec_render_from(lm.lines, 0, lm.width, true)
}

impl Disassembly {
    /// Renders the listing: each populated line in address order,
    /// separated by newlines.
    pub fn render(&self) -> (r: String)
        requires
            self@.width + 4 <= usize::MAX,
        ensures
            r@ == spec_render(self@),
    {
        let mut out = String::new();
        let mut first = true;
        let mut i: usize = 0;
        while i < self.lines.len()
            invariant
                i <= self.lines@.len(),
                self@.width + 4 <= usize::MAX,
                out@ + spec_render_from(self@.lines, i as int, self@.width, first)
                    == spec_render_from(self@.lines, 0, self@.width, true),
            decreases self.lines@.len() - i,
        {
            match &self.lines[i] {
                Some(l) => {
                    if !first {
                        out.append("\n");
                    }
                    out.append(l.string_with_width(self.width).as_str());
                    first = false;
                },
                None => {},
            }
            i += 1;
        }
        out
    }
}

/// The label target a payload emits: the referenced offset of a decoded
/// instruction whose mnemonic is in the label-making set.
pub open spec fn spec_label_target(bm: BytesModel) -> Option<u32> {
    match bm {
        BytesModel::Decoded { instruction, .. } => {
            if spec_is_label_mnemonic(instruction.mnemonic) {
                match spec_displacement_offset(instruction.operands) {
                    Some(off) => Some(off.0),
                    None => None,
                }
            } else {
                None
            }
        },
        _ => None,
    }
}

/// One sweep step applied to the listing: the payload's label target (if
/// any) is marked first, then the payload is added at the cursor.
pub open spec fn spec_apply_step(lm: ListingModel, bm: BytesModel) -> ListingModel {
    let lm1 = match spec_label_target(bm) {
        Some(t) => ListingModel {
            lines: spec_apply_label(lm.lines, t),
            pointer: lm.pointer,
            width: lm.width,
        },
        None => lm,
    };
    spec_apply_add(lm1, bm)
}

/// The first candidate rule (from index `i` on) that decodes the window
/// into a nonempty instruction that fits it.
pub open spec fn spec_try_rules(
    location: Offset,
    window: Seq<u8>,
    rules: Seq<RuleModel>,
    i: int,
) -> Option<(Seq<u8>, InstructionModel)>
    decreases rules.len() - i,
{
    if i < 0 || i >= rules.len() {
        None
    } else {
        match spec_decode(location, window, rules[i]) {
            Ok(d) => if 1 <= d.0.len() <= window.len() {
                Some(d)
            } else {
                spec_try_rules(location, window, rules, i + 1)
            },
            Err(_) => spec_try_rules(location, window, rules, i + 1),
        }
    }
}

/// The payload the sweep emits at `pos`: the first candidate rule for
/// the byte there that decodes, or the byte itself as unknown.
pub open spec fn spec_step(bytes: Seq<u8>, pos: nat) -> BytesModel {
    match spec_rules(bytes[pos as int]) {
        None => BytesModel::Uknown(bytes[pos as int]),
        Some(rules) => match spec_try_rules(
            Offset(pos as u32),
            bytes.skip(pos as int),
            rules,
            0,
        ) {
            Some(d) => BytesModel::Decoded { bytes: d.0, instruction: d.1 },
            None => BytesModel::Uknown(bytes[pos as int]),
        },
    }
}

/// How far the sweep advances past a payload: its byte length, and at
/// least one.
pub open spec fn spec_step_adv(bm: BytesModel) -> nat {
    let l = bm.spec_raw_bytes().len();
    if l < 1 {
        1
    } else {
        l
    }
}

/// The sweep from `pos` to the end of the stream, folded over the
/// listing built so far.
pub open spec fn spec_sweep_from(bytes: Seq<u8>, pos: nat, acc: ListingModel) -> ListingModel
    decreases bytes.len() - pos,
{
    if pos >= bytes.len() {
        acc
    } else {
        let bm = spec_step(bytes, pos);
        let next = if pos + spec_step_adv(bm) > bytes.len() {
            bytes.len()
        } else {
            pos + spec_step_adv(bm)
        };
        spec_sweep_from(bytes, next, spec_apply_step(acc, bm))
    }
}

/// The listing the linear sweep produces for a byte stream.
pub open spec fn spec_disassembly(bytes: Seq<u8>) -> ListingModel {
    spec_sweep_from(bytes, 0, spec_empty_listing(bytes.len()))
}

/// A successful candidate yields between one byte and the whole window.
proof fn lemma_try_rules_bounds(location: Offset, window: Seq<u8>, rules: Seq<RuleModel>, i: int)
    ensures
        match spec_try_rules(location, window, rules, i) {
            Some(d) => 1 <= d.0.len() <= window.len(),
            None => true,
        },
    decreases rules.len() - i,
{
    if 0 <= i < rules.len() {
        lemma_try_rules_bounds(location, window, rules, i + 1)
    }
}

/// Every step emits at least one byte and no more than remain.
proof fn lemma_step_bounds(bytes: Seq<u8>, pos: nat)
    requires
        pos < bytes.len(),
    ensures
        1 <= spec_step(bytes, pos).spec_raw_bytes().len() <= bytes.len() - pos,
{
    match spec_rules(bytes[pos as int]) {
        None => {},
        Some(rules) => {
            lemma_try_rules_bounds(Offset(pos as u32), bytes.skip(pos as int), rules, 0);
        },
    }
}

/// Executes one sweep step: looks the leading byte up in the opcode
/// table and tries the candidate rules in order, handing back the first
/// successful decode or the byte itself as unknown.
#[verifier::loop_isolation(false)]
fn sweep_step(bytes: &[u8], pos: usize) -> (r: Bytes)
    requires
        pos < bytes@.len(),
        bytes@.len() <= u32::MAX,
    ensures
        r@ == spec_step(bytes@, pos as nat),
        1 <= r@.spec_raw_bytes().len() <= bytes@.len() - pos,
{
    let b = *vstd::slice::slice_index_get(bytes, pos);
    let rules = match DecodeRules::get(&b) {
        Ok(rs) => rs,
        Err(_) => {
            return Bytes::Uknown(b);
        },
    };
    let window = vstd::slice::slice_subrange(bytes, pos, bytes.len());
    proof {
        assert(window@ =~= bytes@.skip(pos as int));
    }
    let loc = Offset(pos as u32);
    let ghost rs = spec_rules(b)->Some_0;
    let mut i: usize = 0;
    while i < rules.len()
        invariant
            i <= rules@.len(),
            spec_try_rules(loc, window@, rs, 0) == spec_try_rules(loc, window@, rs, i as int),
        decreases rules@.len() - i,
    {
        let attempt = Bytes::from(loc, window, &rules[i]);
        match attempt {
            Ok(d) => {
                let l = d.length();
                if 1 <= l && l <= window.len() {
                    return d;
                }
            },
            Err(_) => {},
        }
        i += 1;
    }
    Bytes::Uknown(b)
}

/// The byte length of the line in a slot, zero for an empty slot.
pub open spec fn spec_line_len_at(lines: Seq<Option<LineModel>>, i: int) -> nat {
    match lines[i] {
        Some(l) => l.instruction.spec_raw_bytes().len(),
        None => 0,
    }
}

/// The sum of the byte lengths of all lines of the listing.
pub open spec fn spec_sum_lens(lines: Seq<Option<LineModel>>) -> nat
    decreases lines.len(),
{
    if lines.len() == 0 {
        0
    } else {
        spec_sum_lens(lines.drop_last()) + spec_line_len_at(lines, lines.len() - 1)
    }
}

/// Updating one slot changes the sum by the difference of the lengths.
proof fn lemma_sum_update(lines: Seq<Option<LineModel>>, i: int, v: Option<LineModel>)
    requires
        0 <= i < lines.len(),
    ensures
        spec_sum_lens(lines.update(i, v)) + spec_line_len_at(lines, i) == spec_sum_lens(lines)
            + spec_line_len_at(lines.update(i, v), i),
    decreases lines.len(),
{
    let u = lines.update(i, v);
    if i == lines.len() - 1 {
        assert(u.drop_last() =~= lines.drop_last());
    } else {
        assert(u.drop_last() =~= lines.drop_last().update(i, v));
        lemma_sum_update(lines.drop_last(), i, v);
    }
}

/// A listing whose slots are all empty sums to zero.
proof fn lemma_sum_all_none(lines: Seq<Option<LineModel>>)
    requires
        forall|i: int| 0 <= i < lines.len() ==> lines[i] is None,
    ensures
        spec_sum_lens(lines) == 0,
    decreases lines.len(),
{
    if lines.len() > 0 {
        lemma_sum_all_none(lines.drop_last());
    }
}

/// Marking a label changes no line length.
proof fn lemma_label_keeps_lens(lines: Seq<Option<LineModel>>, t: u32)
    ensures
        spec_apply_label(lines, t).len() == lines.len(),
        forall|i: int|
            #![trigger spec_line_len_at(spec_apply_label(lines, t), i)]
            0 <= i < lines.len() ==> spec_line_len_at(spec_apply_label(lines, t), i)
                == spec_line_len_at(lines, i),
        spec_sum_lens(spec_apply_label(lines, t)) == spec_sum_lens(lines),
{
    if t < lines.len() {
        lemma_sum_update(
            lines,
            t as int,
            spec_apply_label(lines, t)[t as int],
        );
    }
}

/// The structural facts that hold of the listing throughout the sweep:
/// the lengths of its lines sum to the cursor, every slot at or past the
/// cursor is empty or a zero-length phantom, and the slots covered by a
/// line's bytes hold nothing else.
pub open spec fn spec_listing_wf(lm: ListingModel) -> bool {
    &&& spec_sum_lens(lm.lines) == lm.pointer
    &&& forall|i: int|
        lm.pointer <= i < lm.lines.len() ==> spec_line_len_at(lm.lines, i) == 0
    &&& forall|i: int|
        0 <= i < lm.lines.len() && spec_line_len_at(lm.lines, i) > 0 ==> i + spec_line_len_at(
            lm.lines,
            i,
        ) <= lm.pointer
    &&& forall|i: int, j: int|
        #![trigger spec_line_len_at(lm.lines, i), spec_line_len_at(lm.lines, j)]
        0 <= i < lm.lines.len() && i < j < i + spec_line_len_at(lm.lines, i) ==> spec_line_len_at(
            lm.lines,
            j,
        ) == 0
}

/// Folding the remaining sweep over a well-formed listing ends with the
/// cursor at the stream's end and the structure intact.
proof fn lemma_sweep_from_props(bytes: Seq<u8>, pos: nat, acc: ListingModel)
    requires
        acc.lines.len() == bytes.len(),
        acc.pointer == pos,
        pos <= bytes.len(),
        spec_listing_wf(acc),
    ensures
        spec_sweep_from(bytes, pos, acc).lines.len() == bytes.len(),
        spec_sweep_from(bytes, pos, acc).pointer == bytes.len(),
        spec_listing_wf(spec_sweep_from(bytes, pos, acc)),
    decreases bytes.len() - pos,
{
    if pos >= bytes.len() {
    } else {
        let bm = spec_step(bytes, pos);
        lemma_step_bounds(bytes, pos);
        let adv = spec_step_adv(bm);
        let next = pos + adv;
        let lm1 = match spec_label_target(bm) {
            Some(t) => ListingModel {
                lines: spec_apply_label(acc.lines, t),
                pointer: acc.pointer,
                width: acc.width,
            },
            None => acc,
        };
        match spec_label_target(bm) {
            Some(t) => {
                lemma_label_keeps_lens(acc.lines, t);
            },
            None => {},
        }
        assert(spec_listing_wf(lm1)) by {
            assert forall|i: int| lm1.pointer <= i < lm1.lines.len() implies spec_line_len_at(
                lm1.lines,
                i,
            ) == 0 by {
                assert(spec_line_len_at(acc.lines, i) == 0);
            }
            assert forall|i: int|
                0 <= i < lm1.lines.len() && spec_line_len_at(lm1.lines, i) > 0 implies i
                + spec_line_len_at(lm1.lines, i) <= lm1.pointer by {
                assert(spec_line_len_at(lm1.lines, i) == spec_line_len_at(acc.lines, i));
            }
            assert forall|i: int, j: int|
                #![trigger spec_line_len_at(lm1.lines, i), spec_line_len_at(lm1.lines, j)]
                0 <= i < lm1.lines.len() && i < j < i + spec_line_len_at(lm1.lines, i) implies
                spec_line_len_at(lm1.lines, j) == 0 by {
                assert(spec_line_len_at(lm1.lines, i) == spec_line_len_at(acc.lines, i));
                assert(spec_line_len_at(lm1.lines, j) == spec_line_len_at(acc.lines, j));
            }
        }
        let lm2 = spec_apply_add(lm1, bm);
        lemma_sum_update(lm1.lines, pos as int, lm2.lines[pos as int]);
        assert(spec_line_len_at(lm1.lines, pos as int) == 0);
        assert(spec_line_len_at(lm2.lines, pos as int) == bm.spec_raw_bytes().len());
        assert(spec_sum_lens(lm2.lines) == lm2.pointer);
        assert(spec_listing_wf(lm2)) by {
            assert forall|i: int| lm2.pointer <= i < lm2.lines.len() implies spec_line_len_at(
                lm2.lines,
                i,
            ) == 0 by {
                assert(i != pos);
                assert(spec_line_len_at(lm2.lines, i) == spec_line_len_at(lm1.lines, i));
            }
            assert forall|i: int|
                0 <= i < lm2.lines.len() && spec_line_len_at(lm2.lines, i) > 0 implies i
                + spec_line_len_at(lm2.lines, i) <= lm2.pointer by {
                if i != pos {
                    assert(spec_line_len_at(lm2.lines, i) == spec_line_len_at(lm1.lines, i));
                }
            }
            assert forall|i: int, j: int|
                #![trigger spec_line_len_at(lm2.lines, i), spec_line_len_at(lm2.lines, j)]
                0 <= i < lm2.lines.len() && i < j < i + spec_line_len_at(lm2.lines, i) implies
                spec_line_len_at(lm2.lines, j) == 0 by {
                if i == pos {
                    assert(spec_line_len_at(lm2.lines, j) == spec_line_len_at(lm1.lines, j));
                    assert(spec_line_len_at(lm1.lines, j) == 0);
                } else {
                    assert(spec_line_len_at(lm2.lines, i) == spec_line_len_at(lm1.lines, i));
                    assert(i + spec_line_len_at(lm1.lines, i) <= lm1.pointer);
                    assert(j != pos);
                    assert(spec_line_len_at(lm2.lines, j) == spec_line_len_at(lm1.lines, j));
                }
            }
        }
        lemma_sweep_from_props(bytes, next, lm2);
    }
}

/// The linear-sweep driver: walks the stream from offset zero, emits a
/// decoded line or a one-byte unknown at each position, and marks the
/// label targets of decoded calls and jumps.
impl Disassembly {
    /// Disassembles a byte stream into a listing.
    pub fn from_bytes(bytes: &[u8]) -> (r: Disassembly)
        requires
            bytes@.len() <= u32::MAX,
        ensures
            r@ == spec_disassembly(bytes@),
            r@.lines.len() == bytes@.len(),
            r@.pointer == bytes@.len(),
    {
        let n = bytes.len();
        let mut output = Disassembly::new(n);
        let mut pos: usize = 0;
        while pos < n
            invariant
                n == bytes@.len(),
                n <= u32::MAX,
                pos <= n,
                output@.pointer == pos,
                output@.lines.len() == n,
                spec_sweep_from(bytes@, pos as nat, output@) == spec_disassembly(bytes@),
            decreases n - pos,
        {
            let ghost pre = output@;
            let dec = sweep_step(bytes, pos);
            let ghost bm = dec@;
            let adv = dec.length();
            match &dec {
                Bytes::Decoded { bytes: _, instruction } => {
                    if instruction.convert_displacements_to_offsets() {
                        match instruction.get_displacement_offset() {
                            Some(off) => {
                                let _ = output.label(off);
                            },
                            None => {},
                        }
                    }
                },
                _ => {},
            }
            proof {
                let lm1 = match spec_label_target(bm) {
                    Some(t) => ListingModel {
                        lines: spec_apply_label(pre.lines, t),
                        pointer: pre.pointer,
                        width: pre.width,
                    },
                    None => pre,
                };
                assert(output@ =~= lm1);
            }
            let _ = output.add(dec);
            proof {
                assert(output@ == spec_apply_step(pre, bm));
            }
            pos += adv;
        }
        output
    }
}

/// Every byte of the input is covered exactly once: the byte lengths of
/// the emitted lines sum to the length of the stream.
pub proof fn lemma_sweep_total_length(bytes: Seq<u8>)
    ensures
        spec_sum_lens(spec_disassembly(bytes).lines) == bytes.len(),
        spec_disassembly(bytes).lines.len() == bytes.len(),
{
    let acc = spec_empty_listing(bytes.len());
    lemma_sum_all_none(acc.lines);
    lemma_sweep_from_props(bytes, 0, acc);
}

/// Lines never overlap: no line with a payload starts inside the bytes
/// of another.
pub proof fn lemma_no_overlap(bytes: Seq<u8>)
    ensures
        forall|i: int, j: int|
            #![trigger spec_line_len_at(spec_disassembly(bytes).lines, i), spec_line_len_at(
                spec_disassembly(bytes).lines,
                j,
            )]
            0 <= i < spec_disassembly(bytes).lines.len() && i < j < i + spec_line_len_at(
                spec_disassembly(bytes).lines,
                i,
            ) ==> spec_line_len_at(spec_disassembly(bytes).lines, j) == 0,
{
    let acc = spec_empty_listing(bytes.len());
    lemma_sum_all_none(acc.lines);
    lemma_sweep_from_props(bytes, 0, acc);
}

/// Decoding is a pure function of the byte stream: two listings built
/// from equal streams are equal.
pub proof fn lemma_decode_deterministic(b1: Seq<u8>, b2: Seq<u8>)
    requires
        b1 == b2,
    ensures
        spec_disassembly(b1) == spec_disassembly(b2),
{
}

/// A listing holds at most one line per slot.
proof fn lemma_line_count_le(lines: Seq<Option<LineModel>>)
    ensures
        spec_line_count(lines) <= lines.len(),
    decreases lines.len(),
{
    if lines.len() > 0 {
        lemma_line_count_le(lines.drop_last());
    }
}

/// The sweep never emits more lines than the stream has bytes.
pub proof fn lemma_line_count_bounded(bytes: Seq<u8>)
    ensures
        spec_line_count(spec_disassembly(bytes).lines) <= bytes.len(),
{
    lemma_sweep_total_length(bytes);
    lemma_line_count_le(spec_disassembly(bytes).lines);
}

/// The label targets the sweep emits from `pos` to the end of the
/// stream.
pub open spec fn spec_emitted_labels(bytes: Seq<u8>, pos: nat) -> Set<u32>
    decreases bytes.len() - pos,
{
    if pos >= bytes.len() {
        Set::empty()
    } else {
        let bm = spec_step(bytes, pos);
        let next = if pos + spec_step_adv(bm) > bytes.len() {
            bytes.len()
        } else {
            pos + spec_step_adv(bm)
        };
        match spec_label_target(bm) {
            Some(t) => spec_emitted_labels(bytes, next).insert(t),
            None => spec_emitted_labels(bytes, next),
        }
    }
}

/// A label once set stays set for the rest of the sweep.
proof fn lemma_labeled_monotone(bytes: Seq<u8>, pos: nat, acc: ListingModel, t: u32)
    requires
        t < acc.lines.len(),
        acc.lines[t as int] is Some,
        acc.lines[t as int]->Some_0.labeled,
    ensures
        spec_sweep_from(bytes, pos, acc).lines.len() == acc.lines.len(),
        spec_sweep_from(bytes, pos, acc).lines[t as int] is Some,
        spec_sweep_from(bytes, pos, acc).lines[t as int]->Some_0.labeled,
    decreases bytes.len() - pos,
{
    if pos >= bytes.len() {
    } else {
        let bm = spec_step(bytes, pos);
        let next = if pos + spec_step_adv(bm) > bytes.len() {
            bytes.len()
        } else {
            pos + spec_step_adv(bm)
        };
        let lm2 = spec_apply_step(acc, bm);
        assert(lm2.lines.len() == acc.lines.len());
        assert(lm2.lines[t as int] is Some && lm2.lines[t as int]->Some_0.labeled);
        lemma_labeled_monotone(bytes, next, lm2, t);
    }
}

/// Every in-range label target the remaining sweep emits ends up
/// marked in the listing.
proof fn lemma_labels_marked_from(bytes: Seq<u8>, pos: nat, acc: ListingModel, t: u32)
    requires
        acc.lines.len() == bytes.len(),
        spec_emitted_labels(bytes, pos).contains(t),
        t < bytes.len(),
    ensures
        spec_sweep_from(bytes, pos, acc).lines[t as int] is Some,
        spec_sweep_from(bytes, pos, acc).lines[t as int]->Some_0.labeled,
    decreases bytes.len() - pos,
{
    let bm = spec_step(bytes, pos);
    let next = if pos + spec_step_adv(bm) > bytes.len() {
        bytes.len()
    } else {
        pos + spec_step_adv(bm)
    };
    let lm2 = spec_apply_step(acc, bm);
    assert(lm2.lines.len() == acc.lines.len());
    if spec_label_target(bm) == Some(t) {
        assert(lm2.lines[t as int] is Some && lm2.lines[t as int]->Some_0.labeled);
        lemma_labeled_monotone(bytes, next, lm2, t);
    } else {
        assert(spec_emitted_labels(bytes, next).contains(t));
        lemma_labels_marked_from(bytes, next, lm2, t);
    }
}

/// Every label target the sweep emits is either marked labeled in the
/// listing or lies outside the stream.
pub proof fn lemma_labels_resolved(bytes: Seq<u8>, t: u32)
    requires
        spec_emitted_labels(bytes, 0).contains(t),
        t < bytes.len(),
    ensures
        spec_disassembly(bytes).lines[t as int] is Some,
        spec_disassembly(bytes).lines[t as int]->Some_0.labeled,
{
    lemma_labels_marked_from(bytes, 0, spec_empty_listing(bytes.len()), t);
}

} // verus!
